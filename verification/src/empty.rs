//! A future that never completes.

use core::marker::PhantomData;
use vstd::prelude::*;
use crate::Future;
use crate::Task;
use crate::poll::Poll;

verus! {

/// A future that is never ready. Scheduling it is a no-op, so it is useful
/// together with `select` and `fuse`.
pub struct Empty<T, E> {
    /// Marker for the item and error type this future never produces.
    pub marker: PhantomData<(T, E)>,
}

impl<T: 'static, E: 'static> Future<T, E> for Empty<T, E> {
    open spec fn wf(&self) -> bool {
        true
    }

    open spec fn done(&self) -> bool {
        false
    }

    open spec fn may_produce(&self, r: Result<T, E>) -> bool {
        false
    }

    open spec fn must_complete(&self) -> bool {
        false
    }

    fn poll(&mut self, task: &mut Task) -> (r: Poll<T, E>) {
        Poll::NotReady
    }

    fn schedule(&mut self, task: &mut Task)
        ensures
            *final(self) == *old(self),
    {
    }
}

/// A future that never completes.
pub fn empty<T: 'static, E: 'static>() -> (f: Empty<T, E>)
    ensures
        f.wf(),
        !f.done(),
        forall|r: Result<T, E>| !f.may_produce(r),
{
    Empty { marker: PhantomData }
}

} // verus!
