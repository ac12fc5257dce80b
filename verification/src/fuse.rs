//! Make a future safe to poll after completion.

use vstd::prelude::*;
use crate::Future;
use crate::Task;
use crate::poll::Poll;

verus! {

/// A future that reports its inner future's completion once and then
/// reports `NotReady` forever. It is the one future that never counts as
/// done, so polling it past completion is always allowed and well-defined.
pub struct Fuse<A> {
    /// The inner future, dropped the moment it completes.
    pub inner: Option<A>,
}

impl<T: 'static, E: 'static, A: Future<T, E>> Future<T, E> for Fuse<A> {
    open spec fn wf(&self) -> bool {
        match self.inner {
            Some(a) => a.wf() && !a.done(),
            None => true,
        }
    }

    open spec fn done(&self) -> bool {
        false
    }

    open spec fn may_produce(&self, r: Result<T, E>) -> bool {
        self.inner matches Some(a) && a.may_produce(r)
    }

    open spec fn must_complete(&self) -> bool {
        self.inner matches Some(a) && a.must_complete()
    }

    fn poll(&mut self, task: &mut Task) -> (r: Poll<T, E>)
        ensures
            old(self).inner is None ==> r is NotReady && final(self).inner is None,
            r.spec_is_ready() ==> final(self).inner is None,
            r is NotReady ==> (final(self).inner is Some <==> old(self).inner is Some),
    {
        let mut held: Option<A> = None;
        core::mem::swap(&mut held, &mut self.inner);
        match held {
            None => Poll::NotReady,
            Some(mut a) => {
                match a.poll(task) {
                    Poll::NotReady => {
                        self.inner = Some(a);
                        Poll::NotReady
                    },
                    Poll::Ready(v) => Poll::Ready(v),
                    Poll::Failed(e) => Poll::Failed(e),
                }
            },
        }
    }

    fn schedule(&mut self, task: &mut Task) {
        match &mut self.inner {
            Some(a) => a.schedule(task),
            None => (),
        }
    }
}

/// Fuse `future`: its completion is reported once, and every poll after
/// that reports `NotReady` instead of being a contract violation.
pub fn fuse<T: 'static, E: 'static, A: Future<T, E>>(future: A) -> (r: Fuse<A>)
    requires
        future.wf(),
        !future.done(),
    ensures
        r == (Fuse { inner: Some(future) }),
        r.wf(),
        !r.done(),
{
    Fuse { inner: Some(future) }
}

} // verus!
