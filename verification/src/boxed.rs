//! Futures with the structural type erased behind one allocation.

use vstd::prelude::*;
use crate::Future;
use crate::IntoFuture;
use crate::Task;
use crate::poll::Poll;

verus! {

/// A future whose structural type is erased behind one allocation. The
/// ergonomic escape hatch where heterogeneous futures meet at a branch, and
/// the shape a recursive chain of futures has to take.
#[verifier::reject_recursive_types(T)]
#[verifier::reject_recursive_types(E)]
pub struct BoxFuture<T, E> {
    /// The erased future.
    pub inner: Box<dyn Future<T, E>>,
}

impl<T: 'static, E: 'static> Future<T, E> for BoxFuture<T, E> {
    open spec fn wf(&self) -> bool {
        (*self.inner).wf()
    }

    open spec fn done(&self) -> bool {
        (*self.inner).done()
    }

    open spec fn may_produce(&self, r: Result<T, E>) -> bool {
        (*self.inner).may_produce(r)
    }

    open spec fn must_complete(&self) -> bool {
        (*self.inner).must_complete()
    }

    fn poll(&mut self, task: &mut Task) -> (r: Poll<T, E>) {
        (*self.inner).poll(task)
    }

    fn schedule(&mut self, task: &mut Task) {
        (*self.inner).schedule(task)
    }
}

/// A boxed future converts into itself.
impl<T: 'static, E: 'static> IntoFuture<T, E> for BoxFuture<T, E> {
    type Future = BoxFuture<T, E>;

    open spec fn fut_wf(self) -> bool {
        self.wf() && !self.done()
    }

    open spec fn fut_may_produce(self, r: Result<T, E>) -> bool {
        self.may_produce(r)
    }

    open spec fn fut_must_complete(self) -> bool {
        self.must_complete()
    }

    fn into_future(self) -> (f: BoxFuture<T, E>)
        ensures
            f == self,
    {
        self
    }
}

/// Erase the structural type of `f` behind one allocation. The erased
/// future is driven through the same contract, but the erasure hides the
/// model: the verifier connects nothing across the coercion into the trait
/// object, so no contract here can carry `f`'s well-formedness or results
/// over — not even through a ghost snapshot, whose tie to the erased value
/// would rest on that same connection. Callers who need the model keep the
/// structural type; `tailcall` hands successors out unerased for the same
/// reason.
pub fn boxed<T: 'static, E: 'static, F: Future<T, E> + 'static>(f: F) -> BoxFuture<T, E> {
    BoxFuture { inner: Box::new(f) }
}

} // verus!
