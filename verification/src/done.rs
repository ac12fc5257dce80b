//! Futures completed in advance: `done`, `finished`, `failed`.

use vstd::prelude::*;
use crate::Future;
use crate::Task;
use crate::poll::Poll;

verus! {

/// A future whose result was fixed when it was created; it completes on the
/// first poll.
pub struct Done<T, E> {
    /// The result still owed, or `None` once it has been handed out.
    pub result: Option<Result<T, E>>,
}

impl<T: 'static, E: 'static> Future<T, E> for Done<T, E> {
    open spec fn wf(&self) -> bool {
        true
    }

    open spec fn done(&self) -> bool {
        self.result is None
    }

    open spec fn may_produce(&self, r: Result<T, E>) -> bool {
        self.result == Some(r)
    }

    open spec fn must_complete(&self) -> bool {
        self.result is Some
    }

    fn poll(&mut self, task: &mut Task) -> (r: Poll<T, E>)
        ensures
            r.spec_result() == old(self).result,
            final(self).result is None,
    {
        match self.result.take() {
            Some(Ok(v)) => Poll::Ready(v),
            Some(Err(e)) => Poll::Failed(e),
            None => Poll::NotReady,
        }
    }

    fn schedule(&mut self, task: &mut Task)
        ensures
            *final(self) == *old(self),
    {
    }
}

/// A future already completed with `result`.
pub fn done<T: 'static, E: 'static>(result: Result<T, E>) -> (f: Done<T, E>)
    ensures
        f.wf(),
        !f.done(),
        f == (Done { result: Some(result) }),
        forall|r: Result<T, E>| f.may_produce(r) <==> r == result,
{
    Done { result: Some(result) }
}

/// A future already completed successfully with `value`.
pub fn finished<T: 'static, E: 'static>(value: T) -> (f: Done<T, E>)
    ensures
        f.wf(),
        !f.done(),
        f == (Done { result: Some(Ok::<T, E>(value)) }),
        forall|r: Result<T, E>| f.may_produce(r) <==> r == Ok::<T, E>(value),
{
    done(Ok(value))
}

/// A future already completed with the error `error`.
pub fn failed<T: 'static, E: 'static>(error: E) -> (f: Done<T, E>)
    ensures
        f.wf(),
        !f.done(),
        f == (Done { result: Some(Err::<T, E>(error)) }),
        forall|r: Result<T, E>| f.may_produce(r) <==> r == Err::<T, E>(error),
{
    done(Err(error))
}

/// A `Done` future converts into itself.
impl<T: 'static, E: 'static> crate::IntoFuture<T, E> for Done<T, E> {
    type Future = Done<T, E>;

    open spec fn fut_wf(self) -> bool {
        self.wf() && !self.done()
    }

    open spec fn fut_may_produce(self, r: Result<T, E>) -> bool {
        self.may_produce(r)
    }

    open spec fn fut_must_complete(self) -> bool {
        self.must_complete()
    }

    fn into_future(self) -> (f: Done<T, E>)
        ensures
            f == self,
    {
        self
    }
}

} // verus!
