//! Transform the successful result of a future.

use core::marker::PhantomData;
use vstd::prelude::*;
use crate::Future;
use crate::Task;
use crate::poll::Poll;

verus! {

/// A future that applies a function to the successful result of another
/// future. Errors and pending polls are forwarded unchanged; the function is
/// consumed when the inner future succeeds.
pub struct Mapped<T, A, F> {
    /// The future being transformed.
    pub future: A,
    /// The transformation, present until this future completes.
    pub f: Option<F>,
    /// Marker tying the inner future's item type to this node.
    pub item: PhantomData<T>,
}

impl<T: 'static, E: 'static, U: 'static, A, F> Future<U, E> for Mapped<T, A, F>
    where A: Future<T, E>, F: FnOnce(T) -> U + 'static,
{
    open spec fn wf(&self) -> bool {
        match self.f {
            Some(f) => {
                &&& self.future.wf()
                &&& !self.future.done()
                &&& forall|v: T| self.future.may_produce(Ok(v)) ==> call_requires(f, (v,))
            },
            None => true,
        }
    }

    open spec fn done(&self) -> bool {
        self.f is None
    }

    open spec fn may_produce(&self, r: Result<U, E>) -> bool {
        match self.f {
            Some(f) => match r {
                Result::Err(e) => self.future.may_produce(Err(e)),
                Result::Ok(u) => exists|v: T|
                    self.future.may_produce(Ok(v)) && call_ensures(f, (v,), u),
            },
            None => false,
        }
    }

    open spec fn must_complete(&self) -> bool {
        self.f is Some && self.future.must_complete()
    }

    fn poll(&mut self, task: &mut Task) -> (r: Poll<U, E>) {
        match self.future.poll(task) {
            Poll::NotReady => Poll::NotReady,
            Poll::Failed(e) => {
                self.f = None;
                Poll::Failed(e)
            },
            Poll::Ready(v) => {
                let f = self.f.take().unwrap();
                let ghost witness = v;
                let u = f(v);
                proof {
                    assert(old(self).may_produce(Ok(u))) by {
                        assert(old(self).future.may_produce(Ok(witness)));
                    }
                }
                Poll::Ready(u)
            },
        }
    }

    fn schedule(&mut self, task: &mut Task) {
        self.future.schedule(task)
    }
}

/// Map the successful result of `future` through `f`, leaving errors as
/// they are. The function must accept every value the future can produce.
pub fn map<T: 'static, E: 'static, U: 'static, A, F>(future: A, f: F) -> (r: Mapped<T, A, F>)
    where A: Future<T, E>, F: FnOnce(T) -> U + 'static,
    requires
        future.wf(),
        !future.done(),
        forall|v: T| future.may_produce(Ok(v)) ==> call_requires(f, (v,)),
    ensures
        r == (Mapped { future, f: Some(f), item: PhantomData::<T> }),
        r.wf(),
        !r.done(),
{
    Mapped { future, f: Some(f), item: PhantomData }
}

} // verus!
