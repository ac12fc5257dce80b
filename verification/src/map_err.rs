//! Transform the error of a future.

use core::marker::PhantomData;
use vstd::prelude::*;
use crate::Future;
use crate::Task;
use crate::poll::Poll;

verus! {

/// A future that applies a function to the error of another future.
/// Successes and pending polls are forwarded unchanged; the function is
/// consumed when the inner future fails.
pub struct MapErr<E, A, F> {
    /// The future being transformed.
    pub future: A,
    /// The transformation, present until this future completes.
    pub f: Option<F>,
    /// Marker tying the inner future's error type to this node.
    pub error: PhantomData<E>,
}

impl<T: 'static, E: 'static, U: 'static, A, F> Future<T, U> for MapErr<E, A, F>
    where A: Future<T, E>, F: FnOnce(E) -> U + 'static,
{
    open spec fn wf(&self) -> bool {
        match self.f {
            Some(f) => {
                &&& self.future.wf()
                &&& !self.future.done()
                &&& forall|e: E| self.future.may_produce(Err(e)) ==> call_requires(f, (e,))
            },
            None => true,
        }
    }

    open spec fn done(&self) -> bool {
        self.f is None
    }

    open spec fn may_produce(&self, r: Result<T, U>) -> bool {
        match self.f {
            Some(f) => match r {
                Result::Ok(v) => self.future.may_produce(Ok(v)),
                Result::Err(u) => exists|e: E|
                    self.future.may_produce(Err(e)) && call_ensures(f, (e,), u),
            },
            None => false,
        }
    }

    open spec fn must_complete(&self) -> bool {
        self.f is Some && self.future.must_complete()
    }

    fn poll(&mut self, task: &mut Task) -> (r: Poll<T, U>) {
        match self.future.poll(task) {
            Poll::NotReady => Poll::NotReady,
            Poll::Ready(v) => {
                self.f = None;
                Poll::Ready(v)
            },
            Poll::Failed(e) => {
                let f = self.f.take().unwrap();
                let ghost witness = e;
                let u = f(e);
                proof {
                    assert(old(self).may_produce(Err(u))) by {
                        assert(old(self).future.may_produce(Err(witness)));
                    }
                }
                Poll::Failed(u)
            },
        }
    }

    fn schedule(&mut self, task: &mut Task) {
        self.future.schedule(task)
    }
}

/// Map the error of `future` through `f`, leaving successes as they are.
/// The function must accept every error the future can produce.
pub fn map_err<T: 'static, E: 'static, U: 'static, A, F>(future: A, f: F) -> (r: MapErr<E, A, F>)
    where A: Future<T, E>, F: FnOnce(E) -> U + 'static,
    requires
        future.wf(),
        !future.done(),
        forall|e: E| future.may_produce(Err(e)) ==> call_requires(f, (e,)),
    ensures
        r == (MapErr { future, f: Some(f), error: PhantomData::<E> }),
        r.wf(),
        !r.done(),
{
    MapErr { future, f: Some(f), error: PhantomData }
}

} // verus!
