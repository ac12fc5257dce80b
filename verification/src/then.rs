//! Chain a computation onto the completion of a future, success or failure.

use core::marker::PhantomData;
use vstd::prelude::*;
use crate::Future;
use crate::IntoFuture;
use crate::Task;
use crate::poll::Poll;

verus! {

/// A future that runs another computation once the first future completes,
/// whether it succeeded or failed. The continuation receives the completed
/// result and returns anything that converts into a future.
#[verifier::reject_recursive_types(B)]
pub enum Then<T, E, U, D, A, B, F> where
    T: 'static, E: 'static, U: 'static, D: 'static,
    A: Future<T, E>, B: IntoFuture<U, D>, F: FnOnce(Result<T, E>) -> B + 'static,
{
    /// Waiting on the first future; holds it and the continuation.
    First(A, F, PhantomData<(T, E, U, D)>),
    /// The continuation ran; waiting on the future it returned.
    Second(B::Future),
    /// Completed.
    Finished,
}

impl<T: 'static, E: 'static, U: 'static, D: 'static, A, B, F> Future<U, D>
    for Then<T, E, U, D, A, B, F>
    where A: Future<T, E>, B: IntoFuture<U, D>, F: FnOnce(Result<T, E>) -> B + 'static,
{
    open spec fn wf(&self) -> bool {
        match self {
            Then::First(a, f, _) => {
                &&& a.wf()
                &&& !a.done()
                &&& forall|res: Result<T, E>| a.may_produce(res) ==> call_requires(*f, (res,))
                &&& forall|res: Result<T, E>, b: B| a.may_produce(res)
                    && call_ensures(*f, (res,), b) ==> b.fut_wf()
            },
            Then::Second(bf) => bf.wf() && !bf.done(),
            Then::Finished => true,
        }
    }

    open spec fn done(&self) -> bool {
        self is Finished
    }

    open spec fn may_produce(&self, r: Result<U, D>) -> bool {
        match self {
            Then::First(a, f, _) => exists|res: Result<T, E>, b: B|
                a.may_produce(res) && call_ensures(*f, (res,), b) && b.fut_may_produce(r),
            Then::Second(bf) => bf.may_produce(r),
            Then::Finished => false,
        }
    }

    open spec fn must_complete(&self) -> bool {
        match self {
            Then::First(a, f, _) => a.must_complete()
                && forall|res: Result<T, E>, b: B| a.may_produce(res)
                    && #[trigger] call_ensures(*f, (res,), b) ==> b.fut_must_complete(),
            Then::Second(bf) => bf.must_complete(),
            Then::Finished => false,
        }
    }

    fn poll(&mut self, task: &mut Task) -> (r: Poll<U, D>) {
        let mut st = Then::Finished;
        core::mem::swap(&mut st, self);
        match st {
            Then::First(mut a, f, marker) => {
                let res = match a.poll(task) {
                    Poll::NotReady => {
                        *self = Then::First(a, f, marker);
                        return Poll::NotReady;
                    },
                    Poll::Ready(v) => Ok(v),
                    Poll::Failed(e) => Err(e),
                };
                let ghost wres = res;
                let b = f(res);
                let ghost wb = b;
                let mut bf = b.into_future();
                match bf.poll(task) {
                    Poll::NotReady => {
                        *self = Then::Second(bf);
                        proof {
                            assert forall|x: Result<U, D>| self.may_produce(x)
                                implies old(self).may_produce(x) by {
                                assert(old(self).future_first().may_produce(wres));
                                assert(wb.fut_may_produce(x));
                            };
                        }
                        Poll::NotReady
                    },
                    Poll::Ready(u) => {
                        proof {
                            assert(old(self).future_first().may_produce(wres));
                            assert(wb.fut_may_produce(Ok(u)));
                        }
                        Poll::Ready(u)
                    },
                    Poll::Failed(d) => {
                        proof {
                            assert(old(self).future_first().may_produce(wres));
                            assert(wb.fut_may_produce(Err(d)));
                        }
                        Poll::Failed(d)
                    },
                }
            },
            Then::Second(mut bf) => {
                match bf.poll(task) {
                    Poll::NotReady => {
                        *self = Then::Second(bf);
                        Poll::NotReady
                    },
                    Poll::Ready(u) => Poll::Ready(u),
                    Poll::Failed(d) => Poll::Failed(d),
                }
            },
            Then::Finished => {
                proof {
                    assert(false);
                }
                Poll::NotReady
            },
        }
    }

    fn schedule(&mut self, task: &mut Task) {
        match self {
            Then::First(a, _, _) => a.schedule(task),
            Then::Second(bf) => bf.schedule(task),
            Then::Finished => proof {
                assert(false);
            },
        }
    }
}

impl<T: 'static, E: 'static, U: 'static, D: 'static, A, B, F> Then<T, E, U, D, A, B, F>
    where A: Future<T, E>, B: IntoFuture<U, D>, F: FnOnce(Result<T, E>) -> B + 'static,
{
    /// The first future, while this node is still waiting on it.
    pub open spec fn future_first(&self) -> A
        recommends
            self is First,
    {
        self->First_0
    }
}

impl<T: 'static, E: 'static, U: 'static, D: 'static, A, B, F> Then<T, E, U, D, A, B, F>
    where A: Future<T, E>, B: IntoFuture<U, D>, F: FnOnce(Result<T, E>) -> B + 'static,
        B::Future: 'static,
{
    /// Tree-compaction hook: once this node waits only on its successor
    /// future, hand that successor out; the caller then drops this node and
    /// drives the returned future, which is still pending and produces only
    /// what this node could have produced. Otherwise the structure is kept
    /// and nothing is returned.
    pub fn tailcall(&mut self) -> (r: Option<B::Future>)
        requires
            old(self).wf(),
        ensures
            r is Some <==> *old(self) is Second,
            r is None ==> *final(self) == *old(self),
            match r {
                Option::None => true,
                Option::Some(bf) => final(self).done() && bf.wf() && !bf.done()
                    && forall|x: Result<U, D>| bf.may_produce(x)
                        ==> old(self).may_produce(x),
            },
    {
        let mut st = Then::Finished;
        core::mem::swap(&mut st, self);
        match st {
            Then::Second(bf) => Some(bf),
            other => {
                *self = other;
                None
            },
        }
    }
}

/// Run `f` on the completed result of `future`, success or failure, and
/// continue with the future `f` returns. The continuation must accept every
/// result the future can produce, and must return values that convert into
/// well-formed pending futures.
pub fn then<T: 'static, E: 'static, U: 'static, D: 'static, A, B, F>(future: A, f: F)
    -> (r: Then<T, E, U, D, A, B, F>)
    where A: Future<T, E>, B: IntoFuture<U, D>, F: FnOnce(Result<T, E>) -> B + 'static,
    requires
        future.wf(),
        !future.done(),
        forall|res: Result<T, E>| future.may_produce(res) ==> call_requires(f, (res,)),
        forall|res: Result<T, E>, b: B| future.may_produce(res) && call_ensures(f, (res,), b)
            ==> b.fut_wf(),
    ensures
        r == (Then::<T, E, U, D, A, B, F>::First(future, f, PhantomData::<(T, E, U, D)>)),
        r.wf(),
        !r.done(),
{
    Then::First(future, f, PhantomData)
}

} // verus!
