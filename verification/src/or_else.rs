//! Chain a computation onto the error of a future.

use core::marker::PhantomData;
use vstd::prelude::*;
use crate::Future;
use crate::IntoFuture;
use crate::Task;
use crate::poll::Poll;

verus! {

/// A future that runs another computation after the first future fails.
/// The continuation receives the error and returns anything that converts
/// into a future; a success of the first future completes this future
/// immediately with that value.
#[verifier::reject_recursive_types(B)]
pub enum OrElse<T, E, D, A, B, F> where
    T: 'static, E: 'static, D: 'static,
    A: Future<T, E>, B: IntoFuture<T, D>, F: FnOnce(E) -> B + 'static,
{
    /// Waiting on the first future; holds it and the continuation.
    First(A, F, PhantomData<(E, D)>),
    /// The continuation ran; waiting on the future it returned.
    Second(B::Future),
    /// Completed.
    Finished,
}

impl<T: 'static, E: 'static, D: 'static, A, B, F> Future<T, D> for OrElse<T, E, D, A, B, F>
    where A: Future<T, E>, B: IntoFuture<T, D>, F: FnOnce(E) -> B + 'static,
{
    open spec fn wf(&self) -> bool {
        match self {
            OrElse::First(a, f, _) => {
                &&& a.wf()
                &&& !a.done()
                &&& forall|e: E| a.may_produce(Err(e)) ==> call_requires(*f, (e,))
                &&& forall|e: E, b: B| a.may_produce(Err(e)) && call_ensures(*f, (e,), b)
                    ==> b.fut_wf()
            },
            OrElse::Second(bf) => bf.wf() && !bf.done(),
            OrElse::Finished => true,
        }
    }

    open spec fn done(&self) -> bool {
        self is Finished
    }

    open spec fn may_produce(&self, r: Result<T, D>) -> bool {
        match self {
            OrElse::First(a, f, _) => {
                ||| (r matches Ok(v) && a.may_produce(Ok(v)))
                ||| (exists|e: E, b: B| a.may_produce(Err(e)) && call_ensures(*f, (e,), b)
                    && b.fut_may_produce(r))
            },
            OrElse::Second(bf) => bf.may_produce(r),
            OrElse::Finished => false,
        }
    }

    open spec fn must_complete(&self) -> bool {
        match self {
            OrElse::First(a, f, _) => a.must_complete()
                && forall|e: E, b: B| a.may_produce(Err(e))
                    && #[trigger] call_ensures(*f, (e,), b) ==> b.fut_must_complete(),
            OrElse::Second(bf) => bf.must_complete(),
            OrElse::Finished => false,
        }
    }

    fn poll(&mut self, task: &mut Task) -> (r: Poll<T, D>) {
        let mut st = OrElse::Finished;
        core::mem::swap(&mut st, self);
        match st {
            OrElse::First(mut a, f, marker) => {
                match a.poll(task) {
                    Poll::NotReady => {
                        *self = OrElse::First(a, f, marker);
                        Poll::NotReady
                    },
                    Poll::Ready(v) => Poll::Ready(v),
                    Poll::Failed(e) => {
                        let ghost we = e;
                        let b = f(e);
                        let ghost wb = b;
                        let mut bf = b.into_future();
                        match bf.poll(task) {
                            Poll::NotReady => {
                                *self = OrElse::Second(bf);
                                proof {
                                    assert forall|x: Result<T, D>| self.may_produce(x)
                                        implies old(self).may_produce(x) by {
                                        assert(old(self).future_first().may_produce(Err(we)));
                                        assert(wb.fut_may_produce(x));
                                    };
                                }
                                Poll::NotReady
                            },
                            Poll::Ready(u) => {
                                proof {
                                    assert(old(self).future_first().may_produce(Err(we)));
                                    assert(wb.fut_may_produce(Ok(u)));
                                }
                                Poll::Ready(u)
                            },
                            Poll::Failed(d) => {
                                proof {
                                    assert(old(self).future_first().may_produce(Err(we)));
                                    assert(wb.fut_may_produce(Err(d)));
                                }
                                Poll::Failed(d)
                            },
                        }
                    },
                }
            },
            OrElse::Second(mut bf) => {
                match bf.poll(task) {
                    Poll::NotReady => {
                        *self = OrElse::Second(bf);
                        Poll::NotReady
                    },
                    Poll::Ready(u) => Poll::Ready(u),
                    Poll::Failed(d) => Poll::Failed(d),
                }
            },
            OrElse::Finished => {
                proof {
                    assert(false);
                }
                Poll::NotReady
            },
        }
    }

    fn schedule(&mut self, task: &mut Task) {
        match self {
            OrElse::First(a, _, _) => a.schedule(task),
            OrElse::Second(bf) => bf.schedule(task),
            OrElse::Finished => proof {
                assert(false);
            },
        }
    }
}

impl<T: 'static, E: 'static, D: 'static, A, B, F> OrElse<T, E, D, A, B, F>
    where A: Future<T, E>, B: IntoFuture<T, D>, F: FnOnce(E) -> B + 'static,
{
    /// The first future, while this node is still waiting on it.
    pub open spec fn future_first(&self) -> A
        recommends
            self is First,
    {
        self->First_0
    }
}

impl<T: 'static, E: 'static, D: 'static, A, B, F> OrElse<T, E, D, A, B, F>
    where A: Future<T, E>, B: IntoFuture<T, D>, F: FnOnce(E) -> B + 'static,
        B::Future: 'static,
{
    /// Tree-compaction hook: once this node waits only on its successor
    /// future, hand that successor out; the caller then drops this node and
    /// drives the returned future, which is still pending and produces only
    /// what this node could have produced. Otherwise the structure is kept
    /// and nothing is returned.
    pub fn tailcall(&mut self) -> (r: Option<B::Future>)
        requires
            old(self).wf(),
        ensures
            r is Some <==> *old(self) is Second,
            r is None ==> *final(self) == *old(self),
            match r {
                Option::None => true,
                Option::Some(bf) => final(self).done() && bf.wf() && !bf.done()
                    && forall|x: Result<T, D>| bf.may_produce(x)
                        ==> old(self).may_produce(x),
            },
    {
        let mut st = OrElse::Finished;
        core::mem::swap(&mut st, self);
        match st {
            OrElse::Second(bf) => Some(bf),
            other => {
                *self = other;
                None
            },
        }
    }
}

/// Run `f` on the error of `future` and continue with the future `f`
/// returns; complete immediately with the value otherwise. The continuation
/// must accept every error the future can produce, and must return values
/// that convert into well-formed pending futures.
pub fn or_else<T: 'static, E: 'static, D: 'static, A, B, F>(future: A, f: F)
    -> (r: OrElse<T, E, D, A, B, F>)
    where A: Future<T, E>, B: IntoFuture<T, D>, F: FnOnce(E) -> B + 'static,
    requires
        future.wf(),
        !future.done(),
        forall|e: E| future.may_produce(Err(e)) ==> call_requires(f, (e,)),
        forall|e: E, b: B| future.may_produce(Err(e)) && call_ensures(f, (e,), b) ==> b.fut_wf(),
    ensures
        r == (OrElse::<T, E, D, A, B, F>::First(future, f, PhantomData::<(E, D)>)),
        r.wf(),
        !r.done(),
{
    OrElse::First(future, f, PhantomData)
}

} // verus!
