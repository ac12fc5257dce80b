//! Chain a computation onto the successful result of a future.

use core::marker::PhantomData;
use vstd::prelude::*;
use crate::Future;
use crate::IntoFuture;
use crate::Task;
use crate::poll::Poll;

verus! {

/// A future that runs another computation after the first future succeeds.
/// The continuation receives the successful value and returns anything that
/// converts into a future; an error of the first future completes this
/// future immediately with that error.
#[verifier::reject_recursive_types(B)]
pub enum AndThen<T, U, E, A, B, F> where
    T: 'static, U: 'static, E: 'static,
    A: Future<T, E>, B: IntoFuture<U, E>, F: FnOnce(T) -> B + 'static,
{
    /// Waiting on the first future; holds it and the continuation.
    First(A, F, PhantomData<(T, U)>),
    /// The continuation ran; waiting on the future it returned.
    Second(B::Future),
    /// Completed.
    Finished,
}

impl<T: 'static, U: 'static, E: 'static, A, B, F> Future<U, E> for AndThen<T, U, E, A, B, F>
    where A: Future<T, E>, B: IntoFuture<U, E>, F: FnOnce(T) -> B + 'static,
{
    open spec fn wf(&self) -> bool {
        match self {
            AndThen::First(a, f, _) => {
                &&& a.wf()
                &&& !a.done()
                &&& forall|v: T| a.may_produce(Ok(v)) ==> call_requires(*f, (v,))
                &&& forall|v: T, b: B| a.may_produce(Ok(v)) && call_ensures(*f, (v,), b)
                    ==> b.fut_wf()
            },
            AndThen::Second(bf) => bf.wf() && !bf.done(),
            AndThen::Finished => true,
        }
    }

    open spec fn done(&self) -> bool {
        self is Finished
    }

    open spec fn may_produce(&self, r: Result<U, E>) -> bool {
        match self {
            AndThen::First(a, f, _) => {
                ||| (r matches Err(e) && a.may_produce(Err(e)))
                ||| (exists|v: T, b: B| a.may_produce(Ok(v)) && call_ensures(*f, (v,), b)
                    && b.fut_may_produce(r))
            },
            AndThen::Second(bf) => bf.may_produce(r),
            AndThen::Finished => false,
        }
    }

    open spec fn must_complete(&self) -> bool {
        match self {
            AndThen::First(a, f, _) => a.must_complete()
                && forall|v: T, b: B| a.may_produce(Ok(v))
                    && #[trigger] call_ensures(*f, (v,), b) ==> b.fut_must_complete(),
            AndThen::Second(bf) => bf.must_complete(),
            AndThen::Finished => false,
        }
    }

    fn poll(&mut self, task: &mut Task) -> (r: Poll<U, E>) {
        let mut st = AndThen::Finished;
        core::mem::swap(&mut st, self);
        match st {
            AndThen::First(mut a, f, marker) => {
                match a.poll(task) {
                    Poll::NotReady => {
                        *self = AndThen::First(a, f, marker);
                        Poll::NotReady
                    },
                    Poll::Failed(e) => Poll::Failed(e),
                    Poll::Ready(v) => {
                        let ghost wv = v;
                        let b = f(v);
                        let ghost wb = b;
                        let mut bf = b.into_future();
                        match bf.poll(task) {
                            Poll::NotReady => {
                                *self = AndThen::Second(bf);
                                proof {
                                    assert forall|x: Result<U, E>| self.may_produce(x)
                                        implies old(self).may_produce(x) by {
                                        assert(old(self).future_first().may_produce(Ok(wv)));
                                        assert(wb.fut_may_produce(x));
                                    };
                                }
                                Poll::NotReady
                            },
                            Poll::Ready(u) => {
                                proof {
                                    assert(old(self).future_first().may_produce(Ok(wv)));
                                    assert(wb.fut_may_produce(Ok(u)));
                                }
                                Poll::Ready(u)
                            },
                            Poll::Failed(e) => {
                                proof {
                                    assert(old(self).future_first().may_produce(Ok(wv)));
                                    assert(wb.fut_may_produce(Err(e)));
                                }
                                Poll::Failed(e)
                            },
                        }
                    },
                }
            },
            AndThen::Second(mut bf) => {
                match bf.poll(task) {
                    Poll::NotReady => {
                        *self = AndThen::Second(bf);
                        Poll::NotReady
                    },
                    Poll::Ready(u) => Poll::Ready(u),
                    Poll::Failed(e) => Poll::Failed(e),
                }
            },
            AndThen::Finished => {
                proof {
                    assert(false);
                }
                Poll::NotReady
            },
        }
    }

    fn schedule(&mut self, task: &mut Task) {
        match self {
            AndThen::First(a, _, _) => a.schedule(task),
            AndThen::Second(bf) => bf.schedule(task),
            AndThen::Finished => proof {
                assert(false);
            },
        }
    }
}

impl<T: 'static, U: 'static, E: 'static, A, B, F> AndThen<T, U, E, A, B, F>
    where A: Future<T, E>, B: IntoFuture<U, E>, F: FnOnce(T) -> B + 'static,
{
    /// The first future, while this node is still waiting on it.
    pub open spec fn future_first(&self) -> A
        recommends
            self is First,
    {
        self->First_0
    }
}

impl<T: 'static, U: 'static, E: 'static, A, B, F> AndThen<T, U, E, A, B, F>
    where A: Future<T, E>, B: IntoFuture<U, E>, F: FnOnce(T) -> B + 'static,
        B::Future: 'static,
{
    /// Tree-compaction hook: once this node waits only on its successor
    /// future, hand that successor out; the caller then drops this node and
    /// drives the returned future, which is still pending and produces only
    /// what this node could have produced. Otherwise the structure is kept
    /// and nothing is returned.
    pub fn tailcall(&mut self) -> (r: Option<B::Future>)
        requires
            old(self).wf(),
        ensures
            r is Some <==> *old(self) is Second,
            r is None ==> *final(self) == *old(self),
            match r {
                Option::None => true,
                Option::Some(bf) => final(self).done() && bf.wf() && !bf.done()
                    && forall|x: Result<U, E>| bf.may_produce(x)
                        ==> old(self).may_produce(x),
            },
    {
        let mut st = AndThen::Finished;
        core::mem::swap(&mut st, self);
        match st {
            AndThen::Second(bf) => Some(bf),
            other => {
                *self = other;
                None
            },
        }
    }
}

/// Run `f` on the successful result of `future` and continue with the
/// future `f` returns; complete immediately with the error otherwise. The
/// continuation must accept every value the future can produce, and must
/// return values that convert into well-formed pending futures.
pub fn and_then<T: 'static, U: 'static, E: 'static, A, B, F>(future: A, f: F)
    -> (r: AndThen<T, U, E, A, B, F>)
    where A: Future<T, E>, B: IntoFuture<U, E>, F: FnOnce(T) -> B + 'static,
    requires
        future.wf(),
        !future.done(),
        forall|v: T| future.may_produce(Ok(v)) ==> call_requires(f, (v,)),
        forall|v: T, b: B| future.may_produce(Ok(v)) && call_ensures(f, (v,), b) ==> b.fut_wf(),
    ensures
        r == (AndThen::<T, U, E, A, B, F>::First(future, f, PhantomData::<(T, U)>)),
        r.wf(),
        !r.done(),
{
    AndThen::First(future, f, PhantomData)
}

} // verus!
