//! Flatten a future whose successful result is itself another future.

use core::marker::PhantomData;
use vstd::prelude::*;
use crate::Future;
use crate::IntoFuture;
use crate::Task;
use crate::poll::Poll;

verus! {

/// A future that first waits on an outer future and then on the future its
/// successful result converts into. An error of the outer future completes
/// this future immediately, converted into the inner error type.
#[verifier::reject_recursive_types(B)]
pub enum Flatten<U, E, D, A, B> where
    U: 'static, E: 'static, D: 'static + From<E>,
    A: Future<B, E>, B: IntoFuture<U, D> + 'static,
{
    /// Waiting on the outer future.
    First(A, PhantomData<(U, E)>),
    /// The outer future yielded an inner one; waiting on it.
    Second(B::Future),
    /// Completed.
    Finished,
}

impl<U: 'static, E: 'static, D: 'static, A, B> Future<U, D> for Flatten<U, E, D, A, B>
    where A: Future<B, E>, B: IntoFuture<U, D>, B: 'static, D: From<E>,
{
    open spec fn wf(&self) -> bool {
        match self {
            Flatten::First(a, _) => {
                &&& a.wf()
                &&& !a.done()
                &&& forall|b: B| a.may_produce(Ok(b)) ==> b.fut_wf()
            },
            Flatten::Second(bf) => bf.wf() && !bf.done(),
            Flatten::Finished => true,
        }
    }

    open spec fn done(&self) -> bool {
        self is Finished
    }

    open spec fn may_produce(&self, r: Result<U, D>) -> bool {
        match self {
            Flatten::First(a, _) => {
                ||| (r is Err && exists|e: E| a.may_produce(Err(e)))
                ||| (exists|b: B| a.may_produce(Ok(b)) && b.fut_may_produce(r))
            },
            Flatten::Second(bf) => bf.may_produce(r),
            Flatten::Finished => false,
        }
    }

    open spec fn must_complete(&self) -> bool {
        match self {
            Flatten::First(a, _) => a.must_complete()
                && forall|b: B| a.may_produce(Ok(b)) ==> b.fut_must_complete(),
            Flatten::Second(bf) => bf.must_complete(),
            Flatten::Finished => false,
        }
    }

    fn poll(&mut self, task: &mut Task) -> (r: Poll<U, D>) {
        let mut st = Flatten::Finished;
        core::mem::swap(&mut st, self);
        match st {
            Flatten::First(mut a, marker) => {
                match a.poll(task) {
                    Poll::NotReady => {
                        *self = Flatten::First(a, marker);
                        Poll::NotReady
                    },
                    Poll::Failed(e) => {
                        let ghost we = e;
                        let d = D::from(e);
                        proof {
                            assert(old(self).future_first().may_produce(Err(we)));
                        }
                        Poll::Failed(d)
                    },
                    Poll::Ready(b) => {
                        let ghost wb = b;
                        let mut bf = b.into_future();
                        match bf.poll(task) {
                            Poll::NotReady => {
                                *self = Flatten::Second(bf);
                                proof {
                                    assert forall|x: Result<U, D>| self.may_produce(x)
                                        implies old(self).may_produce(x) by {
                                        assert(old(self).future_first().may_produce(Ok(wb)));
                                        assert(wb.fut_may_produce(x));
                                    };
                                }
                                Poll::NotReady
                            },
                            Poll::Ready(u) => {
                                proof {
                                    assert(old(self).future_first().may_produce(Ok(wb)));
                                    assert(wb.fut_may_produce(Ok(u)));
                                }
                                Poll::Ready(u)
                            },
                            Poll::Failed(e) => {
                                proof {
                                    assert(old(self).future_first().may_produce(Ok(wb)));
                                    assert(wb.fut_may_produce(Err(e)));
                                }
                                Poll::Failed(e)
                            },
                        }
                    },
                }
            },
            Flatten::Second(mut bf) => {
                match bf.poll(task) {
                    Poll::NotReady => {
                        *self = Flatten::Second(bf);
                        Poll::NotReady
                    },
                    Poll::Ready(u) => Poll::Ready(u),
                    Poll::Failed(e) => Poll::Failed(e),
                }
            },
            Flatten::Finished => {
                proof {
                    assert(false);
                }
                Poll::NotReady
            },
        }
    }

    fn schedule(&mut self, task: &mut Task) {
        match self {
            Flatten::First(a, _) => a.schedule(task),
            Flatten::Second(bf) => bf.schedule(task),
            Flatten::Finished => proof {
                assert(false);
            },
        }
    }
}

impl<U: 'static, E: 'static, D: 'static, A, B> Flatten<U, E, D, A, B>
    where A: Future<B, E>, B: IntoFuture<U, D>, B: 'static, D: From<E>,
{
    /// The outer future, while this node is still waiting on it.
    pub open spec fn future_first(&self) -> A
        recommends
            self is First,
    {
        self->First_0
    }
}

impl<U: 'static, E: 'static, D: 'static, A, B> Flatten<U, E, D, A, B>
    where A: Future<B, E>, B: IntoFuture<U, D>, B: 'static, D: From<E>, B::Future: 'static,
{
    /// Tree-compaction hook: once this node waits only on its successor
    /// future, hand that successor out; the caller then drops this node and
    /// drives the returned future, which is still pending and produces only
    /// what this node could have produced. Otherwise the structure is kept
    /// and nothing is returned.
    pub fn tailcall(&mut self) -> (r: Option<B::Future>)
        requires
            old(self).wf(),
        ensures
            r is Some <==> *old(self) is Second,
            r is None ==> *final(self) == *old(self),
            match r {
                Option::None => true,
                Option::Some(bf) => final(self).done() && bf.wf() && !bf.done()
                    && forall|x: Result<U, D>| bf.may_produce(x)
                        ==> old(self).may_produce(x),
            },
    {
        let mut st = Flatten::Finished;
        core::mem::swap(&mut st, self);
        match st {
            Flatten::Second(bf) => Some(bf),
            other => {
                *self = other;
                None
            },
        }
    }
}

/// Flatten `future`, whose successful result converts into the future whose
/// result this one completes with; an outer error is embedded into the
/// inner error type through its `From` conversion. Every inner value the
/// outer future can produce must convert into a well-formed pending future.
pub fn flatten<U: 'static, E: 'static, D: 'static, A, B>(future: A)
    -> (r: Flatten<U, E, D, A, B>)
    where A: Future<B, E>, B: IntoFuture<U, D>, B: 'static, D: From<E>,
    requires
        future.wf(),
        !future.done(),
        forall|b: B| future.may_produce(Ok(b)) ==> b.fut_wf(),
    ensures
        r == (Flatten::<U, E, D, A, B>::First(future, PhantomData::<(U, E)>)),
        r.wf(),
        !r.done(),
{
    Flatten::First(future, PhantomData)
}

} // verus!
