//! Defer constructing a future until it is first polled.

use core::marker::PhantomData;
use vstd::prelude::*;
use crate::Future;
use crate::IntoFuture;
use crate::Task;
use crate::poll::Poll;

verus! {

/// A future that runs a function on its first poll and then behaves as the
/// future that function returned.
#[verifier::reject_recursive_types(R)]
pub enum Lazy<T, E, R, F> where
    T: 'static, E: 'static,
    R: IntoFuture<T, E>, F: FnOnce() -> R + 'static,
{
    /// Not polled yet; holds the deferred construction.
    First(F, PhantomData<(T, E)>),
    /// The construction ran; waiting on the future it returned.
    Second(R::Future),
    /// Completed.
    Finished,
}

impl<T: 'static, E: 'static, R, F> Future<T, E> for Lazy<T, E, R, F>
    where R: IntoFuture<T, E>, F: FnOnce() -> R + 'static,
{
    open spec fn wf(&self) -> bool {
        match self {
            Lazy::First(f, _) => {
                &&& call_requires(*f, ())
                &&& forall|b: R| call_ensures(*f, (), b) ==> b.fut_wf()
            },
            Lazy::Second(bf) => bf.wf() && !bf.done(),
            Lazy::Finished => true,
        }
    }

    open spec fn done(&self) -> bool {
        self is Finished
    }

    open spec fn may_produce(&self, r: Result<T, E>) -> bool {
        match self {
            Lazy::First(f, _) => exists|b: R| call_ensures(*f, (), b) && b.fut_may_produce(r),
            Lazy::Second(bf) => bf.may_produce(r),
            Lazy::Finished => false,
        }
    }

    open spec fn must_complete(&self) -> bool {
        match self {
            Lazy::First(f, _) => forall|b: R| call_ensures(*f, (), b) ==> b.fut_must_complete(),
            Lazy::Second(bf) => bf.must_complete(),
            Lazy::Finished => false,
        }
    }

    fn poll(&mut self, task: &mut Task) -> (r: Poll<T, E>) {
        let mut st = Lazy::Finished;
        core::mem::swap(&mut st, self);
        match st {
            Lazy::First(f, _) => {
                let b = f();
                let ghost wb = b;
                let mut bf = b.into_future();
                match bf.poll(task) {
                    Poll::NotReady => {
                        *self = Lazy::Second(bf);
                        proof {
                            assert forall|x: Result<T, E>| self.may_produce(x)
                                implies old(self).may_produce(x) by {
                                assert(wb.fut_may_produce(x));
                            };
                        }
                        Poll::NotReady
                    },
                    Poll::Ready(u) => {
                        proof {
                            assert(wb.fut_may_produce(Ok(u)));
                        }
                        Poll::Ready(u)
                    },
                    Poll::Failed(e) => {
                        proof {
                            assert(wb.fut_may_produce(Err(e)));
                        }
                        Poll::Failed(e)
                    },
                }
            },
            Lazy::Second(mut bf) => {
                match bf.poll(task) {
                    Poll::NotReady => {
                        *self = Lazy::Second(bf);
                        Poll::NotReady
                    },
                    Poll::Ready(u) => Poll::Ready(u),
                    Poll::Failed(e) => Poll::Failed(e),
                }
            },
            Lazy::Finished => {
                proof {
                    assert(false);
                }
                Poll::NotReady
            },
        }
    }

    fn schedule(&mut self, task: &mut Task) {
        match self {
            Lazy::First(_, _) => (),
            Lazy::Second(bf) => bf.schedule(task),
            Lazy::Finished => proof {
                assert(false);
            },
        }
    }
}

/// Defer `f` until the returned future is first polled; from then on behave
/// as the future `f` returned. The function must return a value that
/// converts into a well-formed pending future.
pub fn lazy<T: 'static, E: 'static, R, F>(f: F) -> (r: Lazy<T, E, R, F>)
    where R: IntoFuture<T, E>, F: FnOnce() -> R + 'static,
    requires
        call_requires(f, ()),
        forall|b: R| call_ensures(f, (), b) ==> b.fut_wf(),
    ensures
        r == (Lazy::<T, E, R, F>::First(f, PhantomData::<(T, E)>)),
        r.wf(),
        !r.done(),
{
    Lazy::First(f, PhantomData)
}

} // verus!
