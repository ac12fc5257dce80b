//! Wait for the first of two futures to complete.

use vstd::prelude::*;
use crate::Future;
use crate::Task;
use crate::poll::Poll;

verus! {

/// `x` can stand in for `y`: it is well-formed, still pending, and can only
/// complete with results `y` could also have completed with.
pub open spec fn refines<T: 'static, E: 'static, F: Future<T, E>>(x: F, y: F) -> bool {
    &&& x.wf()
    &&& !x.done()
    &&& forall|r: Result<T, E>| x.may_produce(r) ==> y.may_produce(r)
}

/// The future a `select` did not complete with, handed out alongside the
/// winner's result so the loser can still be driven to completion.
pub enum SelectNext<A, B> {
    /// The first future is the one still running.
    AStill(A),
    /// The second future is the one still running.
    BStill(B),
}

impl<T: 'static, E: 'static, A, B> Future<T, E> for SelectNext<A, B>
    where A: Future<T, E>, B: Future<T, E>,
{
    open spec fn wf(&self) -> bool {
        match self {
            SelectNext::AStill(a) => a.wf(),
            SelectNext::BStill(b) => b.wf(),
        }
    }

    open spec fn done(&self) -> bool {
        match self {
            SelectNext::AStill(a) => a.done(),
            SelectNext::BStill(b) => b.done(),
        }
    }

    open spec fn may_produce(&self, r: Result<T, E>) -> bool {
        match self {
            SelectNext::AStill(a) => a.may_produce(r),
            SelectNext::BStill(b) => b.may_produce(r),
        }
    }

    open spec fn must_complete(&self) -> bool {
        match self {
            SelectNext::AStill(a) => a.must_complete(),
            SelectNext::BStill(b) => b.must_complete(),
        }
    }

    fn poll(&mut self, task: &mut Task) -> (r: Poll<T, E>) {
        match self {
            SelectNext::AStill(a) => a.poll(task),
            SelectNext::BStill(b) => b.poll(task),
        }
    }

    fn schedule(&mut self, task: &mut Task) {
        match self {
            SelectNext::AStill(a) => a.schedule(task),
            SelectNext::BStill(b) => b.schedule(task),
        }
    }
}

/// A future that completes with the result of whichever of two futures
/// completes first, paired with the other future so it can still be driven.
/// On each poll the first future is polled before the second.
pub struct Select<A, B> {
    /// Both futures, until one of them completes.
    pub inner: Option<(A, B)>,
}

impl<T: 'static, E: 'static, A, B> Future<(T, SelectNext<A, B>), (E, SelectNext<A, B>)>
    for Select<A, B>
    where A: Future<T, E> + 'static, B: Future<T, E> + 'static,
{
    open spec fn wf(&self) -> bool {
        match self.inner {
            Some(pair) => pair.0.wf() && !pair.0.done() && pair.1.wf() && !pair.1.done(),
            None => true,
        }
    }

    open spec fn done(&self) -> bool {
        self.inner is None
    }

    open spec fn may_produce(&self, r: Result<(T, SelectNext<A, B>), (E, SelectNext<A, B>)>)
        -> bool
    {
        match self.inner {
            Some(pair) => match r {
                Result::Ok(win) => {
                    ||| (win.1 matches SelectNext::BStill(b1) && refines(b1, pair.1)
                        && pair.0.may_produce(Ok(win.0)))
                    ||| (win.1 matches SelectNext::AStill(a1) && refines(a1, pair.0)
                        && pair.1.may_produce(Ok(win.0)))
                },
                Result::Err(lose) => {
                    ||| (lose.1 matches SelectNext::BStill(b1) && refines(b1, pair.1)
                        && pair.0.may_produce(Err(lose.0)))
                    ||| (lose.1 matches SelectNext::AStill(a1) && refines(a1, pair.0)
                        && pair.1.may_produce(Err(lose.0)))
                },
            },
            None => false,
        }
    }

    open spec fn must_complete(&self) -> bool {
        self.inner matches Some(pair)
            && (pair.0.must_complete() || pair.1.must_complete())
    }

    fn poll(&mut self, task: &mut Task)
        -> (r: Poll<(T, SelectNext<A, B>), (E, SelectNext<A, B>)>)
    {
        let held = self.inner.take();
        match held {
            None => {
                proof {
                    assert(false);
                }
                Poll::NotReady
            },
            Some((mut a, mut b)) => {
                match a.poll(task) {
                    Poll::Ready(v) => Poll::Ready((v, SelectNext::BStill(b))),
                    Poll::Failed(e) => Poll::Failed((e, SelectNext::BStill(b))),
                    Poll::NotReady => {
                        match b.poll(task) {
                            Poll::Ready(v) => Poll::Ready((v, SelectNext::AStill(a))),
                            Poll::Failed(e) => Poll::Failed((e, SelectNext::AStill(a))),
                            Poll::NotReady => {
                                self.inner = Some((a, b));
                                Poll::NotReady
                            },
                        }
                    },
                }
            },
        }
    }

    fn schedule(&mut self, task: &mut Task) {
        match &mut self.inner {
            Some(pair) => {
                pair.0.schedule(task);
                pair.1.schedule(task);
            },
            None => (),
        }
    }
}

/// Wait for the first of `a` and `b` to complete; the result is paired with
/// the other, still pending future, re-exposed as a `SelectNext`. The two
/// futures are polled in order: `a` first, then `b`.
pub fn select<T: 'static, E: 'static, A, B>(a: A, b: B) -> (r: Select<A, B>)
    where A: Future<T, E> + 'static, B: Future<T, E> + 'static,
    requires
        a.wf(),
        !a.done(),
        b.wf(),
        !b.done(),
    ensures
        r == (Select { inner: Some((a, b)) }),
        r.wf(),
        !r.done(),
{
    Select { inner: Some((a, b)) }
}

} // verus!
