//! Wait for the first of a whole collection of futures to complete.

use vstd::prelude::*;
use crate::Future;
use crate::Task;
use crate::poll::Poll;
use crate::select::refines;

verus! {

/// The position a leftover future of a `select_all` had relative to the
/// winner: index `k` of the leftovers corresponds to index `k` of the
/// original collection before the winner, and `k + 1` after it.
pub open spec fn beside(k: int, winner: int) -> int {
    if k < winner {
        k
    } else {
        k + 1
    }
}

/// A future that completes with the result of whichever future in a
/// collection completes first, together with that future's index and the
/// vector of the still pending others, in their original order. On each
/// poll the futures are polled front to back.
pub struct SelectAll<A> {
    /// The futures racing, until one of them completes.
    pub inner: Vec<A>,
    /// Whether this future has already yielded a completed result.
    pub spent: bool,
}

impl<T: 'static, E: 'static, A> Future<(T, usize, Vec<A>), (E, usize, Vec<A>)> for SelectAll<A>
    where A: Future<T, E> + 'static,
{
    open spec fn wf(&self) -> bool {
        !self.spent ==> {
            &&& self.inner@.len() > 0
            &&& forall|k: int| 0 <= k < self.inner@.len()
                ==> (#[trigger] self.inner@[k]).wf() && !self.inner@[k].done()
        }
    }

    open spec fn done(&self) -> bool {
        self.spent
    }

    open spec fn may_produce(&self, r: Result<(T, usize, Vec<A>), (E, usize, Vec<A>)>) -> bool {
        if self.spent {
            false
        } else {
            match r {
                Result::Ok(win) => {
                    &&& 0 <= win.1 < self.inner@.len()
                    &&& self.inner@[win.1 as int].may_produce(Ok(win.0))
                    &&& win.2@.len() == self.inner@.len() - 1
                    &&& forall|k: int| 0 <= k < win.2@.len()
                        ==> refines(#[trigger] win.2@[k], self.inner@[beside(k, win.1 as int)])
                },
                Result::Err(lose) => {
                    &&& 0 <= lose.1 < self.inner@.len()
                    &&& self.inner@[lose.1 as int].may_produce(Err(lose.0))
                    &&& lose.2@.len() == self.inner@.len() - 1
                    &&& forall|k: int| 0 <= k < lose.2@.len()
                        ==> refines(#[trigger] lose.2@[k], self.inner@[beside(k, lose.1 as int)])
                },
            }
        }
    }

    open spec fn must_complete(&self) -> bool {
        !self.spent && exists|k: int| 0 <= k < self.inner@.len()
            && (#[trigger] self.inner@[k]).must_complete()
    }

    fn poll(&mut self, task: &mut Task) -> (r: Poll<(T, usize, Vec<A>), (E, usize, Vec<A>)>) {
        let ghost orig = *self;
        let mut j: usize = 0;
        while j < self.inner.len()
            invariant
                orig == *old(self),
                !self.spent,
                !orig.spent,
                j <= self.inner@.len(),
                self.inner@.len() == orig.inner@.len(),
                orig.inner@.len() > 0,
                forall|k: int| 0 <= k < self.inner@.len()
                    ==> (#[trigger] self.inner@[k]).wf() && !self.inner@[k].done(),
                forall|k: int, x: Result<T, E>| 0 <= k < self.inner@.len()
                    && #[trigger] self.inner@[k].may_produce(x)
                    ==> orig.inner@[k].may_produce(x),
                forall|k: int| j <= k < self.inner@.len()
                    ==> #[trigger] self.inner@[k] == orig.inner@[k],
                forall|k: int| 0 <= k < j
                    ==> !(#[trigger] orig.inner@[k]).must_complete(),
            decreases self.inner@.len() - j,
        {
            let ghost snap = *self;
            let mut head = self.inner.remove(j);
            let ghost fresh_head = head;
            let outcome = head.poll(task);
            match outcome {
                Poll::NotReady => {
                    self.inner.insert(j, head);
                    proof {
                        assert(fresh_head == snap.inner@[j as int]);
                        assert(!orig.inner@[j as int].must_complete());
                        assert forall|k: int, x: Result<T, E>| 0 <= k < self.inner@.len()
                            && #[trigger] self.inner@[k].may_produce(x)
                            implies orig.inner@[k].may_produce(x) by {
                            if k != j {
                                assert(self.inner@[k] == snap.inner@[k]);
                            } else {
                                assert(snap.inner@[j as int].may_produce(x));
                            }
                        };
                        assert forall|k: int| j + 1 <= k < self.inner@.len()
                            implies #[trigger] self.inner@[k] == orig.inner@[k] by {
                            assert(self.inner@[k] == snap.inner@[k]);
                        };
                    }
                    j = j + 1;
                },
                Poll::Ready(v) => {
                    self.spent = true;
                    let mut rest: Vec<A> = Vec::new();
                    core::mem::swap(&mut rest, &mut self.inner);
                    proof {
                        assert(snap.inner@[j as int].may_produce(Ok(v)));
                        assert(orig.inner@[j as int].may_produce(Ok(v)));
                        assert forall|k: int| 0 <= k < rest@.len()
                            implies refines(#[trigger] rest@[k],
                                orig.inner@[beside(k, j as int)]) by {
                            assert(rest@[k] == snap.inner@[beside(k, j as int)]);
                        };
                    }
                    return Poll::Ready((v, j, rest));
                },
                Poll::Failed(e) => {
                    self.spent = true;
                    let mut rest: Vec<A> = Vec::new();
                    core::mem::swap(&mut rest, &mut self.inner);
                    proof {
                        assert(snap.inner@[j as int].may_produce(Err(e)));
                        assert(orig.inner@[j as int].may_produce(Err(e)));
                        assert forall|k: int| 0 <= k < rest@.len()
                            implies refines(#[trigger] rest@[k],
                                orig.inner@[beside(k, j as int)]) by {
                            assert(rest@[k] == snap.inner@[beside(k, j as int)]);
                        };
                    }
                    return Poll::Failed((e, j, rest));
                },
            }
        }
        proof {
            assert forall|x: Result<(T, usize, Vec<A>), (E, usize, Vec<A>)>| self.may_produce(x)
                implies orig.may_produce(x) by {
                match x {
                    Result::Ok(win) => {
                        assert(self.inner@[win.1 as int].may_produce(Ok(win.0)));
                        assert forall|k: int| 0 <= k < win.2@.len()
                            implies refines(#[trigger] win.2@[k],
                                orig.inner@[beside(k, win.1 as int)]) by {
                            assert(refines(win.2@[k], self.inner@[beside(k, win.1 as int)]));
                        };
                    },
                    Result::Err(lose) => {
                        assert(self.inner@[lose.1 as int].may_produce(Err(lose.0)));
                        assert forall|k: int| 0 <= k < lose.2@.len()
                            implies refines(#[trigger] lose.2@[k],
                                orig.inner@[beside(k, lose.1 as int)]) by {
                            assert(refines(lose.2@[k], self.inner@[beside(k, lose.1 as int)]));
                        };
                    },
                }
            };
        }
        Poll::NotReady
    }

    fn schedule(&mut self, task: &mut Task) {
        let ghost orig = *self;
        let mut j: usize = 0;
        while j < self.inner.len()
            invariant
                orig == *old(self),
                !self.spent,
                !orig.spent,
                j <= self.inner@.len(),
                self.inner@.len() == orig.inner@.len(),
                orig.inner@.len() > 0,
                forall|k: int| 0 <= k < self.inner@.len()
                    ==> (#[trigger] self.inner@[k]).wf() && !self.inner@[k].done(),
                forall|k: int, x: Result<T, E>| 0 <= k < self.inner@.len()
                    && #[trigger] self.inner@[k].may_produce(x)
                    ==> orig.inner@[k].may_produce(x),
            decreases self.inner@.len() - j,
        {
            let ghost snap = *self;
            let mut head = self.inner.remove(j);
            head.schedule(task);
            self.inner.insert(j, head);
            proof {
                assert forall|k: int, x: Result<T, E>| 0 <= k < self.inner@.len()
                    && #[trigger] self.inner@[k].may_produce(x)
                    implies orig.inner@[k].may_produce(x) by {
                    if k != j {
                        assert(self.inner@[k] == snap.inner@[k]);
                    } else {
                        assert(snap.inner@[j as int].may_produce(x));
                    }
                };
            }
            j = j + 1;
        }
        proof {
            assert forall|x: Result<(T, usize, Vec<A>), (E, usize, Vec<A>)>| self.may_produce(x)
                implies orig.may_produce(x) by {
                match x {
                    Result::Ok(win) => {
                        assert(self.inner@[win.1 as int].may_produce(Ok(win.0)));
                        assert forall|k: int| 0 <= k < win.2@.len()
                            implies refines(#[trigger] win.2@[k],
                                orig.inner@[beside(k, win.1 as int)]) by {
                            assert(refines(win.2@[k], self.inner@[beside(k, win.1 as int)]));
                        };
                    },
                    Result::Err(lose) => {
                        assert(self.inner@[lose.1 as int].may_produce(Err(lose.0)));
                        assert forall|k: int| 0 <= k < lose.2@.len()
                            implies refines(#[trigger] lose.2@[k],
                                orig.inner@[beside(k, lose.1 as int)]) by {
                            assert(refines(lose.2@[k], self.inner@[beside(k, lose.1 as int)]));
                        };
                    },
                }
            };
        }
    }
}

/// Race every future in `futures`: complete with the first completed
/// result, the index it came from, and the vector of the others, still in
/// their original order. The collection must not be empty; the futures are
/// polled front to back.
pub fn select_all<T: 'static, E: 'static, A>(futures: Vec<A>) -> (r: SelectAll<A>)
    where A: Future<T, E> + 'static,
    requires
        futures@.len() > 0,
        forall|k: int| 0 <= k < futures@.len()
            ==> (#[trigger] futures@[k]).wf() && !futures@[k].done(),
    ensures
        r == (SelectAll { inner: futures, spent: false }),
        r.wf(),
        !r.done(),
{
    SelectAll { inner: futures, spent: false }
}

} // verus!
