//! Collect the results of a whole collection of futures.

use vstd::prelude::*;
use crate::Future;
use crate::Task;
use crate::poll::Poll;

verus! {

/// A future that drives a sequence of futures to completion, front first,
/// and completes with the vector of their values in the same order. The
/// moment one of them fails, the rest are dropped (cancelled) and the
/// collect completes with that error.
pub struct Collect<A, T> {
    /// The futures still to complete, in order; the front is polled first.
    pub remaining: Vec<A>,
    /// The values collected so far, in order.
    pub collected: Vec<T>,
    /// Whether this future has already yielded a completed result.
    pub spent: bool,
}

impl<T: 'static, E: 'static, A> Future<Vec<T>, E> for Collect<A, T>
    where A: Future<T, E>,
{
    open spec fn wf(&self) -> bool {
        !self.spent ==> forall|k: int| 0 <= k < self.remaining@.len()
            ==> (#[trigger] self.remaining@[k]).wf() && !self.remaining@[k].done()
    }

    open spec fn done(&self) -> bool {
        self.spent
    }

    open spec fn may_produce(&self, r: Result<Vec<T>, E>) -> bool {
        if self.spent {
            false
        } else {
            match r {
                Result::Ok(vs) => {
                    &&& vs@.len() == self.collected@.len() + self.remaining@.len()
                    &&& forall|i: int| 0 <= i < self.collected@.len()
                        ==> vs@[i] == self.collected@[i]
                    &&& forall|k: int| 0 <= k < self.remaining@.len()
                        ==> (#[trigger] self.remaining@[k]).may_produce(
                            Ok(vs@[self.collected@.len() + k]))
                },
                Result::Err(e) => exists|k: int| 0 <= k < self.remaining@.len()
                    && (#[trigger] self.remaining@[k]).may_produce(Err(e)),
            }
        }
    }

    open spec fn must_complete(&self) -> bool {
        !self.spent && forall|k: int| 0 <= k < self.remaining@.len()
            ==> (#[trigger] self.remaining@[k]).must_complete()
    }

    fn poll(&mut self, task: &mut Task) -> (r: Poll<Vec<T>, E>) {
        let ghost orig = *self;
        let ghost base = self.collected@.len() as int;
        while self.remaining.len() > 0
            invariant
                orig == *old(self),
                !self.spent,
                !orig.spent,
                self.collected@.len() + self.remaining@.len()
                    == orig.collected@.len() + orig.remaining@.len(),
                self.collected@.len() >= orig.collected@.len(),
                base == orig.collected@.len(),
                forall|k: int| 0 <= k < self.remaining@.len()
                    ==> (#[trigger] self.remaining@[k]).wf() && !self.remaining@[k].done(),
                forall|i: int| 0 <= i < base ==> self.collected@[i] == orig.collected@[i],
                forall|i: int| base <= i < self.collected@.len()
                    ==> orig.remaining@[i - base].may_produce(Ok(#[trigger] self.collected@[i])),
                forall|k: int, x: Result<T, E>| 0 <= k < self.remaining@.len()
                    && #[trigger] self.remaining@[k].may_produce(x)
                    ==> orig.remaining@[k + self.collected@.len() - base].may_produce(x),
                forall|k: int| 0 <= k < self.remaining@.len()
                    ==> #[trigger] self.remaining@[k]
                        == orig.remaining@[k + self.collected@.len() - base],
            decreases self.remaining@.len(),
        {
            let ghost snap = *self;
            let ghost consumed = self.collected@.len() as int - base;
            let mut head = self.remaining.remove(0);
            let ghost fresh_head = head;
            match head.poll(task) {
                Poll::Ready(v) => {
                    self.collected.push(v);
                    proof {
                        assert(snap.remaining@[0].may_produce(Ok(v)));
                        assert(orig.remaining@[consumed].may_produce(Ok(v)));
                        assert forall|k: int, x: Result<T, E>| 0 <= k < self.remaining@.len()
                            && #[trigger] self.remaining@[k].may_produce(x)
                            implies orig.remaining@[k + self.collected@.len() - base]
                                .may_produce(x) by {
                            assert(self.remaining@[k] == snap.remaining@.remove(0)[k]);
                            assert(snap.remaining@[k + 1] == snap.remaining@.remove(0)[k]);
                        };
                        assert forall|k: int| 0 <= k < self.remaining@.len()
                            implies #[trigger] self.remaining@[k]
                                == orig.remaining@[k + self.collected@.len() - base] by {
                            assert(self.remaining@[k] == snap.remaining@.remove(0)[k]);
                            assert(snap.remaining@[k + 1] == snap.remaining@.remove(0)[k]);
                        };
                    }
                },
                Poll::Failed(e) => {
                    self.remaining.clear();
                    self.collected.clear();
                    self.spent = true;
                    proof {
                        assert(snap.remaining@[0].may_produce(Err(e)));
                        assert(0 <= consumed < orig.remaining@.len());
                        assert(orig.remaining@[consumed].may_produce(Err(e)));
                        assert(orig.may_produce(Err(e)));
                    }
                    return Poll::Failed(e);
                },
                Poll::NotReady => {
                    self.remaining.insert(0, head);
                    proof {
                        assert(fresh_head == snap.remaining@[0]);
                        assert(snap.remaining@[0] == orig.remaining@[consumed]);
                        assert(!orig.remaining@[consumed].must_complete());
                        assert(!orig.must_complete());
                        assert forall|k: int, x: Result<T, E>| 0 <= k < self.remaining@.len()
                            && #[trigger] self.remaining@[k].may_produce(x)
                            implies orig.remaining@[k + self.collected@.len() - base]
                                .may_produce(x) by {
                            if k == 0 {
                                assert(self.remaining@[0] == head);
                                assert(fresh_head == snap.remaining@[0]);
                                assert(snap.remaining@[0].may_produce(x));
                            } else {
                                assert(self.remaining@[k]
                                    == snap.remaining@.remove(0).insert(0, head)[k]);
                                assert(snap.remaining@[k] == self.remaining@[k]);
                            }
                        };
                        assert forall|x: Result<Vec<T>, E>| self.may_produce(x)
                            implies orig.may_produce(x) by {
                            lemma_collect_narrows(orig, *self, base, x);
                        };
                    }
                    return Poll::NotReady;
                },
            }
        }
        let mut vs: Vec<T> = Vec::new();
        core::mem::swap(&mut vs, &mut self.collected);
        self.spent = true;
        proof {
            assert(orig.may_produce(Ok(vs))) by {
                assert(vs@.len() == orig.collected@.len() + orig.remaining@.len());
                assert forall|k: int| 0 <= k < orig.remaining@.len()
                    implies (#[trigger] orig.remaining@[k]).may_produce(
                        Ok(vs@[orig.collected@.len() + k])) by {
                    assert(orig.remaining@[k].may_produce(Ok(vs@[base + k])));
                };
            }
        }
        Poll::Ready(vs)
    }

    fn schedule(&mut self, task: &mut Task) {
        if self.remaining.len() > 0 {
            let mut head = self.remaining.remove(0);
            head.schedule(task);
            self.remaining.insert(0, head);
            proof {
                assert forall|x: Result<Vec<T>, E>| self.may_produce(x)
                    implies old(self).may_produce(x) by {
                    lemma_collect_narrows(*old(self), *self, old(self).collected@.len() as int, x);
                };
            }
        }
    }
}

/// If one collect state narrows another — same collected values, and each
/// remaining future producing only what its counterpart could — then it may
/// produce only what the other may produce.
proof fn lemma_collect_narrows<T: 'static, E: 'static, A>(
    orig: Collect<A, T>,
    now: Collect<A, T>,
    base: int,
    x: Result<Vec<T>, E>,
)
    where A: Future<T, E>
    requires
        !orig.spent,
        !now.spent,
        base == orig.collected@.len(),
        now.collected@.len() >= base,
        now.collected@.len() + now.remaining@.len()
            == orig.collected@.len() + orig.remaining@.len(),
        forall|i: int| 0 <= i < base ==> now.collected@[i] == orig.collected@[i],
        forall|i: int| base <= i < now.collected@.len()
            ==> orig.remaining@[i - base].may_produce(Ok(#[trigger] now.collected@[i])),
        forall|k: int, y: Result<T, E>| 0 <= k < now.remaining@.len()
            && #[trigger] now.remaining@[k].may_produce(y)
            ==> orig.remaining@[k + now.collected@.len() - base].may_produce(y),
        now.may_produce(x),
    ensures
        orig.may_produce(x),
{
    let consumed = now.collected@.len() - base;
    match x {
        Result::Ok(vs) => {
            assert forall|k: int| 0 <= k < orig.remaining@.len()
                implies (#[trigger] orig.remaining@[k]).may_produce(Ok(vs@[base + k])) by {
                if k < consumed {
                    assert(vs@[base + k] == now.collected@[base + k]);
                    assert(orig.remaining@[k].may_produce(Ok(now.collected@[base + k])));
                } else {
                    let k2 = k - consumed;
                    assert(now.remaining@[k2].may_produce(
                        Ok(vs@[now.collected@.len() + k2])));
                    assert(now.collected@.len() + k2 == base + k);
                }
            };
        },
        Result::Err(e) => {
            let k2 = choose|k2: int| 0 <= k2 < now.remaining@.len()
                && (#[trigger] now.remaining@[k2]).may_produce(Err(e));
            assert(orig.remaining@[k2 + consumed].may_produce(Err(e)));
        },
    }
}

/// Drive every future in `futures` to completion, front first, and complete
/// with the vector of their values in the same order; if one fails, drop
/// the rest and complete with that error.
pub fn collect<T: 'static, E: 'static, A>(futures: Vec<A>) -> (r: Collect<A, T>)
    where A: Future<T, E>,
    requires
        forall|k: int| 0 <= k < futures@.len()
            ==> (#[trigger] futures@[k]).wf() && !futures@[k].done(),
    ensures
        r.remaining == futures,
        r.collected@ == Seq::<T>::empty(),
        !r.spent,
        r.wf(),
        !r.done(),
{
    Collect { remaining: futures, collected: Vec::new(), spent: false }
}

} // verus!
