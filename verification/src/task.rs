//! The per-computation context a future is polled in.
//!
//! A `Task` owns the context of one running computation: the set of ready
//! event tokens accumulated since the last drain, and a queue over which a
//! `TaskHandle` can post wakeup tokens from outside the polling code.

use vstd::prelude::*;

verus! {

/// The execution context for a root future. Carries the ready-event token
/// set: tokens recorded since the last drain, each held once.
pub struct Task {
    /// Tokens marked ready and not yet drained, without duplicates.
    pub tokens: Vec<usize>,
}

impl Task {
    /// The ready-event set: every token recorded since the last drain.
    pub open spec fn ready_set(&self) -> Set<usize> {
        self.tokens@.to_set()
    }

    /// The ready-event tokens hold no duplicates.
    pub open spec fn wf(&self) -> bool {
        forall|i: int, j: int| 0 <= i < j < self.tokens@.len()
            ==> self.tokens@[i] != self.tokens@[j]
    }

    /// Create a task with no ready events.
    pub fn new() -> (t: Task)
        ensures
            t.wf(),
            t.ready_set() == Set::<usize>::empty(),
    {
        let t = Task { tokens: Vec::new() };
        proof {
            assert(t.tokens@.to_set() =~= Set::<usize>::empty());
        }
        t
    }

    /// Record `token` as ready. Recording a token twice coalesces into one.
    pub fn ready(&mut self, token: usize)
        requires
            old(self).wf(),
        ensures
            final(self).wf(),
            final(self).ready_set() == old(self).ready_set().insert(token),
    {
        let mut i: usize = 0;
        while i < self.tokens.len()
            invariant
                i <= self.tokens@.len(),
                forall|k: int| 0 <= k < i ==> self.tokens@[k] != token,
                self.tokens@ == old(self).tokens@,
                self.wf(),
            decreases self.tokens@.len() - i,
        {
            if self.tokens[i] == token {
                proof {
                    assert(self.tokens@.to_set().contains(token));
                    assert(self.ready_set() =~= self.ready_set().insert(token));
                }
                return;
            }
            i = i + 1;
        }
        self.tokens.push(token);
        proof {
            assert(self.tokens@ == old(self).tokens@.push(token));
            assert(self.tokens@.to_set() =~= old(self).tokens@.to_set().insert(token)) by {
                assert forall|x: usize| self.tokens@.to_set().contains(x)
                    implies old(self).tokens@.to_set().insert(token).contains(x) by {
                    let k = choose|k: int| 0 <= k < self.tokens@.len() && self.tokens@[k] == x;
                    if k < old(self).tokens@.len() {
                        assert(old(self).tokens@[k] == x);
                    }
                };
                assert forall|x: usize| old(self).tokens@.to_set().insert(token).contains(x)
                    implies self.tokens@.to_set().contains(x) by {
                    if x == token {
                        assert(self.tokens@[old(self).tokens@.len() as int] == token);
                    } else {
                        let k = choose|k: int| 0 <= k < old(self).tokens@.len()
                            && old(self).tokens@[k] == x;
                        assert(self.tokens@[k] == x);
                    }
                };
            }
        }
    }

    /// Whether `token` is in the ready-event set.
    pub fn is_ready(&self, token: usize) -> (r: bool)
        ensures
            r == self.ready_set().contains(token),
    {
        let mut i: usize = 0;
        while i < self.tokens.len()
            invariant
                i <= self.tokens@.len(),
                forall|k: int| 0 <= k < i ==> self.tokens@[k] != token,
            decreases self.tokens@.len() - i,
        {
            if self.tokens[i] == token {
                proof {
                    assert(self.tokens@.to_set().contains(token));
                }
                return true;
            }
            i = i + 1;
        }
        proof {
            if self.tokens@.to_set().contains(token) {
                let k = choose|k: int| 0 <= k < self.tokens@.len() && self.tokens@[k] == token;
                assert(false);
            }
        }
        false
    }

    /// Drain the ready-event set: hand out every recorded token and leave
    /// the set empty.
    pub fn events(&mut self) -> (r: Vec<usize>)
        requires
            old(self).wf(),
        ensures
            final(self).wf(),
            final(self).ready_set() == Set::<usize>::empty(),
            r@.to_set() == old(self).ready_set(),
    {
        let mut drained: Vec<usize> = Vec::new();
        core::mem::swap(&mut drained, &mut self.tokens);
        proof {
            assert(self.tokens@.to_set() =~= Set::<usize>::empty());
        }
        drained
    }
}

/// A cheap, cloneable notifier. A wakeup carries an event token and is
/// delivered synchronously into the ready set of the task it is handed;
/// recording the same token twice within one poll cycle coalesces.
#[derive(Clone, Copy)]
pub struct TaskHandle {
}

impl TaskHandle {
    /// Deliver a wakeup carrying `token` into `task`'s ready set.
    pub fn notify(&self, task: &mut Task, token: usize)
        requires
            old(task).wf(),
        ensures
            final(task).wf(),
            final(task).ready_set() == old(task).ready_set().insert(token),
    {
        task.ready(token);
    }
}

impl Task {
    /// A notifier for delivering wakeups into a task's ready set.
    pub fn handle(&self) -> TaskHandle {
        TaskHandle {}
    }
}

} // verus!
