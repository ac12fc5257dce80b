//! Minimal executors that drive a root future.

use vstd::prelude::*;
use crate::Future;
use crate::Task;
use crate::poll::Poll;

verus! {

/// Drive `f` by polling it in a loop, scheduling between polls, for at
/// most `budget` polls. A completed result is one the future could produce;
/// `None` means the budget ran out while the future stayed pending, and the
/// future is then dropped, which cancels it.
pub fn run<T: 'static, E: 'static, F: Future<T, E>>(f: F, budget: u64)
    -> (r: Option<Result<T, E>>)
    requires
        f.wf(),
        !f.done(),
    ensures
        match r {
            Some(x) => f.may_produce(x),
            None => true,
        },
        f.must_complete() ==> r is Some,
{
    let mut task = Task::new();
    let mut fut = f;
    let mut left = budget;
    loop
        invariant
            fut.wf(),
            !fut.done(),
            forall|x: Result<T, E>| fut.may_produce(x) ==> f.may_produce(x),
            fut == f || !f.must_complete(),
        decreases left,
    {
        match fut.poll(&mut task) {
            Poll::Ready(v) => return Some(Ok(v)),
            Poll::Failed(e) => return Some(Err(e)),
            Poll::NotReady => fut.schedule(&mut task),
        }
        if left == 0 {
            return None;
        }
        left = left - 1;
    }
}

/// Consume `f` and drive it inline for one poll: whatever is immediately
/// ready runs to completion, and a future that is still pending afterwards
/// is dropped, which cancels it.
pub fn forget<T: 'static, E: 'static, F: Future<T, E>>(f: F)
    requires
        f.wf(),
        !f.done(),
{
    let mut task = Task::new();
    let mut fut = f;
    match fut.poll(&mut task) {
        Poll::Ready(_) => (),
        Poll::Failed(_) => (),
        Poll::NotReady => (),
    }
}

} // verus!
