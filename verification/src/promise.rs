//! A one-shot handoff between a producer and a future.

use vstd::prelude::*;
use crate::Future;
use crate::Task;
use crate::poll::Poll;
use crate::queue::Fetched;
use crate::queue::queue_new;
use crate::queue::queue_poll;
use crate::queue::queue_send;

verus! {

/// The error a promise completes with when its `Complete` was dropped
/// without filling it.
#[derive(Clone, Copy, PartialEq, Eq, Structural, Debug)]
pub struct Canceled;

/// The future side of a one-shot handoff: completes with the value handed
/// to the paired `Complete`, or with `Canceled` once that `Complete` is
/// dropped unused.
#[verifier::reject_recursive_types(T)]
pub struct Promise<T> {
    /// The consuming end of the handoff.
    pub port: std::sync::mpsc::Receiver<T>,
    /// Whether this promise has already yielded its result.
    pub spent: bool,
}

/// The producer side of a one-shot handoff. `complete` fills the paired
/// `Promise`; dropping this value unused cancels it.
#[verifier::reject_recursive_types(T)]
pub struct Complete<T> {
    /// The producing end of the handoff.
    pub port: std::sync::mpsc::Sender<T>,
}

impl<T: 'static> Future<T, Canceled> for Promise<T> {
    open spec fn wf(&self) -> bool {
        true
    }

    open spec fn done(&self) -> bool {
        self.spent
    }

    open spec fn may_produce(&self, r: Result<T, Canceled>) -> bool {
        !self.spent
    }

    open spec fn must_complete(&self) -> bool {
        false
    }

    fn poll(&mut self, task: &mut Task) -> (r: Poll<T, Canceled>)
        ensures
            r.spec_is_ready() == final(self).spent,
            !r.spec_is_ready() ==> *final(self) == *old(self),
    {
        match queue_poll(&self.port) {
            Fetched::Value(v) => {
                self.spent = true;
                Poll::Ready(v)
            },
            Fetched::Empty => Poll::NotReady,
            Fetched::Closed => {
                self.spent = true;
                Poll::Failed(Canceled)
            },
        }
    }

    fn schedule(&mut self, task: &mut Task)
        ensures
            *final(self) == *old(self),
    {
    }
}

impl<T: 'static> Complete<T> {
    /// Fill the paired promise with `value`. If the promise was dropped
    /// already, the value is discarded.
    pub fn complete(self, value: T) {
        match queue_send(&self.port, value) {
            None => (),
            Some(_) => (),
        }
    }
}

/// A connected one-shot pair: the returned promise completes with whatever
/// is handed to the returned `Complete`, or with `Canceled` if the
/// `Complete` is dropped unused.
pub fn promise<T: 'static>() -> (pair: (Promise<T>, Complete<T>))
    ensures
        pair.0.wf(),
        !pair.0.done(),
{
    let (tx, rx) = queue_new();
    (Promise { port: rx, spent: false }, Complete { port: tx })
}

} // verus!
