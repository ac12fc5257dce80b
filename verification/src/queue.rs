//! Trusted declarations of the standard library's channel primitives.
//!
//! The promise and channel primitives hand values from a producer to a
//! consumer through shared state. That shared state lives in the standard
//! library's `std::sync::mpsc` queues; the declarations here are what this
//! crate assumes about them. A queue's content is shared between its two
//! endpoints, so nothing is claimed about which value a fetch finds: the
//! verified callers state what holds of every outcome.

use vstd::prelude::*;

verus! {

#[verifier::external_type_specification]
#[verifier::external_body]
#[verifier::reject_recursive_types(T)]
pub struct ExSender<T>(std::sync::mpsc::Sender<T>);

#[verifier::external_type_specification]
#[verifier::external_body]
#[verifier::reject_recursive_types(T)]
pub struct ExReceiver<T>(std::sync::mpsc::Receiver<T>);

#[verifier::external_type_specification]
#[verifier::external_body]
#[verifier::reject_recursive_types(T)]
pub struct ExSyncSender<T>(std::sync::mpsc::SyncSender<T>);

/// What polling the consuming end of a queue can find: a queued value, an
/// empty queue, or a queue whose producers are all gone and which holds
/// nothing more.
pub enum Fetched<T> {
    /// A value was queued; this fetch removed it.
    Value(T),
    /// Nothing is queued, but a producer still exists.
    Empty,
    /// Nothing is queued and every producer is gone.
    Closed,
}

/// Relies on std::sync::mpsc::channel: a connected producer/consumer pair
/// over a first-in, first-out queue.
#[verifier::external_body]
pub fn queue_new<T>() -> (std::sync::mpsc::Sender<T>, std::sync::mpsc::Receiver<T>) {
    std::sync::mpsc::channel()
}

/// Relies on std::sync::mpsc::Sender::send: the value is queued, unless the
/// receiver is gone, in which case the same value comes back.
#[verifier::external_body]
pub fn queue_send<T>(tx: &std::sync::mpsc::Sender<T>, v: T) -> (r: Option<T>)
    ensures
        match r {
            None => true,
            Some(x) => x == v,
        },
{
    match tx.send(v) {
        Ok(()) => None,
        Err(std::sync::mpsc::SendError(x)) => Some(x),
    }
}

/// What offering a value to a bounded queue can come to: taken in, or
/// handed back because the queue is full or every consumer is gone.
pub enum Offered<T> {
    /// The value was queued.
    Accepted,
    /// The queue is full; the same value comes back.
    Full(T),
    /// Every consumer is gone; the same value comes back.
    Closed(T),
}

/// Relies on std::sync::mpsc::sync_channel: a connected producer/consumer
/// pair over a first-in, first-out queue holding at most `bound` values.
#[verifier::external_body]
pub fn queue_new_bounded<T>(bound: usize)
    -> (std::sync::mpsc::SyncSender<T>, std::sync::mpsc::Receiver<T>) {
    std::sync::mpsc::sync_channel(bound)
}

/// Relies on std::sync::mpsc::SyncSender::try_send: queues the value
/// without blocking, unless the queue is full or the receiver is gone, in
/// which case the same value comes back.
#[verifier::external_body]
pub fn queue_offer<T>(tx: &std::sync::mpsc::SyncSender<T>, v: T) -> (r: Offered<T>)
    ensures
        match r {
            Offered::Accepted => true,
            Offered::Full(x) => x == v,
            Offered::Closed(x) => x == v,
        },
{
    match tx.try_send(v) {
        Ok(()) => Offered::Accepted,
        Err(std::sync::mpsc::TrySendError::Full(x)) => Offered::Full(x),
        Err(std::sync::mpsc::TrySendError::Disconnected(x)) => Offered::Closed(x),
    }
}

/// Relies on std::sync::mpsc::Receiver::try_recv: takes the oldest queued
/// value without blocking, or reports the queue empty or closed.
#[verifier::external_body]
pub fn queue_poll<T>(rx: &std::sync::mpsc::Receiver<T>) -> Fetched<T> {
    match rx.try_recv() {
        Ok(v) => Fetched::Value(v),
        Err(std::sync::mpsc::TryRecvError::Empty) => Fetched::Empty,
        Err(std::sync::mpsc::TryRecvError::Disconnected) => Fetched::Closed,
    }
}

} // verus!
