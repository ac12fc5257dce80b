//! Asynchronous sequences on the polling substrate, and a channel over one.

use vstd::prelude::*;
use crate::Future;
use crate::Task;
use crate::poll::Poll;
use crate::queue::Fetched;
use crate::queue::Offered;
use crate::queue::queue_new;
use crate::queue::queue_new_bounded;
use crate::queue::queue_offer;
use crate::queue::queue_poll;
use crate::queue::queue_send;

verus! {

/// An asynchronous sequence of values. Polling yields an item
/// (`Ready(Some(v))`), the end of the stream (`Ready(None)`), a terminal
/// error, or `NotReady`. After the end or an error the stream is done and
/// must not be polled again.
pub trait Stream<T, E> where T: 'static, E: 'static {
    /// Well-formedness, preserved by polling.
    spec fn wf(&self) -> bool;

    /// Whether the stream already ended or failed; polling it then is a
    /// contract violation.
    spec fn done(&self) -> bool;

    /// The elements this stream can still yield at some point — `Some` an
    /// item, `None` its end. Polling can only narrow this set.
    spec fn may_emit(&self, item: Option<T>) -> bool;

    /// The errors this stream can still fail with. Polling can only narrow
    /// this set.
    spec fn may_fail(&self, e: E) -> bool;

    /// Ask the stream for its next item. Never blocks. Whatever comes out
    /// is something the stream could emit; an item leaves the stream open.
    fn poll(&mut self, task: &mut Task) -> (r: Poll<Option<T>, E>)
        requires
            old(self).wf(),
            !old(self).done(),
        ensures
            final(self).wf(),
            forall|x: Option<T>| final(self).may_emit(x) ==> old(self).may_emit(x),
            forall|e: E| final(self).may_fail(e) ==> old(self).may_fail(e),
            match r {
                Poll::NotReady => !final(self).done(),
                Poll::Ready(item) => old(self).may_emit(item)
                    && (item is Some ==> !final(self).done()),
                Poll::Failed(e) => old(self).may_fail(e),
            },
    ;

    /// Register the running task for a wakeup when this stream can next
    /// make progress.
    fn schedule(&mut self, task: &mut Task)
        requires
            old(self).wf(),
            !old(self).done(),
        ensures
            final(self).wf(),
            !final(self).done(),
            forall|x: Option<T>| final(self).may_emit(x) ==> old(self).may_emit(x),
            forall|e: E| final(self).may_fail(e) ==> old(self).may_fail(e),
    ;
}

/// The producing half of a channel: each result sent becomes one element of
/// the receiving stream.
#[verifier::reject_recursive_types(T)]
#[verifier::reject_recursive_types(E)]
pub struct Sender<T, E> {
    /// The producing end of the shared queue.
    pub port: std::sync::mpsc::Sender<Result<T, E>>,
}

/// The consuming half of a channel, a stream of the results sent. Once
/// every sender is dropped and the queue drained, the stream ends.
#[verifier::reject_recursive_types(T)]
#[verifier::reject_recursive_types(E)]
pub struct Receiver<T, E> {
    /// The consuming end of the shared queue.
    pub port: std::sync::mpsc::Receiver<Result<T, E>>,
    /// Whether the stream already ended or failed.
    pub finished: bool,
}

/// The error a send future completes with when the receiver is gone; it
/// hands the unsent result back.
pub struct SendError<T, E> {
    /// The result that could not be delivered.
    pub unsent: Result<T, E>,
}

/// A future that delivers one result into an unbounded channel. It
/// resolves to the sender the moment the result is queued — the queue
/// grows without bound, so there is no backpressure; `bounded_channel`
/// gives the flow-controlled variant. It fails with `SendError` if the
/// receiver is gone.
#[verifier::reject_recursive_types(T)]
#[verifier::reject_recursive_types(E)]
pub struct FutureSender<T, E> {
    /// The sender and the result to deliver, until this future completes.
    pub inner: Option<(Sender<T, E>, Result<T, E>)>,
}

impl<T: 'static, E: 'static> Sender<T, E> {
    /// Deliver `entry` to the receiving stream. The returned future
    /// resolves to this sender again once the entry is on its way, and
    /// fails with the entry handed back if the receiver is gone.
    pub fn send(self, entry: Result<T, E>) -> (f: FutureSender<T, E>)
        ensures
            f == (FutureSender { inner: Some((self, entry)) }),
            f.wf(),
            !f.done(),
    {
        FutureSender { inner: Some((self, entry)) }
    }
}

impl<T: 'static, E: 'static> Future<Sender<T, E>, SendError<T, E>> for FutureSender<T, E> {
    open spec fn wf(&self) -> bool {
        true
    }

    open spec fn done(&self) -> bool {
        self.inner is None
    }

    open spec fn may_produce(&self, r: Result<Sender<T, E>, SendError<T, E>>) -> bool {
        match self.inner {
            Some(pair) => match r {
                Result::Ok(s) => s == pair.0,
                Result::Err(se) => se == (SendError { unsent: pair.1 }),
            },
            None => false,
        }
    }

    open spec fn must_complete(&self) -> bool {
        self.inner is Some
    }

    fn poll(&mut self, task: &mut Task) -> (r: Poll<Sender<T, E>, SendError<T, E>>)
        ensures
            r.spec_is_ready(),
            final(self).inner is None,
    {
        match self.inner.take() {
            None => {
                proof {
                    assert(false);
                }
                Poll::NotReady
            },
            Some((sender, entry)) => {
                match queue_send(&sender.port, entry) {
                    None => Poll::Ready(sender),
                    Some(back) => Poll::Failed(SendError { unsent: back }),
                }
            },
        }
    }

    fn schedule(&mut self, task: &mut Task)
        ensures
            *final(self) == *old(self),
    {
    }
}

impl<T: 'static, E: 'static> Stream<T, E> for Receiver<T, E> {
    open spec fn wf(&self) -> bool {
        true
    }

    open spec fn done(&self) -> bool {
        self.finished
    }

    open spec fn may_emit(&self, item: Option<T>) -> bool {
        !self.finished
    }

    open spec fn may_fail(&self, e: E) -> bool {
        !self.finished
    }

    fn poll(&mut self, task: &mut Task) -> (r: Poll<Option<T>, E>)
        ensures
            final(self).finished == (match r {
                Poll::NotReady => false,
                Poll::Ready(item) => item is None,
                Poll::Failed(_) => true,
            }),
            !r.spec_is_ready() ==> *final(self) == *old(self),
    {
        match queue_poll(&self.port) {
            Fetched::Value(Ok(v)) => Poll::Ready(Some(v)),
            Fetched::Value(Err(e)) => {
                self.finished = true;
                Poll::Failed(e)
            },
            Fetched::Empty => Poll::NotReady,
            Fetched::Closed => {
                self.finished = true;
                Poll::Ready(None)
            },
        }
    }

    fn schedule(&mut self, task: &mut Task)
        ensures
            *final(self) == *old(self),
    {
    }
}

/// A connected producer/consumer pair over an unbounded queue: every
/// result the sender delivers becomes one element of the receiving stream,
/// in order, and a send completes the moment its result is queued;
/// dropping the sender ends the stream. For flow control use
/// `bounded_channel`.
pub fn channel<T: 'static, E: 'static>() -> (pair: (Sender<T, E>, Receiver<T, E>))
    ensures
        pair.1.wf(),
        !pair.1.done(),
{
    let (tx, rx) = queue_new();
    (Sender { port: tx }, Receiver { port: rx, finished: false })
}

/// The producing half of a bounded channel: the queue holds at most one
/// undelivered result, so a send stays pending until the receiver has
/// taken the previous one.
#[verifier::reject_recursive_types(T)]
#[verifier::reject_recursive_types(E)]
pub struct BoundedSender<T, E> {
    /// The producing end of the shared single-slot queue.
    pub port: std::sync::mpsc::SyncSender<Result<T, E>>,
}

/// A future that delivers one result into a bounded channel and resolves to
/// the sender once the queue accepted it; while the queue is full it stays
/// pending, holding the sender and the result unchanged, and it fails with
/// `SendError` if the receiver is gone.
#[verifier::reject_recursive_types(T)]
#[verifier::reject_recursive_types(E)]
pub struct BoundedFutureSender<T, E> {
    /// The sender and the result to deliver, until this future completes.
    pub inner: Option<(BoundedSender<T, E>, Result<T, E>)>,
}

impl<T: 'static, E: 'static> BoundedSender<T, E> {
    /// Deliver `entry` to the receiving stream. The returned future
    /// resolves to this sender again once the queue accepted the entry —
    /// with the single-slot queue, once the receiver has taken the previous
    /// one — and fails with the entry handed back if the receiver is gone.
    pub fn send(self, entry: Result<T, E>) -> (f: BoundedFutureSender<T, E>)
        ensures
            f == (BoundedFutureSender { inner: Some((self, entry)) }),
            f.wf(),
            !f.done(),
    {
        BoundedFutureSender { inner: Some((self, entry)) }
    }
}

impl<T: 'static, E: 'static> Future<BoundedSender<T, E>, SendError<T, E>>
    for BoundedFutureSender<T, E>
{
    open spec fn wf(&self) -> bool {
        true
    }

    open spec fn done(&self) -> bool {
        self.inner is None
    }

    open spec fn may_produce(&self, r: Result<BoundedSender<T, E>, SendError<T, E>>) -> bool {
        match self.inner {
            Some(pair) => match r {
                Result::Ok(s) => s == pair.0,
                Result::Err(se) => se == (SendError { unsent: pair.1 }),
            },
            None => false,
        }
    }

    open spec fn must_complete(&self) -> bool {
        false
    }

    fn poll(&mut self, task: &mut Task)
        -> (r: Poll<BoundedSender<T, E>, SendError<T, E>>)
        ensures
            !r.spec_is_ready() ==> *final(self) == *old(self),
            r.spec_is_ready() ==> final(self).inner is None,
    {
        match self.inner.take() {
            None => {
                proof {
                    assert(false);
                }
                Poll::NotReady
            },
            Some((sender, entry)) => {
                match queue_offer(&sender.port, entry) {
                    Offered::Accepted => Poll::Ready(sender),
                    Offered::Full(back) => {
                        self.inner = Some((sender, back));
                        Poll::NotReady
                    },
                    Offered::Closed(back) => Poll::Failed(SendError { unsent: back }),
                }
            },
        }
    }

    fn schedule(&mut self, task: &mut Task)
        ensures
            *final(self) == *old(self),
    {
    }
}

/// A connected producer/consumer pair whose queue holds at most one
/// undelivered result: a send completes only once the queue accepted its
/// result, so a producer can run at most one result ahead of the receiver;
/// dropping the sender ends the stream.
pub fn bounded_channel<T: 'static, E: 'static>()
    -> (pair: (BoundedSender<T, E>, Receiver<T, E>))
    ensures
        pair.1.wf(),
        !pair.1.done(),
{
    let (tx, rx) = queue_new_bounded(1);
    (BoundedSender { port: tx }, Receiver { port: rx, finished: false })
}

/// A stream that applies a function to every item of another stream.
/// Errors, the end of the stream and pending polls are forwarded unchanged.
pub struct StreamMap<T, S, F> {
    /// The stream being transformed.
    pub stream: S,
    /// The transformation, applied to each item.
    pub f: F,
    /// Marker tying the inner stream's item type to this node.
    pub item: core::marker::PhantomData<T>,
}

impl<T: 'static, E: 'static, U: 'static, S, F> Stream<U, E> for StreamMap<T, S, F>
    where S: Stream<T, E>, F: Fn(T) -> U + 'static,
{
    open spec fn wf(&self) -> bool {
        &&& self.stream.wf()
        &&& forall|v: T| self.stream.may_emit(Some(v)) ==> call_requires(self.f, (v,))
    }

    open spec fn done(&self) -> bool {
        self.stream.done()
    }

    open spec fn may_emit(&self, item: Option<U>) -> bool {
        match item {
            None => self.stream.may_emit(None),
            Some(u) => exists|v: T| self.stream.may_emit(Some(v))
                && call_ensures(self.f, (v,), u),
        }
    }

    open spec fn may_fail(&self, e: E) -> bool {
        self.stream.may_fail(e)
    }

    fn poll(&mut self, task: &mut Task) -> (r: Poll<Option<U>, E>) {
        match self.stream.poll(task) {
            Poll::NotReady => Poll::NotReady,
            Poll::Failed(e) => Poll::Failed(e),
            Poll::Ready(None) => Poll::Ready(None),
            Poll::Ready(Some(v)) => {
                let ghost witness = v;
                let u = (self.f)(v);
                proof {
                    assert(old(self).stream.may_emit(Some(witness)));
                }
                Poll::Ready(Some(u))
            },
        }
    }

    fn schedule(&mut self, task: &mut Task) {
        self.stream.schedule(task)
    }
}

/// Map every item of `stream` through `f`, leaving errors and the end of
/// the stream as they are. The function must accept every item the stream
/// can emit.
pub fn map_stream<T: 'static, E: 'static, U: 'static, S, F>(stream: S, f: F)
    -> (r: StreamMap<T, S, F>)
    where S: Stream<T, E>, F: Fn(T) -> U + 'static,
    requires
        stream.wf(),
        !stream.done(),
        forall|v: T| stream.may_emit(Some(v)) ==> call_requires(f, (v,)),
    ensures
        r == (StreamMap { stream, f, item: core::marker::PhantomData::<T> }),
        r.wf(),
        !r.done(),
{
    StreamMap { stream, f, item: core::marker::PhantomData }
}

/// A stream that reports the end of its inner stream once it terminates and
/// then reports the end forever. It never counts as done, so polling it
/// past its end is always allowed and well-defined.
pub struct StreamFuse<S> {
    /// The inner stream, dropped the moment it terminates.
    pub inner: Option<S>,
}

impl<T: 'static, E: 'static, S: Stream<T, E>> Stream<T, E> for StreamFuse<S> {
    open spec fn wf(&self) -> bool {
        match self.inner {
            Some(s) => s.wf() && !s.done(),
            None => true,
        }
    }

    open spec fn done(&self) -> bool {
        false
    }

    open spec fn may_emit(&self, item: Option<T>) -> bool {
        match item {
            None => true,
            Some(v) => self.inner matches Some(s) && s.may_emit(Some(v)),
        }
    }

    open spec fn may_fail(&self, e: E) -> bool {
        self.inner matches Some(s) && s.may_fail(e)
    }

    fn poll(&mut self, task: &mut Task) -> (r: Poll<Option<T>, E>)
        ensures
            old(self).inner is None
                ==> r == Poll::<Option<T>, E>::Ready(None) && final(self).inner is None,
    {
        let mut held: Option<S> = None;
        core::mem::swap(&mut held, &mut self.inner);
        match held {
            None => Poll::Ready(None),
            Some(mut s) => {
                match s.poll(task) {
                    Poll::NotReady => {
                        self.inner = Some(s);
                        Poll::NotReady
                    },
                    Poll::Ready(Some(v)) => {
                        self.inner = Some(s);
                        Poll::Ready(Some(v))
                    },
                    Poll::Ready(None) => Poll::Ready(None),
                    Poll::Failed(e) => Poll::Failed(e),
                }
            },
        }
    }

    fn schedule(&mut self, task: &mut Task) {
        match &mut self.inner {
            Some(s) => s.schedule(task),
            None => (),
        }
    }
}

/// Fuse `stream`: once it has ended or failed, every further poll reports
/// the end of the stream instead of being a contract violation.
pub fn fuse_stream<T: 'static, E: 'static, S: Stream<T, E>>(stream: S) -> (r: StreamFuse<S>)
    requires
        stream.wf(),
        !stream.done(),
    ensures
        r == (StreamFuse { inner: Some(stream) }),
        r.wf(),
        !r.done(),
{
    StreamFuse { inner: Some(stream) }
}


/// A stream that yields only the items of another stream that satisfy a
/// predicate. Each poll takes at most one item from the inner stream; a
/// rejected item leaves this stream pending.
pub struct StreamFilter<S, F> {
    /// The stream being filtered.
    pub stream: S,
    /// The predicate an item must satisfy to be yielded.
    pub pred: F,
}

impl<T: 'static, E: 'static, S, F> Stream<T, E> for StreamFilter<S, F>
    where S: Stream<T, E>, F: Fn(&T) -> bool + 'static,
{
    open spec fn wf(&self) -> bool {
        &&& self.stream.wf()
        &&& forall|v: T| self.stream.may_emit(Some(v)) ==> call_requires(self.pred, (&v,))
    }

    open spec fn done(&self) -> bool {
        self.stream.done()
    }

    open spec fn may_emit(&self, item: Option<T>) -> bool {
        match item {
            None => self.stream.may_emit(None),
            Some(v) => self.stream.may_emit(Some(v)) && call_ensures(self.pred, (&v,), true),
        }
    }

    open spec fn may_fail(&self, e: E) -> bool {
        self.stream.may_fail(e)
    }

    fn poll(&mut self, task: &mut Task) -> (r: Poll<Option<T>, E>) {
        match self.stream.poll(task) {
            Poll::NotReady => Poll::NotReady,
            Poll::Failed(e) => Poll::Failed(e),
            Poll::Ready(None) => Poll::Ready(None),
            Poll::Ready(Some(v)) => {
                let ghost witness = v;
                if (self.pred)(&v) {
                    proof {
                        assert(old(self).stream.may_emit(Some(witness)));
                    }
                    Poll::Ready(Some(v))
                } else {
                    Poll::NotReady
                }
            },
        }
    }

    fn schedule(&mut self, task: &mut Task) {
        self.stream.schedule(task)
    }
}

/// Keep only the items of `stream` that satisfy `pred`; errors and the end
/// of the stream pass through. The predicate must accept every item the
/// stream can emit.
pub fn filter_stream<T: 'static, E: 'static, S, F>(stream: S, pred: F)
    -> (r: StreamFilter<S, F>)
    where S: Stream<T, E>, F: Fn(&T) -> bool + 'static,
    requires
        stream.wf(),
        !stream.done(),
        forall|v: T| stream.may_emit(Some(v)) ==> call_requires(pred, (&v,)),
    ensures
        r == (StreamFilter { stream, pred }),
        r.wf(),
        !r.done(),
{
    StreamFilter { stream, pred }
}


/// A stream that yields the longest prefix of another stream's items that
/// satisfy a predicate: the first rejected item is dropped and ends this
/// stream, while the inner stream is left where it stopped.
pub struct StreamTakeWhile<S, F> {
    /// The stream being cut short.
    pub stream: S,
    /// The predicate an item must satisfy for the prefix to continue.
    pub pred: F,
    /// Whether this stream already ended or failed.
    pub over: bool,
}

impl<T: 'static, E: 'static, S, F> Stream<T, E> for StreamTakeWhile<S, F>
    where S: Stream<T, E>, F: Fn(&T) -> bool + 'static,
{
    open spec fn wf(&self) -> bool {
        !self.over ==> {
            &&& self.stream.wf()
            &&& !self.stream.done()
            &&& forall|v: T| self.stream.may_emit(Some(v)) ==> call_requires(self.pred, (&v,))
        }
    }

    open spec fn done(&self) -> bool {
        self.over
    }

    open spec fn may_emit(&self, item: Option<T>) -> bool {
        match item {
            None => !self.over,
            Some(v) => !self.over && self.stream.may_emit(Some(v))
                && call_ensures(self.pred, (&v,), true),
        }
    }

    open spec fn may_fail(&self, e: E) -> bool {
        !self.over && self.stream.may_fail(e)
    }

    fn poll(&mut self, task: &mut Task) -> (r: Poll<Option<T>, E>) {
        match self.stream.poll(task) {
            Poll::NotReady => Poll::NotReady,
            Poll::Failed(e) => {
                self.over = true;
                Poll::Failed(e)
            },
            Poll::Ready(None) => {
                self.over = true;
                Poll::Ready(None)
            },
            Poll::Ready(Some(v)) => {
                let ghost witness = v;
                if (self.pred)(&v) {
                    proof {
                        assert(old(self).stream.may_emit(Some(witness)));
                    }
                    Poll::Ready(Some(v))
                } else {
                    self.over = true;
                    Poll::Ready(None)
                }
            },
        }
    }

    fn schedule(&mut self, task: &mut Task) {
        self.stream.schedule(task)
    }
}

/// Yield the items of `stream` until one fails `pred`; that item is dropped
/// and the stream ends there. The predicate must accept every item the
/// stream can emit.
pub fn take_while_stream<T: 'static, E: 'static, S, F>(stream: S, pred: F)
    -> (r: StreamTakeWhile<S, F>)
    where S: Stream<T, E>, F: Fn(&T) -> bool + 'static,
    requires
        stream.wf(),
        !stream.done(),
        forall|v: T| stream.may_emit(Some(v)) ==> call_requires(pred, (&v,)),
    ensures
        r == (StreamTakeWhile { stream, pred, over: false }),
        r.wf(),
        !r.done(),
{
    StreamTakeWhile { stream, pred, over: false }
}

} // verus!
