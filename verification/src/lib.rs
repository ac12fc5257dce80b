//! Composable futures: a polling-driven algebra of deferred computations.
//!
//! A future is a placeholder for a value that becomes available later. The
//! combinators here (`map`, `and_then`, `join`, `select`, ...) compose
//! futures structurally: each combinator is a value holding its children,
//! and polling the root polls the children it is waiting on.
//!
//! Every future carries a specification-level model: `wf` (well-formedness,
//! established by the constructors and preserved by polling), `done`
//! (whether it has already yielded a completed result), `may_produce` (the
//! set of results it can still complete with) and `must_complete` (a
//! readiness floor: such a future completes on its next poll). The polling
//! contract ties the executable behaviour to that model, and the `laws`
//! module proves the algebraic laws of the combinators over it.

use vstd::prelude::*;

pub mod poll;
pub mod task;
pub mod done;
pub mod map;
pub mod map_err;
pub mod and_then;
pub mod or_else;
pub mod then;
pub mod flatten;
pub mod fuse;
pub mod join;
pub mod select;
pub mod select_all;
pub mod empty;
pub mod lazy;
pub mod queue;
pub mod slot;
pub mod promise;
pub mod stream;
pub mod executor;
pub mod laws;
pub mod convert;
pub mod boxed;
pub mod collect;

pub use poll::Poll;
pub use task::Task;
pub use task::TaskHandle;
pub use done::Done;
pub use done::done;
pub use done::finished;
pub use done::failed;
pub use map::Mapped;
pub use map_err::MapErr;
pub use map_err::map_err;
pub use and_then::AndThen;
pub use and_then::and_then;
pub use or_else::OrElse;
pub use or_else::or_else;
pub use then::Then;
pub use then::then;
pub use flatten::Flatten;
pub use flatten::flatten;
pub use fuse::Fuse;
pub use fuse::fuse;
pub use join::Join;
pub use join::Side;
pub use join::join;
pub use join::Join3;
pub use join::Join4;
pub use join::Join5;
pub use join::join3;
pub use join::join4;
pub use join::join5;
pub use select::Select;
pub use select::SelectNext;
pub use select::select;
pub use select::refines;
pub use select_all::SelectAll;
pub use select_all::select_all;
pub use empty::Empty;
pub use empty::empty;
pub use lazy::Lazy;
pub use lazy::lazy;
pub use promise::Promise;
pub use promise::Complete;
pub use promise::Canceled;
pub use promise::promise;
pub use stream::Stream;
pub use executor::run;
pub use executor::forget;
pub use boxed::BoxFuture;
pub use boxed::boxed;
pub use collect::Collect;
pub use collect::collect;
pub use slot::SlotCore;

verus! {

use crate::poll::Poll as PollResult;

/// A placeholder for a value of type `T`, or an error of type `E`, that
/// becomes available at some later point in time.
///
/// The model has four parts. `wf` is the well-formedness invariant that
/// this library's constructors establish and polling preserves. `done` says
/// whether the future has already yielded a completed result; polling a
/// completed future is a contract violation (`Fuse` is the one adaptor that
/// defines behaviour past completion, and so is the one future that never
/// counts as done). `may_produce` is the set of results the future can
/// still complete with: polling can only narrow it, and a completed result
/// always lies in the set the future had before the poll. `must_complete`
/// is the readiness floor: a poll may return `NotReady` only when it does
/// not hold, so a future carrying it completes on its next poll.
pub trait Future<T, E> where T: 'static, E: 'static {
    /// Well-formedness: holds of every future built by this library's
    /// constructors and is preserved by polling and scheduling.
    spec fn wf(&self) -> bool;

    /// Whether this future has already yielded a completed result.
    spec fn done(&self) -> bool;

    /// The set of results this future can still complete with.
    spec fn may_produce(&self, r: Result<T, E>) -> bool;

    /// A readiness floor: a future for which this holds completes on its
    /// next poll. Immediate futures carry it outright; combinators carry it
    /// when every child on their active front does; futures waiting on the
    /// outside world never do.
    spec fn must_complete(&self) -> bool;

    /// Ask the future whether its value is ready. Never blocks. A completed
    /// result is always one the future could produce; `NotReady` leaves the
    /// future pending and can only narrow what it may still produce.
    fn poll(&mut self, task: &mut Task) -> (r: PollResult<T, E>)
        requires
            old(self).wf(),
            !old(self).done(),
        ensures
            final(self).wf(),
            match r {
                PollResult::NotReady => !final(self).done() && !old(self).must_complete()
                    && (forall|x: Result<T, E>|
                    final(self).may_produce(x) ==> old(self).may_produce(x)),
                PollResult::Ready(v) => old(self).may_produce(Ok(v)),
                PollResult::Failed(e) => old(self).may_produce(Err(e)),
            },
    ;

    /// Register the running task for a wakeup when this future can next make
    /// progress. Only the most recent registration is kept; spurious wakeups
    /// are allowed. Scheduling never completes the future and never widens
    /// what it may produce.
    fn schedule(&mut self, task: &mut Task)
        requires
            old(self).wf(),
            !old(self).done(),
        ensures
            final(self).wf(),
            !final(self).done(),
            forall|x: Result<T, E>| final(self).may_produce(x) ==> old(self).may_produce(x),
    ;

}

/// A boxed future is itself a future; its model is the boxed one's.
impl<T: 'static, E: 'static> Future<T, E> for Box<dyn Future<T, E>> {
    open spec fn wf(&self) -> bool {
        (**self).wf()
    }

    open spec fn done(&self) -> bool {
        (**self).done()
    }

    open spec fn may_produce(&self, r: Result<T, E>) -> bool {
        (**self).may_produce(r)
    }

    open spec fn must_complete(&self) -> bool {
        (**self).must_complete()
    }

    fn poll(&mut self, task: &mut Task) -> (r: PollResult<T, E>) {
        (**self).poll(task)
    }

    fn schedule(&mut self, task: &mut Task) {
        (**self).schedule(task)
    }

}

/// Class of types which can be converted into a future, as `IntoIterator`
/// converts into an iterator. `fut_wf` says when the conversion yields a
/// well-formed pending future, and `fut_may_produce` bounds what that
/// future may complete with.
pub trait IntoFuture<T, E>: Sized where T: 'static, E: 'static {
    /// The future this type converts into.
    type Future: Future<T, E>;

    /// Whether the conversion yields a well-formed, not yet completed future.
    spec fn fut_wf(self) -> bool;

    /// What the converted future may complete with.
    spec fn fut_may_produce(self, r: Result<T, E>) -> bool;

    /// Whether the converted future completes on its next poll.
    spec fn fut_must_complete(self) -> bool;

    /// Consume this value and produce a future.
    fn into_future(self) -> (f: Self::Future)
        requires
            self.fut_wf(),
        ensures
            f.wf(),
            !f.done(),
            forall|r: Result<T, E>| f.may_produce(r) ==> self.fut_may_produce(r),
            self.fut_must_complete() ==> f.must_complete(),
    ;
}

/// A result converts into a future that completes immediately with it.
impl<T: 'static, E: 'static> IntoFuture<T, E> for Result<T, E> {
    type Future = Done<T, E>;

    open spec fn fut_wf(self) -> bool {
        true
    }

    open spec fn fut_may_produce(self, r: Result<T, E>) -> bool {
        r == self
    }

    open spec fn fut_must_complete(self) -> bool {
        true
    }

    fn into_future(self) -> (f: Done<T, E>)
        ensures
            f == (Done::<T, E> { result: Some(self) }),
    {
        done(self)
    }
}

/// Helper pinning the item and error type a future resolves with; useful
/// for type inference when composing combinators.
pub fn assert_future<T: 'static, E: 'static, F: Future<T, E>>(t: F) -> (r: F)
    ensures
        r == t,
{
    t
}

} // verus!
