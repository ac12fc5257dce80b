//! The tri-state outcome of polling a future.

use vstd::prelude::*;

verus! {

/// One poll of a future: not ready yet, or completed with a success or an
/// error. A future that has returned `Ready` or `Failed` is completed.
pub enum Poll<T, E> {
    /// The value is not available yet.
    NotReady,
    /// The future completed successfully with this value.
    Ready(T),
    /// The future completed with this error.
    Failed(E),
}

impl<T, E> Poll<T, E> {
    /// True when the poll carries a completed result, success or error.
    pub open spec fn spec_is_ready(&self) -> bool {
        !(self is NotReady)
    }

    /// The completed result this poll carries, if any.
    pub open spec fn spec_result(&self) -> Option<Result<T, E>> {
        match self {
            Poll::NotReady => None,
            Poll::Ready(v) => Some(Ok(*v)),
            Poll::Failed(e) => Some(Err(*e)),
        }
    }

    /// True when the poll carries a completed result, success or error.
    pub fn is_ready(&self) -> (r: bool)
        ensures
            r == self.spec_is_ready(),
    {
        match self {
            Poll::NotReady => false,
            Poll::Ready(_) => true,
            Poll::Failed(_) => true,
        }
    }

    /// True when the poll carries no result yet.
    pub fn is_not_ready(&self) -> (r: bool)
        ensures
            r == !self.spec_is_ready(),
    {
        match self {
            Poll::NotReady => true,
            Poll::Ready(_) => false,
            Poll::Failed(_) => false,
        }
    }

    /// Transform the success payload, leaving the other states as they are.
    pub fn map<U, F: FnOnce(T) -> U>(self, f: F) -> (r: Poll<U, E>)
        requires
            forall|v: T| self == Poll::<T, E>::Ready(v) ==> call_requires(f, (v,)),
        ensures
            match self {
                Poll::NotReady => r is NotReady,
                Poll::Ready(v) => r matches Poll::Ready(u) && call_ensures(f, (v,), u),
                Poll::Failed(e) => r == Poll::<U, E>::Failed(e),
            },
    {
        match self {
            Poll::NotReady => Poll::NotReady,
            Poll::Ready(v) => Poll::Ready(f(v)),
            Poll::Failed(e) => Poll::Failed(e),
        }
    }

    /// Transform the error payload, leaving the other states as they are.
    pub fn map_err<U, F: FnOnce(E) -> U>(self, f: F) -> (r: Poll<T, U>)
        requires
            forall|e: E| self == Poll::<T, E>::Failed(e) ==> call_requires(f, (e,)),
        ensures
            match self {
                Poll::NotReady => r is NotReady,
                Poll::Ready(v) => r == Poll::<T, U>::Ready(v),
                Poll::Failed(e) => r matches Poll::Failed(u) && call_ensures(f, (e,), u),
            },
    {
        match self {
            Poll::NotReady => Poll::NotReady,
            Poll::Ready(v) => Poll::Ready(v),
            Poll::Failed(e) => Poll::Failed(f(e)),
        }
    }
}

} // verus!
