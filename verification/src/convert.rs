//! Conversions of each future into itself: every future is trivially
//! `IntoFuture`, with its own model carried over unchanged.

use vstd::prelude::*;
use crate::Future;
use crate::IntoFuture;
use crate::empty::Empty;
use crate::lazy::Lazy;
use crate::map::Mapped;
use crate::map_err::MapErr;
use crate::then::Then;
use crate::and_then::AndThen;
use crate::or_else::OrElse;
use crate::flatten::Flatten;
use crate::fuse::Fuse;
use crate::join::Join;
use crate::select::Select;
use crate::select::SelectNext;
use crate::promise::Promise;
use crate::promise::Canceled;
use crate::stream::Sender;
use crate::stream::SendError;
use crate::stream::FutureSender;
use crate::stream::BoundedSender;
use crate::stream::BoundedFutureSender;

verus! {

impl<T: 'static, E: 'static> IntoFuture<T, E> for Empty<T, E> {
    type Future = Empty<T, E>;

    open spec fn fut_wf(self) -> bool {
        self.wf() && !self.done()
    }

    open spec fn fut_may_produce(self, r: Result<T, E>) -> bool {
        self.may_produce(r)
    }

    open spec fn fut_must_complete(self) -> bool {
        self.must_complete()
    }

    fn into_future(self) -> (f: Empty<T, E>)
        ensures
            f == self,
    {
        self
    }
}

impl<T: 'static, E: 'static, R, F> IntoFuture<T, E> for Lazy<T, E, R, F>
    where R: IntoFuture<T, E>, F: FnOnce() -> R + 'static {
    type Future = Lazy<T, E, R, F>;

    open spec fn fut_wf(self) -> bool {
        self.wf() && !self.done()
    }

    open spec fn fut_may_produce(self, r: Result<T, E>) -> bool {
        self.may_produce(r)
    }

    open spec fn fut_must_complete(self) -> bool {
        self.must_complete()
    }

    fn into_future(self) -> (f: Lazy<T, E, R, F>)
        ensures
            f == self,
    {
        self
    }
}

impl<T0: 'static, T: 'static, E: 'static, A, F> IntoFuture<T, E> for Mapped<T0, A, F>
    where A: Future<T0, E>, F: FnOnce(T0) -> T + 'static {
    type Future = Mapped<T0, A, F>;

    open spec fn fut_wf(self) -> bool {
        self.wf() && !self.done()
    }

    open spec fn fut_may_produce(self, r: Result<T, E>) -> bool {
        self.may_produce(r)
    }

    open spec fn fut_must_complete(self) -> bool {
        self.must_complete()
    }

    fn into_future(self) -> (f: Mapped<T0, A, F>)
        ensures
            f == self,
    {
        self
    }
}

impl<E0: 'static, T: 'static, E: 'static, A, F> IntoFuture<T, E> for MapErr<E0, A, F>
    where A: Future<T, E0>, F: FnOnce(E0) -> E + 'static {
    type Future = MapErr<E0, A, F>;

    open spec fn fut_wf(self) -> bool {
        self.wf() && !self.done()
    }

    open spec fn fut_may_produce(self, r: Result<T, E>) -> bool {
        self.may_produce(r)
    }

    open spec fn fut_must_complete(self) -> bool {
        self.must_complete()
    }

    fn into_future(self) -> (f: MapErr<E0, A, F>)
        ensures
            f == self,
    {
        self
    }
}

impl<T0: 'static, E0: 'static, T: 'static, E: 'static, A, B, F> IntoFuture<T, E>
    for Then<T0, E0, T, E, A, B, F>
    where A: Future<T0, E0>, B: IntoFuture<T, E>, F: FnOnce(Result<T0, E0>) -> B + 'static {
    type Future = Then<T0, E0, T, E, A, B, F>;

    open spec fn fut_wf(self) -> bool {
        self.wf() && !self.done()
    }

    open spec fn fut_may_produce(self, r: Result<T, E>) -> bool {
        self.may_produce(r)
    }

    open spec fn fut_must_complete(self) -> bool {
        self.must_complete()
    }

    fn into_future(self) -> (f: Then<T0, E0, T, E, A, B, F>)
        ensures
            f == self,
    {
        self
    }
}

impl<T0: 'static, T: 'static, E: 'static, A, B, F> IntoFuture<T, E>
    for AndThen<T0, T, E, A, B, F>
    where A: Future<T0, E>, B: IntoFuture<T, E>, F: FnOnce(T0) -> B + 'static {
    type Future = AndThen<T0, T, E, A, B, F>;

    open spec fn fut_wf(self) -> bool {
        self.wf() && !self.done()
    }

    open spec fn fut_may_produce(self, r: Result<T, E>) -> bool {
        self.may_produce(r)
    }

    open spec fn fut_must_complete(self) -> bool {
        self.must_complete()
    }

    fn into_future(self) -> (f: AndThen<T0, T, E, A, B, F>)
        ensures
            f == self,
    {
        self
    }
}

impl<T: 'static, E0: 'static, E: 'static, A, B, F> IntoFuture<T, E>
    for OrElse<T, E0, E, A, B, F>
    where A: Future<T, E0>, B: IntoFuture<T, E>, F: FnOnce(E0) -> B + 'static {
    type Future = OrElse<T, E0, E, A, B, F>;

    open spec fn fut_wf(self) -> bool {
        self.wf() && !self.done()
    }

    open spec fn fut_may_produce(self, r: Result<T, E>) -> bool {
        self.may_produce(r)
    }

    open spec fn fut_must_complete(self) -> bool {
        self.must_complete()
    }

    fn into_future(self) -> (f: OrElse<T, E0, E, A, B, F>)
        ensures
            f == self,
    {
        self
    }
}

impl<T: 'static, E: 'static, D: 'static, A, B> IntoFuture<T, D> for Flatten<T, E, D, A, B>
    where A: Future<B, E>, B: IntoFuture<T, D>, B: 'static, D: From<E> {
    type Future = Flatten<T, E, D, A, B>;

    open spec fn fut_wf(self) -> bool {
        self.wf() && !self.done()
    }

    open spec fn fut_may_produce(self, r: Result<T, D>) -> bool {
        self.may_produce(r)
    }

    open spec fn fut_must_complete(self) -> bool {
        self.must_complete()
    }

    fn into_future(self) -> (f: Flatten<T, E, D, A, B>)
        ensures
            f == self,
    {
        self
    }
}

impl<T: 'static, E: 'static, A: Future<T, E>> IntoFuture<T, E> for Fuse<A> {
    type Future = Fuse<A>;

    open spec fn fut_wf(self) -> bool {
        self.wf() && !self.done()
    }

    open spec fn fut_may_produce(self, r: Result<T, E>) -> bool {
        self.may_produce(r)
    }

    open spec fn fut_must_complete(self) -> bool {
        self.must_complete()
    }

    fn into_future(self) -> (f: Fuse<A>)
        ensures
            f == self,
    {
        self
    }
}

impl<T: 'static> IntoFuture<T, Canceled> for Promise<T> {
    type Future = Promise<T>;

    open spec fn fut_wf(self) -> bool {
        self.wf() && !self.done()
    }

    open spec fn fut_may_produce(self, r: Result<T, Canceled>) -> bool {
        self.may_produce(r)
    }

    open spec fn fut_must_complete(self) -> bool {
        self.must_complete()
    }

    fn into_future(self) -> (f: Promise<T>)
        ensures
            f == self,
    {
        self
    }
}

impl<T: 'static, E: 'static> IntoFuture<Sender<T, E>, SendError<T, E>> for FutureSender<T, E> {
    type Future = FutureSender<T, E>;

    open spec fn fut_wf(self) -> bool {
        self.wf() && !self.done()
    }

    open spec fn fut_may_produce(self, r: Result<Sender<T, E>, SendError<T, E>>) -> bool {
        self.may_produce(r)
    }

    open spec fn fut_must_complete(self) -> bool {
        self.must_complete()
    }

    fn into_future(self) -> (f: FutureSender<T, E>)
        ensures
            f == self,
    {
        self
    }
}

impl<T: 'static, E: 'static> IntoFuture<BoundedSender<T, E>, SendError<T, E>>
    for BoundedFutureSender<T, E>
{
    type Future = BoundedFutureSender<T, E>;

    open spec fn fut_wf(self) -> bool {
        self.wf() && !self.done()
    }

    open spec fn fut_may_produce(self, r: Result<BoundedSender<T, E>, SendError<T, E>>) -> bool {
        self.may_produce(r)
    }

    open spec fn fut_must_complete(self) -> bool {
        self.must_complete()
    }

    fn into_future(self) -> (f: BoundedFutureSender<T, E>)
        ensures
            f == self,
    {
        self
    }
}

impl<T1: 'static, T2: 'static, E: 'static, A, B> IntoFuture<(T1, T2), E> for Join<A, B, T1, T2>
    where A: Future<T1, E>, B: Future<T2, E>
{
    type Future = Join<A, B, T1, T2>;

    open spec fn fut_wf(self) -> bool {
        self.wf() && !self.done()
    }

    open spec fn fut_may_produce(self, r: Result<(T1, T2), E>) -> bool {
        self.may_produce(r)
    }

    open spec fn fut_must_complete(self) -> bool {
        self.must_complete()
    }

    fn into_future(self) -> (f: Join<A, B, T1, T2>)
        ensures
            f == self,
    {
        self
    }
}

impl<T: 'static, E: 'static, A, B> IntoFuture<(T, SelectNext<A, B>), (E, SelectNext<A, B>)>
    for Select<A, B>
    where A: Future<T, E> + 'static, B: Future<T, E> + 'static
{
    type Future = Select<A, B>;

    open spec fn fut_wf(self) -> bool {
        self.wf() && !self.done()
    }

    open spec fn fut_may_produce(self, r: Result<(T, SelectNext<A, B>), (E, SelectNext<A, B>)>)
        -> bool
    {
        self.may_produce(r)
    }

    open spec fn fut_must_complete(self) -> bool {
        self.must_complete()
    }

    fn into_future(self) -> (f: Select<A, B>)
        ensures
            f == self,
    {
        self
    }
}

impl<T: 'static, E: 'static, A, B> IntoFuture<T, E> for SelectNext<A, B>
    where A: Future<T, E>, B: Future<T, E>
{
    type Future = SelectNext<A, B>;

    open spec fn fut_wf(self) -> bool {
        self.wf() && !self.done()
    }

    open spec fn fut_may_produce(self, r: Result<T, E>) -> bool {
        self.may_produce(r)
    }

    open spec fn fut_must_complete(self) -> bool {
        self.must_complete()
    }

    fn into_future(self) -> (f: SelectNext<A, B>)
        ensures
            f == self,
    {
        self
    }
}

} // verus!

