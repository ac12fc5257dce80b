//! Wait for two futures to complete and pair their results.

use vstd::prelude::*;
use crate::Future;
use crate::Task;
use crate::poll::Poll;

verus! {

/// One side of a join: the future still running, its successful value once
/// it arrived, or nothing once the join completed or cancelled it.
pub enum Side<A, T> {
    /// The future on this side, still running.
    Waiting(A),
    /// This side succeeded with this value; the other side is still running.
    Got(T),
    /// This side was consumed: the join completed, failed, or cancelled it.
    Gone,
}

impl<A, T> Side<A, T> {
    /// Well-formedness of the side: a future still running is itself
    /// well-formed and pending.
    pub open spec fn wf<E>(&self) -> bool where A: Future<T, E>, T: 'static, E: 'static {
        match self {
            Side::Waiting(a) => a.wf() && !a.done(),
            Side::Got(_) => true,
            Side::Gone => true,
        }
    }

    /// Whether this side can still contribute the successful value `v`.
    pub open spec fn may_ok<E>(&self, v: T) -> bool
        where A: Future<T, E>, T: 'static, E: 'static
    {
        match self {
            Side::Waiting(a) => a.may_produce(Ok(v)),
            Side::Got(x) => x == v,
            Side::Gone => false,
        }
    }

    /// Whether this side completes its part on the next poll: its future
    /// completes, or its value already arrived.
    pub open spec fn must_complete<E>(&self) -> bool
        where A: Future<T, E>, T: 'static, E: 'static
    {
        match self {
            Side::Waiting(a) => a.must_complete(),
            Side::Got(_) => true,
            Side::Gone => false,
        }
    }

    /// Whether this side can still fail with the error `e`.
    pub open spec fn may_err<E>(&self, e: E) -> bool
        where A: Future<T, E>, T: 'static, E: 'static
    {
        match self {
            Side::Waiting(a) => a.may_produce(Err(e)),
            Side::Got(_) => false,
            Side::Gone => false,
        }
    }

    /// Poll this side forward if its future is still running. Hands back an
    /// error the moment the future fails, leaving this side consumed; keeps
    /// a successful value for the join to collect.
    fn advance<E>(&mut self, task: &mut Task) -> (r: Option<E>)
        where A: Future<T, E>, T: 'static, E: 'static
        requires
            old(self).wf(),
            !(*old(self) is Gone),
        ensures
            final(self).wf(),
            match r {
                None => {
                    &&& !(*final(self) is Gone)
                    &&& (*final(self) is Waiting ==> !old(self).must_complete())
                    &&& forall|v: T| final(self).may_ok(v) ==> old(self).may_ok(v)
                    &&& forall|e: E| final(self).may_err(e) ==> old(self).may_err(e)
                },
                Some(e) => old(self).may_err(e) && *final(self) is Gone,
            },
    {
        let mut held = Side::Gone;
        core::mem::swap(&mut held, self);
        match held {
            Side::Got(v) => {
                *self = Side::Got(v);
                None
            },
            Side::Waiting(mut a) => {
                match a.poll(task) {
                    Poll::NotReady => {
                        *self = Side::Waiting(a);
                        None
                    },
                    Poll::Ready(v) => {
                        *self = Side::Got(v);
                        None
                    },
                    Poll::Failed(e) => Some(e),
                }
            },
            Side::Gone => {
                proof {
                    assert(false);
                }
                None
            },
        }
    }

    /// Whether this side holds a successful value already.
    fn has_value(&self) -> (r: bool)
        ensures
            r == (*self is Got),
    {
        match self {
            Side::Got(_) => true,
            Side::Waiting(_) => false,
            Side::Gone => false,
        }
    }

    /// Collect the successful value of this side, consuming it.
    fn collect_value<E>(&mut self) -> (v: T)
        where A: Future<T, E>, T: 'static, E: 'static
        requires
            *old(self) is Got,
        ensures
            old(self).may_ok::<E>(v),
            *final(self) is Gone,
    {
        let mut held = Side::Gone;
        core::mem::swap(&mut held, self);
        match held {
            Side::Got(v) => v,
            _ => vstd::pervasive::unreached(),
        }
    }
}

/// A future that waits for two futures and completes with the pair of their
/// successful values. The moment either future fails, the other is dropped
/// (cancelled) and the join completes with that error.
pub struct Join<A, B, T1, T2> {
    /// The first future's side.
    pub a: Side<A, T1>,
    /// The second future's side.
    pub b: Side<B, T2>,
}

impl<T1: 'static, T2: 'static, E: 'static, A, B> Future<(T1, T2), E> for Join<A, B, T1, T2>
    where A: Future<T1, E>, B: Future<T2, E>,
{
    open spec fn wf(&self) -> bool {
        &&& self.a.wf::<E>()
        &&& self.b.wf::<E>()
        &&& (self.a is Gone <==> self.b is Gone)
    }

    open spec fn done(&self) -> bool {
        self.a is Gone && self.b is Gone
    }

    open spec fn may_produce(&self, r: Result<(T1, T2), E>) -> bool {
        match r {
            Result::Ok(pair) => self.a.may_ok::<E>(pair.0) && self.b.may_ok::<E>(pair.1),
            Result::Err(e) => self.a.may_err(e) || self.b.may_err(e),
        }
    }

    open spec fn must_complete(&self) -> bool {
        self.a.must_complete::<E>() && self.b.must_complete::<E>()
    }

    fn poll(&mut self, task: &mut Task) -> (r: Poll<(T1, T2), E>) {
        if !self.a.has_value() {
            match self.a.advance(task) {
                Some(e) => {
                    self.b = Side::Gone;
                    return Poll::Failed(e);
                },
                None => (),
            }
        }
        if !self.b.has_value() {
            match self.b.advance(task) {
                Some(e) => {
                    self.a = Side::Gone;
                    return Poll::Failed(e);
                },
                None => (),
            }
        }
        if self.a.has_value() && self.b.has_value() {
            let va = self.a.collect_value();
            let vb = self.b.collect_value();
            Poll::Ready((va, vb))
        } else {
            Poll::NotReady
        }
    }

    fn schedule(&mut self, task: &mut Task) {
        match &mut self.a {
            Side::Waiting(a) => a.schedule(task),
            _ => (),
        }
        match &mut self.b {
            Side::Waiting(b) => b.schedule(task),
            _ => (),
        }
    }
}

/// Wait for both `a` and `b` and complete with the pair of their values; if
/// either fails, drop the other and complete with that error.
pub fn join<T1: 'static, T2: 'static, E: 'static, A, B>(a: A, b: B) -> (r: Join<A, B, T1, T2>)
    where A: Future<T1, E>, B: Future<T2, E>,
    requires
        a.wf(),
        !a.done(),
        b.wf(),
        !b.done(),
    ensures
        r == (Join { a: Side::<A, T1>::Waiting(a), b: Side::<B, T2>::Waiting(b) }),
        r.wf(),
        !r.done(),
{
    Join { a: Side::Waiting(a), b: Side::Waiting(b) }
}

/// A future that waits for three futures and completes with the tuple of
/// their successful values. The moment any of them fails, the others are
/// dropped (cancelled) and the join completes with that error.
pub struct Join3<A, B, C, T1, T2, T3> {
    /// The first future's side.
    pub a: Side<A, T1>,
    /// The second future's side.
    pub b: Side<B, T2>,
    /// The third future's side.
    pub c: Side<C, T3>,
}

impl<T1: 'static, T2: 'static, T3: 'static, E: 'static, A, B, C> Future<(T1, T2, T3), E> for Join3<A, B, C, T1, T2, T3>
    where A: Future<T1, E>, B: Future<T2, E>, C: Future<T3, E>,
{
    open spec fn wf(&self) -> bool {
        &&& self.a.wf::<E>()
        &&& self.b.wf::<E>()
        &&& self.c.wf::<E>()
        &&& (self.a is Gone <==> self.b is Gone)
        &&& (self.a is Gone <==> self.c is Gone)
    }

    open spec fn done(&self) -> bool {
        self.a is Gone && self.b is Gone && self.c is Gone
    }

    open spec fn may_produce(&self, r: Result<(T1, T2, T3), E>) -> bool {
        match r {
            Result::Ok(tuple) => self.a.may_ok::<E>(tuple.0) && self.b.may_ok::<E>(tuple.1) && self.c.may_ok::<E>(tuple.2),
            Result::Err(e) => self.a.may_err(e) || self.b.may_err(e) || self.c.may_err(e),
        }
    }

    open spec fn must_complete(&self) -> bool {
        self.a.must_complete::<E>() && self.b.must_complete::<E>() && self.c.must_complete::<E>()
    }

    fn poll(&mut self, task: &mut Task) -> (r: Poll<(T1, T2, T3), E>) {
        if !self.a.has_value() {
            match self.a.advance(task) {
                Some(e) => {
                    self.b = Side::Gone;
                    self.c = Side::Gone;
                    return Poll::Failed(e);
                },
                None => (),
            }
        }
        if !self.b.has_value() {
            match self.b.advance(task) {
                Some(e) => {
                    self.a = Side::Gone;
                    self.c = Side::Gone;
                    return Poll::Failed(e);
                },
                None => (),
            }
        }
        if !self.c.has_value() {
            match self.c.advance(task) {
                Some(e) => {
                    self.a = Side::Gone;
                    self.b = Side::Gone;
                    return Poll::Failed(e);
                },
                None => (),
            }
        }
        if self.a.has_value() && self.b.has_value() && self.c.has_value() {
            let va = self.a.collect_value();
            let vb = self.b.collect_value();
            let vc = self.c.collect_value();
            Poll::Ready((va, vb, vc))
        } else {
            Poll::NotReady
        }
    }

    fn schedule(&mut self, task: &mut Task) {
        match &mut self.a {
            Side::Waiting(f) => f.schedule(task),
            _ => (),
        }
        match &mut self.b {
            Side::Waiting(f) => f.schedule(task),
            _ => (),
        }
        match &mut self.c {
            Side::Waiting(f) => f.schedule(task),
            _ => (),
        }
    }
}

/// Wait for all of `a`, `b`, `c` and complete with the tuple of their values; if
/// any fails, drop the others and complete with that error.
pub fn join3<T1: 'static, T2: 'static, T3: 'static, E: 'static, A, B, C>(a: A, b: B, c: C) -> (r: Join3<A, B, C, T1, T2, T3>)
    where A: Future<T1, E>, B: Future<T2, E>, C: Future<T3, E>,
    requires
        a.wf(),
        !a.done(),
        b.wf(),
        !b.done(),
        c.wf(),
        !c.done(),
    ensures
        r == (Join3 { a: Side::<A, T1>::Waiting(a), b: Side::<B, T2>::Waiting(b), c: Side::<C, T3>::Waiting(c) }),
        r.wf(),
        !r.done(),
{
    Join3 { a: Side::Waiting(a), b: Side::Waiting(b), c: Side::Waiting(c) }
}

/// A future that waits for four futures and completes with the tuple of
/// their successful values. The moment any of them fails, the others are
/// dropped (cancelled) and the join completes with that error.
pub struct Join4<A, B, C, D, T1, T2, T3, T4> {
    /// The first future's side.
    pub a: Side<A, T1>,
    /// The second future's side.
    pub b: Side<B, T2>,
    /// The third future's side.
    pub c: Side<C, T3>,
    /// The fourth future's side.
    pub d: Side<D, T4>,
}

impl<T1: 'static, T2: 'static, T3: 'static, T4: 'static, E: 'static, A, B, C, D> Future<(T1, T2, T3, T4), E> for Join4<A, B, C, D, T1, T2, T3, T4>
    where A: Future<T1, E>, B: Future<T2, E>, C: Future<T3, E>, D: Future<T4, E>,
{
    open spec fn wf(&self) -> bool {
        &&& self.a.wf::<E>()
        &&& self.b.wf::<E>()
        &&& self.c.wf::<E>()
        &&& self.d.wf::<E>()
        &&& (self.a is Gone <==> self.b is Gone)
        &&& (self.a is Gone <==> self.c is Gone)
        &&& (self.a is Gone <==> self.d is Gone)
    }

    open spec fn done(&self) -> bool {
        self.a is Gone && self.b is Gone && self.c is Gone && self.d is Gone
    }

    open spec fn may_produce(&self, r: Result<(T1, T2, T3, T4), E>) -> bool {
        match r {
            Result::Ok(tuple) => self.a.may_ok::<E>(tuple.0) && self.b.may_ok::<E>(tuple.1) && self.c.may_ok::<E>(tuple.2) && self.d.may_ok::<E>(tuple.3),
            Result::Err(e) => self.a.may_err(e) || self.b.may_err(e) || self.c.may_err(e) || self.d.may_err(e),
        }
    }

    open spec fn must_complete(&self) -> bool {
        self.a.must_complete::<E>() && self.b.must_complete::<E>() && self.c.must_complete::<E>() && self.d.must_complete::<E>()
    }

    fn poll(&mut self, task: &mut Task) -> (r: Poll<(T1, T2, T3, T4), E>) {
        if !self.a.has_value() {
            match self.a.advance(task) {
                Some(e) => {
                    self.b = Side::Gone;
                    self.c = Side::Gone;
                    self.d = Side::Gone;
                    return Poll::Failed(e);
                },
                None => (),
            }
        }
        if !self.b.has_value() {
            match self.b.advance(task) {
                Some(e) => {
                    self.a = Side::Gone;
                    self.c = Side::Gone;
                    self.d = Side::Gone;
                    return Poll::Failed(e);
                },
                None => (),
            }
        }
        if !self.c.has_value() {
            match self.c.advance(task) {
                Some(e) => {
                    self.a = Side::Gone;
                    self.b = Side::Gone;
                    self.d = Side::Gone;
                    return Poll::Failed(e);
                },
                None => (),
            }
        }
        if !self.d.has_value() {
            match self.d.advance(task) {
                Some(e) => {
                    self.a = Side::Gone;
                    self.b = Side::Gone;
                    self.c = Side::Gone;
                    return Poll::Failed(e);
                },
                None => (),
            }
        }
        if self.a.has_value() && self.b.has_value() && self.c.has_value() && self.d.has_value() {
            let va = self.a.collect_value();
            let vb = self.b.collect_value();
            let vc = self.c.collect_value();
            let vd = self.d.collect_value();
            Poll::Ready((va, vb, vc, vd))
        } else {
            Poll::NotReady
        }
    }

    fn schedule(&mut self, task: &mut Task) {
        match &mut self.a {
            Side::Waiting(f) => f.schedule(task),
            _ => (),
        }
        match &mut self.b {
            Side::Waiting(f) => f.schedule(task),
            _ => (),
        }
        match &mut self.c {
            Side::Waiting(f) => f.schedule(task),
            _ => (),
        }
        match &mut self.d {
            Side::Waiting(f) => f.schedule(task),
            _ => (),
        }
    }
}

/// Wait for all of `a`, `b`, `c`, `d` and complete with the tuple of their values; if
/// any fails, drop the others and complete with that error.
pub fn join4<T1: 'static, T2: 'static, T3: 'static, T4: 'static, E: 'static, A, B, C, D>(a: A, b: B, c: C, d: D) -> (r: Join4<A, B, C, D, T1, T2, T3, T4>)
    where A: Future<T1, E>, B: Future<T2, E>, C: Future<T3, E>, D: Future<T4, E>,
    requires
        a.wf(),
        !a.done(),
        b.wf(),
        !b.done(),
        c.wf(),
        !c.done(),
        d.wf(),
        !d.done(),
    ensures
        r == (Join4 { a: Side::<A, T1>::Waiting(a), b: Side::<B, T2>::Waiting(b), c: Side::<C, T3>::Waiting(c), d: Side::<D, T4>::Waiting(d) }),
        r.wf(),
        !r.done(),
{
    Join4 { a: Side::Waiting(a), b: Side::Waiting(b), c: Side::Waiting(c), d: Side::Waiting(d) }
}

/// A future that waits for five futures and completes with the tuple of
/// their successful values. The moment any of them fails, the others are
/// dropped (cancelled) and the join completes with that error.
pub struct Join5<A, B, C, D, V, T1, T2, T3, T4, T5> {
    /// The first future's side.
    pub a: Side<A, T1>,
    /// The second future's side.
    pub b: Side<B, T2>,
    /// The third future's side.
    pub c: Side<C, T3>,
    /// The fourth future's side.
    pub d: Side<D, T4>,
    /// The fifth future's side.
    pub e: Side<V, T5>,
}

impl<T1: 'static, T2: 'static, T3: 'static, T4: 'static, T5: 'static, E: 'static, A, B, C, D, V> Future<(T1, T2, T3, T4, T5), E> for Join5<A, B, C, D, V, T1, T2, T3, T4, T5>
    where A: Future<T1, E>, B: Future<T2, E>, C: Future<T3, E>, D: Future<T4, E>, V: Future<T5, E>,
{
    open spec fn wf(&self) -> bool {
        &&& self.a.wf::<E>()
        &&& self.b.wf::<E>()
        &&& self.c.wf::<E>()
        &&& self.d.wf::<E>()
        &&& self.e.wf::<E>()
        &&& (self.a is Gone <==> self.b is Gone)
        &&& (self.a is Gone <==> self.c is Gone)
        &&& (self.a is Gone <==> self.d is Gone)
        &&& (self.a is Gone <==> self.e is Gone)
    }

    open spec fn done(&self) -> bool {
        self.a is Gone && self.b is Gone && self.c is Gone && self.d is Gone && self.e is Gone
    }

    open spec fn may_produce(&self, r: Result<(T1, T2, T3, T4, T5), E>) -> bool {
        match r {
            Result::Ok(tuple) => self.a.may_ok::<E>(tuple.0) && self.b.may_ok::<E>(tuple.1) && self.c.may_ok::<E>(tuple.2) && self.d.may_ok::<E>(tuple.3) && self.e.may_ok::<E>(tuple.4),
            Result::Err(e) => self.a.may_err(e) || self.b.may_err(e) || self.c.may_err(e) || self.d.may_err(e) || self.e.may_err(e),
        }
    }

    open spec fn must_complete(&self) -> bool {
        self.a.must_complete::<E>() && self.b.must_complete::<E>() && self.c.must_complete::<E>() && self.d.must_complete::<E>() && self.e.must_complete::<E>()
    }

    fn poll(&mut self, task: &mut Task) -> (r: Poll<(T1, T2, T3, T4, T5), E>) {
        if !self.a.has_value() {
            match self.a.advance(task) {
                Some(e) => {
                    self.b = Side::Gone;
                    self.c = Side::Gone;
                    self.d = Side::Gone;
                    self.e = Side::Gone;
                    return Poll::Failed(e);
                },
                None => (),
            }
        }
        if !self.b.has_value() {
            match self.b.advance(task) {
                Some(e) => {
                    self.a = Side::Gone;
                    self.c = Side::Gone;
                    self.d = Side::Gone;
                    self.e = Side::Gone;
                    return Poll::Failed(e);
                },
                None => (),
            }
        }
        if !self.c.has_value() {
            match self.c.advance(task) {
                Some(e) => {
                    self.a = Side::Gone;
                    self.b = Side::Gone;
                    self.d = Side::Gone;
                    self.e = Side::Gone;
                    return Poll::Failed(e);
                },
                None => (),
            }
        }
        if !self.d.has_value() {
            match self.d.advance(task) {
                Some(e) => {
                    self.a = Side::Gone;
                    self.b = Side::Gone;
                    self.c = Side::Gone;
                    self.e = Side::Gone;
                    return Poll::Failed(e);
                },
                None => (),
            }
        }
        if !self.e.has_value() {
            match self.e.advance(task) {
                Some(e) => {
                    self.a = Side::Gone;
                    self.b = Side::Gone;
                    self.c = Side::Gone;
                    self.d = Side::Gone;
                    return Poll::Failed(e);
                },
                None => (),
            }
        }
        if self.a.has_value() && self.b.has_value() && self.c.has_value() && self.d.has_value() && self.e.has_value() {
            let va = self.a.collect_value();
            let vb = self.b.collect_value();
            let vc = self.c.collect_value();
            let vd = self.d.collect_value();
            let ve = self.e.collect_value();
            Poll::Ready((va, vb, vc, vd, ve))
        } else {
            Poll::NotReady
        }
    }

    fn schedule(&mut self, task: &mut Task) {
        match &mut self.a {
            Side::Waiting(f) => f.schedule(task),
            _ => (),
        }
        match &mut self.b {
            Side::Waiting(f) => f.schedule(task),
            _ => (),
        }
        match &mut self.c {
            Side::Waiting(f) => f.schedule(task),
            _ => (),
        }
        match &mut self.d {
            Side::Waiting(f) => f.schedule(task),
            _ => (),
        }
        match &mut self.e {
            Side::Waiting(f) => f.schedule(task),
            _ => (),
        }
    }
}

/// Wait for all of `a`, `b`, `c`, `d`, `e` and complete with the tuple of their values; if
/// any fails, drop the others and complete with that error.
pub fn join5<T1: 'static, T2: 'static, T3: 'static, T4: 'static, T5: 'static, E: 'static, A, B, C, D, V>(a: A, b: B, c: C, d: D, e: V) -> (r: Join5<A, B, C, D, V, T1, T2, T3, T4, T5>)
    where A: Future<T1, E>, B: Future<T2, E>, C: Future<T3, E>, D: Future<T4, E>, V: Future<T5, E>,
    requires
        a.wf(),
        !a.done(),
        b.wf(),
        !b.done(),
        c.wf(),
        !c.done(),
        d.wf(),
        !d.done(),
        e.wf(),
        !e.done(),
    ensures
        r == (Join5 { a: Side::<A, T1>::Waiting(a), b: Side::<B, T2>::Waiting(b), c: Side::<C, T3>::Waiting(c), d: Side::<D, T4>::Waiting(d), e: Side::<V, T5>::Waiting(e) }),
        r.wf(),
        !r.done(),
{
    Join5 { a: Side::Waiting(a), b: Side::Waiting(b), c: Side::Waiting(c), d: Side::Waiting(d), e: Side::Waiting(e) }
}

} // verus!
