//! The algebraic laws of the combinators, proved over the futures model.
//!
//! Each law relates the `may_produce` sets of composed futures. Together
//! with the polling contract — a completed result always lies in the
//! `may_produce` set the future had before the poll — these pin down what
//! a composition can complete with.

use core::marker::PhantomData;
use vstd::prelude::*;
use crate::Future;
use crate::IntoFuture;
use crate::done::Done;
use crate::map::Mapped;
use crate::map_err::MapErr;
use crate::and_then::AndThen;
use crate::then::Then;
use crate::flatten::Flatten;
use crate::fuse::Fuse;
use crate::join::Join;
use crate::join::Side;
use crate::select::Select;
use crate::select::SelectNext;
use crate::select::refines;

verus! {

/// What a mapped future may produce, spelled out: errors are the plain
/// future's errors, and a success is the image under the function of a
/// value the plain future could produce. Callers cannot always unfold the
/// model when the function parameter is a concrete closure or function
/// item; this lemma hands them the definition.
pub proof fn lemma_mapped_model<T: 'static, E: 'static, U: 'static, A, F>(
    m: Mapped<T, A, F>,
)
    where A: Future<T, E>, F: FnOnce(T) -> U + 'static
    requires
        m.f is Some,
    ensures
        forall|e: E| m.may_produce(Err(e)) <==> m.future.may_produce(Err(e)),
        forall|u: U| m.may_produce(Ok(u)) <==> exists|v: T|
            m.future.may_produce(Ok(v)) && #[trigger] call_ensures(m.f->Some_0, (v,), u),
        m.must_complete() <==> m.future.must_complete(),
{
}

/// What an error-mapped future may produce, spelled out: successes are the
/// plain future's successes, and an error is the image under the function
/// of an error the plain future could produce. The counterpart of
/// `lemma_mapped_model` for `MapErr`.
pub proof fn lemma_map_err_model<T: 'static, E: 'static, U: 'static, A, F>(
    m: MapErr<E, A, F>,
)
    where A: Future<T, E>, F: FnOnce(E) -> U + 'static
    requires
        m.f is Some,
    ensures
        forall|v: T| m.may_produce(Ok(v)) <==> m.future.may_produce(Ok(v)),
        forall|u: U| m.may_produce(Err(u)) <==> exists|e: E|
            m.future.may_produce(Err(e)) && #[trigger] call_ensures(m.f->Some_0, (e,), u),
        m.must_complete() <==> m.future.must_complete(),
{
}

/// Functor identity: mapping a future through a function that returns its
/// argument unchanged leaves the set of results the future may produce
/// unchanged, so a poll of the mapped future completes exactly with what
/// the plain future would have completed with.
pub proof fn law_map_identity<T: 'static, E: 'static, A, F>(m: Mapped<T, A, F>)
    where A: Future<T, E>, F: FnOnce(T) -> T + 'static
    requires
        m.f is Some,
        forall|v: T| #[trigger] call_ensures(m.f->Some_0, (v,), v),
        forall|v: T, u: T| call_ensures(m.f->Some_0, (v,), u) ==> u == v,
    ensures
        forall|r: Result<T, E>| m.may_produce(r) <==> m.future.may_produce(r),
{
    let f = m.f->Some_0;
    assert forall|r: Result<T, E>| m.may_produce(r) implies m.future.may_produce(r) by {
        if r is Ok {
            let v = choose|v: T| m.future.may_produce(Ok(v)) && call_ensures(f, (v,), r->Ok_0);
            assert(v == r->Ok_0);
        }
    };
    assert forall|r: Result<T, E>| m.future.may_produce(r) implies m.may_produce(r) by {
        if r is Ok {
            let u = r->Ok_0;
            assert(m.future.may_produce(Ok(u)) && call_ensures(f, (u,), u));
        }
    };
}

/// Left identity of `and_then`: chaining a continuation onto a future that
/// already succeeded with `v` may produce exactly what the future the
/// continuation returns for `v` may produce.
pub proof fn law_and_then_left_identity<T: 'static, U: 'static, E: 'static, B, G>(
    at: AndThen<T, U, E, Done<T, E>, B, G>,
    g: G,
    v: T,
)
    where B: IntoFuture<U, E>, G: FnOnce(T) -> B + 'static
    requires
        at == (AndThen::<T, U, E, Done<T, E>, B, G>::First(
            Done { result: Some(Ok(v)) },
            g,
            PhantomData,
        )),
    ensures
        forall|r: Result<U, E>| at.may_produce(r)
            <==> exists|b: B| #[trigger] call_ensures(g, (v,), b) && b.fut_may_produce(r),
        at.must_complete()
            <==> forall|b: B| #[trigger] call_ensures(g, (v,), b) ==> b.fut_must_complete(),
{
    assert(at.must_complete()
        <==> forall|b: B| #[trigger] call_ensures(g, (v,), b) ==> b.fut_must_complete()) by {
        if at.must_complete() {
            assert forall|b: B| #[trigger] call_ensures(g, (v,), b)
                implies b.fut_must_complete() by {
                assert(at->First_1 == g);
                assert(at.future_first().may_produce(Ok(v))
                    && call_ensures(at->First_1, (v,), b));
            };
        }
        if forall|b: B| #[trigger] call_ensures(g, (v,), b) ==> b.fut_must_complete() {
            assert forall|v1: T, b: B|
                at.future_first().may_produce(Ok(v1)) && call_ensures(g, (v1,), b)
                implies b.fut_must_complete() by {
                assert(v1 == v);
                assert(call_ensures(g, (v,), b));
            };
        }
    };
    assert forall|r: Result<U, E>| at.may_produce(r)
        implies exists|b: B| #[trigger] call_ensures(g, (v,), b) && b.fut_may_produce(r) by {
        let (v1, b) = choose|v1: T, b: B|
            at.future_first().may_produce(Ok(v1)) && call_ensures(g, (v1,), b)
                && b.fut_may_produce(r);
        assert(v1 == v);
        assert(call_ensures(g, (v,), b) && b.fut_may_produce(r));
    };
    assert forall|r: Result<U, E>|
        (exists|b: B| #[trigger] call_ensures(g, (v,), b) && b.fut_may_produce(r))
        implies at.may_produce(r) by {
        let b = choose|b: B| call_ensures(g, (v,), b) && b.fut_may_produce(r);
        assert(exists|v1: T, b1: B| at->First_0.may_produce(Ok(v1))
            && call_ensures(at->First_1, (v1,), b1) && b1.fut_may_produce(r)) by {
            assert(at->First_0.may_produce(Ok(v)) && call_ensures(at->First_1, (v,), b)
                && b.fut_may_produce(r));
        };
    };
}

/// Right identity of `and_then`: chaining a continuation that wraps the
/// value back into an immediately successful future leaves the set of
/// results the chained future may produce the same as the plain future's.
pub proof fn law_and_then_right_identity<T: 'static, E: 'static, A, G>(
    at: AndThen<T, T, E, A, Done<T, E>, G>,
    a: A,
    g: G,
)
    where A: Future<T, E>, G: FnOnce(T) -> Done<T, E> + 'static
    requires
        at == (AndThen::<T, T, E, A, Done<T, E>, G>::First(a, g, PhantomData)),
        forall|v: T| #[trigger] call_ensures(g, (v,), (Done { result: Some(Ok(v)) })),
        forall|v: T, b: Done<T, E>| call_ensures(g, (v,), b)
            ==> b == (Done::<T, E> { result: Some(Ok(v)) }),
    ensures
        forall|r: Result<T, E>| at.may_produce(r) <==> a.may_produce(r),
        at.must_complete() <==> a.must_complete(),
{
    assert(at.must_complete() <==> a.must_complete()) by {
        if a.must_complete() {
            assert forall|v: T, b: Done<T, E>| a.may_produce(Ok(v)) && call_ensures(g, (v,), b)
                implies b.fut_must_complete() by {
                assert(b == (Done::<T, E> { result: Some(Ok(v)) }));
            };
        }
    };
    assert forall|r: Result<T, E>| at.may_produce(r) implies a.may_produce(r) by {
        if !(r matches Err(e) && a.may_produce(Err(e))) {
            let (v, b) = choose|v: T, b: Done<T, E>|
                a.may_produce(Ok(v)) && call_ensures(g, (v,), b) && b.fut_may_produce(r);
            assert(b == (Done::<T, E> { result: Some(Ok(v)) }));
            assert(r == Ok::<T, E>(v));
        }
    };
    assert forall|r: Result<T, E>| a.may_produce(r) implies at.may_produce(r) by {
        if r is Ok {
            let v = r->Ok_0;
            let b = Done::<T, E> { result: Some(Ok(v)) };
            assert(exists|v1: T, b1: Done<T, E>| at->First_0.may_produce(Ok(v1))
                && call_ensures(at->First_1, (v1,), b1) && b1.fut_may_produce(r)) by {
                assert(at->First_0.may_produce(Ok(v)) && call_ensures(at->First_1, (v,), b)
                    && b.fut_may_produce(r));
            };
        }
    };
}

/// Identity of `then`: chaining a continuation onto a future that already
/// completed with `res` — success or failure alike — may produce exactly
/// what the future the continuation returns for `res` may produce.
pub proof fn law_then_identity<T: 'static, E: 'static, U: 'static, D: 'static, B, H>(
    th: Then<T, E, U, D, Done<T, E>, B, H>,
    h: H,
    res: Result<T, E>,
)
    where B: IntoFuture<U, D>, H: FnOnce(Result<T, E>) -> B + 'static
    requires
        th == (Then::<T, E, U, D, Done<T, E>, B, H>::First(
            Done { result: Some(res) },
            h,
            PhantomData,
        )),
    ensures
        forall|r: Result<U, D>| th.may_produce(r)
            <==> exists|b: B| #[trigger] call_ensures(h, (res,), b) && b.fut_may_produce(r),
        th.must_complete()
            <==> forall|b: B| #[trigger] call_ensures(h, (res,), b) ==> b.fut_must_complete(),
{
    assert(th.must_complete()
        <==> forall|b: B| #[trigger] call_ensures(h, (res,), b) ==> b.fut_must_complete()) by {
        if th.must_complete() {
            assert forall|b: B| #[trigger] call_ensures(h, (res,), b)
                implies b.fut_must_complete() by {
                assert(th->First_1 == h);
                assert(th.future_first().may_produce(res)
                    && call_ensures(th->First_1, (res,), b));
            };
        }
        if forall|b: B| #[trigger] call_ensures(h, (res,), b) ==> b.fut_must_complete() {
            assert forall|res1: Result<T, E>, b: B|
                th.future_first().may_produce(res1) && call_ensures(h, (res1,), b)
                implies b.fut_must_complete() by {
                assert(res1 == res);
                assert(call_ensures(h, (res,), b));
            };
        }
    };
    assert forall|r: Result<U, D>| th.may_produce(r)
        implies exists|b: B| #[trigger] call_ensures(h, (res,), b) && b.fut_may_produce(r) by {
        let (res1, b) = choose|res1: Result<T, E>, b: B|
            th.future_first().may_produce(res1) && call_ensures(h, (res1,), b)
                && b.fut_may_produce(r);
        assert(res1 == res);
        assert(call_ensures(h, (res,), b) && b.fut_may_produce(r));
    };
    assert forall|r: Result<U, D>|
        (exists|b: B| #[trigger] call_ensures(h, (res,), b) && b.fut_may_produce(r))
        implies th.may_produce(r) by {
        let b = choose|b: B| call_ensures(h, (res,), b) && b.fut_may_produce(r);
        assert(exists|res1: Result<T, E>, b1: B| th->First_0.may_produce(res1)
            && call_ensures(th->First_1, (res1,), b1) && b1.fut_may_produce(r)) by {
            assert(th->First_0.may_produce(res) && call_ensures(th->First_1, (res,), b)
                && b.fut_may_produce(r));
        };
    };
}

/// Flattening an immediately successful future whose value is itself an
/// immediately successful future may produce exactly the inner value.
pub proof fn law_flatten_finished<U: 'static, E: 'static>(
    fl: Flatten<U, E, E, Done<Done<U, E>, E>, Done<U, E>>,
    v: U,
)
    requires
        fl == (Flatten::<U, E, E, Done<Done<U, E>, E>, Done<U, E>>::First(
            Done { result: Some(Ok(Done { result: Some(Ok(v)) })) },
            PhantomData,
        )),
    ensures
        forall|r: Result<U, E>| fl.may_produce(r) <==> r == Ok::<U, E>(v),
        fl.must_complete(),
{
    let inner = Done::<U, E> { result: Some(Ok(v)) };
    assert forall|r: Result<U, E>| fl.may_produce(r) implies r == Ok::<U, E>(v) by {
        let b = choose|b: Done<U, E>|
            fl.future_first().may_produce(Ok(b)) && b.fut_may_produce(r);
        assert(b == inner);
    };
    assert forall|r: Result<U, E>| r == Ok::<U, E>(v) implies fl.may_produce(r) by {
        assert(fl.future_first().may_produce(Ok(inner)) && inner.fut_may_produce(r));
    };
}

/// A fused future is transparent until its inner future completes: it may
/// produce exactly what the inner future may produce.
pub proof fn law_fuse_transparent<T: 'static, E: 'static, A>(f: Fuse<A>, a: A)
    where A: Future<T, E>
    requires
        f.inner == Some(a),
    ensures
        forall|r: Result<T, E>| f.may_produce(r) <==> a.may_produce(r),
        f.must_complete() <==> a.must_complete(),
{
}

/// Once a fused future has reported its completion, it may produce nothing
/// more, yet it is still well-formed and never counts as done: by the
/// polling contract every further poll is allowed and can only report
/// `NotReady` — it never panics and never completes again.
pub proof fn law_fuse_spent<T: 'static, E: 'static, A>(f: Fuse<A>)
    where A: Future<T, E>
    requires
        f.inner is None,
    ensures
        f.wf(),
        !f.done(),
        forall|r: Result<T, E>| !f.may_produce(r),
{
}

/// A fresh join may succeed exactly with the pair of values its two futures
/// may succeed with, and may fail exactly with an error either future may
/// fail with; an error ends the join, and ownership of the sibling is
/// dropped with the join's sides, cancelling it.
pub proof fn law_join_results<T1: 'static, T2: 'static, E: 'static, A, B>(
    j: Join<A, B, T1, T2>,
    a: A,
    b: B,
)
    where A: Future<T1, E>, B: Future<T2, E>
    requires
        j == (Join { a: Side::<A, T1>::Waiting(a), b: Side::<B, T2>::Waiting(b) }),
    ensures
        forall|x: T1, y: T2| j.may_produce(Ok((x, y)))
            <==> a.may_produce(Ok(x)) && b.may_produce(Ok(y)),
        forall|e: E| j.may_produce(Err(e))
            <==> a.may_produce(Err(e)) || b.may_produce(Err(e)),
        j.must_complete() <==> a.must_complete() && b.must_complete(),
{
}

/// What a fresh select may complete with: a success carries a value the
/// winning future may succeed with, paired with a future that stands in for
/// the other one — still pending, producing only results the other could
/// have produced. In particular, when the first future wins, the leftover
/// is the second, and conversely.
pub proof fn law_select_outcome<T: 'static, E: 'static, A, B>(
    s: Select<A, B>,
    a: A,
    b: B,
    v: T,
    n: SelectNext<A, B>,
)
    where A: Future<T, E> + 'static, B: Future<T, E> + 'static
    requires
        s == (Select { inner: Some((a, b)) }),
        a.wf(),
        !a.done(),
        b.wf(),
        !b.done(),
    ensures
        s.may_produce(Ok((v, n))) ==> {
            ||| (a.may_produce(Ok(v)) && (n matches SelectNext::BStill(b1) && refines(b1, b)))
            ||| (b.may_produce(Ok(v)) && (n matches SelectNext::AStill(a1) && refines(a1, a)))
        },
        a.may_produce(Ok(v)) && n == SelectNext::<A, B>::BStill(b) ==> s.may_produce(Ok((v, n))),
        b.may_produce(Ok(v)) && n == SelectNext::<A, B>::AStill(a) ==> s.may_produce(Ok((v, n))),
        s.must_complete() <==> a.must_complete() || b.must_complete(),
{
}

} // verus!
