//! Operations handed in by a caller: the arithmetic on its own vector,
//! mass and time types, and the tests on them. Each is asked to accept every
//! argument and to give one result for each.
use vstd::prelude::*;

verus! {

/// Whether `f` gives one result for each argument pair.
pub open spec fn deterministic2<X, Y, R, F: Fn(X, Y) -> R>(f: F) -> bool {
    forall|x: X, y: Y, r1: R, r2: R| f.ensures((x, y), r1) && f.ensures((x, y), r2) ==> r1 == r2
}

/// Whether `f` accepts every argument pair.
pub open spec fn total2<X, Y, R, F: Fn(X, Y) -> R>(f: F) -> bool {
    forall|x: X, y: Y| #[trigger] f.requires((x, y))
}

/// The result of `f` on `(x, y)`.
pub open spec fn result2<X, Y, R, F: Fn(X, Y) -> R>(f: F, x: X, y: Y) -> R {
    choose|r: R| f.ensures((x, y), r)
}

/// Whether `f` gives one result for each argument.
pub open spec fn deterministic1<X, R, F: Fn(X) -> R>(f: F) -> bool {
    forall|x: X, r1: R, r2: R| f.ensures((x,), r1) && f.ensures((x,), r2) ==> r1 == r2
}

/// Whether `f` accepts every argument.
pub open spec fn total1<X, R, F: Fn(X) -> R>(f: F) -> bool {
    forall|x: X| #[trigger] f.requires((x,))
}

/// The result of `f` on `x`.
pub open spec fn result1<X, R, F: Fn(X) -> R>(f: F, x: X) -> R {
    choose|r: R| f.ensures((x,), r)
}

} // verus!
