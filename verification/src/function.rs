//! What can be said of a function that the library is handed and calls.

use vstd::prelude::*;

verus! {

/// The function `f` may be called on every argument.
pub open spec fn accepts_all<A, R, F: Fn(A) -> R>(f: F) -> bool {
    forall|a: A| #[trigger] call_requires(f, (a,))
}

/// The value that `f` returns for the argument `a`.
pub open spec fn value_of<A, R, F: Fn(A) -> R>(f: F, a: A) -> R {
    choose|r: R| call_ensures(f, (a,), r)
}

/// Whatever `f` returns for an argument is the one value it has there.
pub open spec fn single_valued<A, R, F: Fn(A) -> R>(f: F) -> bool {
    forall|a: A, r: R| #[trigger] call_ensures(f, (a,), r) ==> r == value_of(f, a)
}

/// The function `f` of two arguments may be called on every pair of them.
pub open spec fn accepts_all2<A, B, R, F: Fn(A, B) -> R>(f: F) -> bool {
    forall|a: A, b: B| #[trigger] call_requires(f, (a, b))
}

/// The value that `f` returns for the arguments `a` and `b`.
pub open spec fn value_of2<A, B, R, F: Fn(A, B) -> R>(f: F, a: A, b: B) -> R {
    choose|r: R| call_ensures(f, (a, b), r)
}

/// Whatever `f` returns for two arguments is the one value it has there.
pub open spec fn single_valued2<A, B, R, F: Fn(A, B) -> R>(f: F) -> bool {
    forall|a: A, b: B, r: R| #[trigger] call_ensures(f, (a, b), r) ==> r == value_of2(f, a, b)
}

} // verus!
