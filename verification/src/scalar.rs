//! The scalar type of a simulation, and what is asked of its arithmetic.
//!
//! The library computes with the operators of a type parameter `T`. Two
//! things can be said of such operators. They may be *total*: every operand
//! is accepted, nothing overflows or panics. And they may be *exact*: each is
//! a function of its operands, so that the result of a computation can be
//! named. Totality is what the library asks before it computes; exactness is
//! what it needs to say what came out.

use std::ops::{Add, Div, Mul, Neg, Sub};
use vstd::prelude::*;
use vstd::std_specs::cmp::{PartialOrdIs, PartialOrdSpec};
use vstd::std_specs::convert::FromSpec;
use vstd::std_specs::ops::{AddSpec, DivSpec, MulSpec, NegSpec, SubSpec};

verus! {

/// A number type that a simulation can run on: copyable, with the four
/// operators, negation, an order, and the small whole numbers.
///
/// Every type with these abilities is a `Scalar`.
pub trait Scalar: Copy + From<u16> + Add<Output = Self> + Sub<Output = Self> + Mul<
    Output = Self,
> + Div<Output = Self> + Neg<Output = Self> + PartialOrd {

}

impl<
    T: Copy + From<u16> + Add<Output = T> + Sub<Output = T> + Mul<Output = T> + Div<
        Output = T,
    > + Neg<Output = T> + PartialOrd,
> Scalar for T {

}

/// Every operator of `T` may be applied to every operand: none of them
/// overflows, traps or panics.
pub open spec fn total_arithmetic<T: Scalar>() -> bool {
    &&& forall|a: T, b: T| #[trigger] a.add_req(b)
    &&& forall|a: T, b: T| #[trigger] a.sub_req(b)
    &&& forall|a: T, b: T| #[trigger] a.mul_req(b)
    &&& forall|a: T, b: T| #[trigger] a.div_req(b)
    &&& forall|a: T| #[trigger] a.neg_req()
}

/// Every operator of `T`, and the conversion from `u16`, is a function of its
/// operands: the same operands always give the same result.
pub open spec fn exact_arithmetic<T: Scalar>() -> bool {
    &&& T::obeys_add_spec()
    &&& T::obeys_sub_spec()
    &&& T::obeys_mul_spec()
    &&& T::obeys_div_spec()
    &&& T::obeys_neg_spec()
    &&& <T as FromSpec<u16>>::obeys_from_spec()
}

/// Comparing two values of `T` is a function of the two values.
pub open spec fn exact_order<T: Scalar>() -> bool {
    T::obeys_partial_cmp_spec()
}

/// The whole number `n` as a `T`.
pub open spec fn number<T: Scalar>(n: u16) -> T {
    T::from_spec(n)
}

/// `a` is strictly greater than `b`.
pub open spec fn exceeds<T: Scalar>(a: T, b: T) -> bool {
    a.is_gt(&b)
}

} // verus!
