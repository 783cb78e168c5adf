//! Vectors of three components.

use crate::scalar::{number, Scalar};
use vstd::prelude::*;
use vstd::std_specs::convert::FromSpec;
use vstd::std_specs::ops::{AddSpec, MulSpec, NegSpec, SubSpec};

verus! {

/// A vector in space, given by its three components.
#[derive(Clone, Copy, Debug)]
pub struct Vec3<T> {
    pub x: T,
    pub y: T,
    pub z: T,
}

impl<T: Scalar> Vec3<T> {
    /// The vector whose three components are zero.
    pub open spec fn spec_zero() -> Self {
        Vec3 { x: number::<T>(0), y: number::<T>(0), z: number::<T>(0) }
    }

    /// The sum, component by component.
    pub open spec fn spec_add(self, rhs: Self) -> Self {
        Vec3 {
            x: self.x.add_spec(rhs.x),
            y: self.y.add_spec(rhs.y),
            z: self.z.add_spec(rhs.z),
        }
    }

    /// The difference, component by component.
    pub open spec fn spec_sub(self, rhs: Self) -> Self {
        Vec3 {
            x: self.x.sub_spec(rhs.x),
            y: self.y.sub_spec(rhs.y),
            z: self.z.sub_spec(rhs.z),
        }
    }

    /// Each component multiplied by `k`, with `k` on the right.
    pub open spec fn spec_scale(self, k: T) -> Self {
        Vec3 { x: self.x.mul_spec(k), y: self.y.mul_spec(k), z: self.z.mul_spec(k) }
    }

    /// The opposite vector: each component negated.
    pub open spec fn spec_neg(self) -> Self {
        Vec3 { x: self.x.neg_spec(), y: self.y.neg_spec(), z: self.z.neg_spec() }
    }

    /// The scalar type can add each component of `rhs` to that of `self`.
    pub open spec fn can_add(self, rhs: Self) -> bool {
        self.x.add_req(rhs.x) && self.y.add_req(rhs.y) && self.z.add_req(rhs.z)
    }

    /// The scalar type can take each component of `rhs` from that of `self`.
    pub open spec fn can_sub(self, rhs: Self) -> bool {
        self.x.sub_req(rhs.x) && self.y.sub_req(rhs.y) && self.z.sub_req(rhs.z)
    }

    /// The scalar type can multiply each component of `self` by `k`.
    pub open spec fn can_scale(self, k: T) -> bool {
        self.x.mul_req(k) && self.y.mul_req(k) && self.z.mul_req(k)
    }

    /// The vector with the given components.
    pub fn new(x: T, y: T, z: T) -> (v: Self)
        ensures
            v == (Vec3 { x, y, z }),
    {
        Vec3 { x, y, z }
    }

    /// The vector whose three components are zero.
    pub fn zero() -> (v: Self)
        ensures
            <T as FromSpec<u16>>::obeys_from_spec() ==> v == Self::spec_zero(),
    {
        Vec3 { x: T::from(0u16), y: T::from(0u16), z: T::from(0u16) }
    }

    /// The sum of two vectors.
    pub fn add(self, rhs: Self) -> (v: Self)
        requires
            self.can_add(rhs),
        ensures
            T::obeys_add_spec() ==> v == self.spec_add(rhs),
    {
        Vec3 { x: self.x + rhs.x, y: self.y + rhs.y, z: self.z + rhs.z }
    }

    /// The difference of two vectors.
    pub fn sub(self, rhs: Self) -> (v: Self)
        requires
            self.can_sub(rhs),
        ensures
            T::obeys_sub_spec() ==> v == self.spec_sub(rhs),
    {
        Vec3 { x: self.x - rhs.x, y: self.y - rhs.y, z: self.z - rhs.z }
    }

    /// The vector stretched by the factor `k`.
    pub fn scale(self, k: T) -> (v: Self)
        requires
            self.can_scale(k),
        ensures
            T::obeys_mul_spec() ==> v == self.spec_scale(k),
    {
        Vec3 { x: self.x * k, y: self.y * k, z: self.z * k }
    }
}

} // verus!
