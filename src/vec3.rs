//! Three binary64 components, used as a point, a direction or an RGB color.
use vstd::prelude::*;

use crate::float_bits::{
    abs, float_eq, float_eq_spec, is_nan_spec, magnitude, negate, ordinal, SIGN_BIT,
};

verus! {

/// The bit pattern of 1e-8, under which a component counts as zero.
pub const NEAR_ZERO_BITS: u64 = 0x3E45_798E_E230_8C3A;

/// A vector of three binary64 components, each held as its bit pattern.
#[derive(Clone, Copy, Debug)]
pub struct Vec3 {
    x: u64,
    y: u64,
    z: u64,
}

/// A point in space.
pub type Point3 = Vec3;

/// An RGB color, one linear radiance per channel.
pub type Color = Vec3;

impl Vec3 {
    pub closed spec fn x_spec(&self) -> u64 {
        self.x
    }

    pub closed spec fn y_spec(&self) -> u64 {
        self.y
    }

    pub closed spec fn z_spec(&self) -> u64 {
        self.z
    }

    /// The component at `i`: x, y and z in that order.
    pub open spec fn component(&self, i: int) -> u64 {
        if i == 0 {
            self.x_spec()
        } else if i == 1 {
            self.y_spec()
        } else {
            self.z_spec()
        }
    }

    /// IEEE 754 equality of each pair of components.
    pub open spec fn same_as(&self, o: &Vec3) -> bool {
        &&& float_eq_spec(self.x_spec(), o.x_spec())
        &&& float_eq_spec(self.y_spec(), o.y_spec())
        &&& float_eq_spec(self.z_spec(), o.z_spec())
    }

    /// The vector of three positive zeros.
    pub closed spec fn zero_spec() -> Vec3 {
        Vec3 { x: 0, y: 0, z: 0 }
    }

    /// The vector with the sign bit of each component flipped.
    pub closed spec fn negated(self) -> Vec3 {
        Vec3 { x: self.x ^ SIGN_BIT, y: self.y ^ SIGN_BIT, z: self.z ^ SIGN_BIT }
    }

    /// Every component is under 1e-8 in absolute value (a NaN is not).
    pub open spec fn near_zero_spec(&self) -> bool {
        &&& magnitude(self.x_spec()) < NEAR_ZERO_BITS
        &&& magnitude(self.y_spec()) < NEAR_ZERO_BITS
        &&& magnitude(self.z_spec()) < NEAR_ZERO_BITS
    }

    /// The vector whose components are the given bit patterns.
    pub fn new(x: u64, y: u64, z: u64) -> (r: Vec3)
        ensures
            r.x_spec() == x,
            r.y_spec() == y,
            r.z_spec() == z,
    {
        Vec3 { x, y, z }
    }

    /// The vector of three positive zeros.
    pub fn zero() -> (r: Vec3)
        ensures
            r == Vec3::zero_spec(),
            r.x_spec() == 0 && r.y_spec() == 0 && r.z_spec() == 0,
    {
        Vec3 { x: 0, y: 0, z: 0 }
    }

    pub fn x(&self) -> (r: u64)
        ensures
            r == self.x_spec(),
    {
        self.x
    }

    pub fn y(&self) -> (r: u64)
        ensures
            r == self.y_spec(),
    {
        self.y
    }

    pub fn z(&self) -> (r: u64)
        ensures
            r == self.z_spec(),
    {
        self.z
    }

    /// The component at `index`; an index outside 0..3 is a caller's error.
    pub fn index(&self, index: i32) -> (r: u64)
        requires
            0 <= index < 3,
        ensures
            r == self.component(index as int),
    {
        if index == 0 {
            self.x
        } else if index == 1 {
            self.y
        } else {
            self.z
        }
    }

    /// Whether every component is within 1e-8 of zero, the test for a degenerate
    /// scatter direction.
    pub fn near_zero(&self) -> (r: bool)
        ensures
            r == self.near_zero_spec(),
    {
        abs(self.x) < NEAR_ZERO_BITS && abs(self.y) < NEAR_ZERO_BITS && abs(self.z)
            < NEAR_ZERO_BITS
    }
}

impl core::ops::Neg for Vec3 {
    type Output = Vec3;

    /// The vector pointing the other way: each component negated.
    fn neg(self) -> (r: Vec3)
        ensures
            r == self.negated(),
            r.x_spec() == self.x_spec() ^ SIGN_BIT,
            r.y_spec() == self.y_spec() ^ SIGN_BIT,
            r.z_spec() == self.z_spec() ^ SIGN_BIT,
            forall|i: int|
                0 <= i < 3 ==> ordinal(#[trigger] r.component(i)) == -ordinal(self.component(i))
                    && is_nan_spec(r.component(i)) == is_nan_spec(self.component(i)),
    {
        Vec3 { x: negate(self.x), y: negate(self.y), z: negate(self.z) }
    }
}

impl vstd::std_specs::ops::NegSpecImpl for Vec3 {
    open spec fn obeys_neg_spec() -> bool {
        true
    }

    open spec fn neg_req(self) -> bool {
        true
    }

    open spec fn neg_spec(self) -> Vec3 {
        self.negated()
    }
}

impl PartialEq for Vec3 {
    fn eq(&self, other: &Vec3) -> (r: bool)
        ensures
            r == self.same_as(other),
    {
        float_eq(self.x, other.x) && float_eq(self.y, other.y) && float_eq(self.z, other.z)
    }
}

impl vstd::std_specs::cmp::PartialEqSpecImpl for Vec3 {
    open spec fn obeys_eq_spec() -> bool {
        true
    }

    open spec fn eq_spec(&self, other: &Vec3) -> bool {
        self.same_as(other)
    }
}

impl Default for Vec3 {
    fn default() -> (r: Vec3)
        ensures
            r == Vec3::zero_spec(),
            r.x_spec() == 0 && r.y_spec() == 0 && r.z_spec() == 0,
    {
        Vec3::zero()
    }
}

} // verus!
