//! A sphere whose center moves in a straight line.
use vstd::prelude::*;

use crate::float_bits::{float_eq, float_eq_spec};
use crate::vec3::Point3;

verus! {

/// A sphere whose center passes through `center0` at `time0` and `center1` at
/// `time1`, with its radius and the material of its surface (times and radius are
/// binary64 bit patterns).
pub struct MovingSphere<M> {
    center0: Point3,
    center1: Point3,
    time0: u64,
    time1: u64,
    radius: u64,
    material: M,
}

impl<M> MovingSphere<M> {
    pub closed spec fn center0_spec(&self) -> Point3 {
        self.center0
    }

    pub closed spec fn center1_spec(&self) -> Point3 {
        self.center1
    }

    pub closed spec fn time0_spec(&self) -> u64 {
        self.time0
    }

    pub closed spec fn time1_spec(&self) -> u64 {
        self.time1
    }

    pub closed spec fn radius_spec(&self) -> u64 {
        self.radius
    }

    pub closed spec fn material_spec(&self) -> M {
        self.material
    }

    pub fn new(
        center0: Point3,
        center1: Point3,
        time0: u64,
        time1: u64,
        radius: u64,
        material: M,
    ) -> (r: MovingSphere<M>)
        ensures
            r.center0_spec() == center0,
            r.center1_spec() == center1,
            r.time0_spec() == time0,
            r.time1_spec() == time1,
            r.radius_spec() == radius,
            r.material_spec() == material,
    {
        MovingSphere { center0, center1, time0, time1, radius, material }
    }

    pub fn center0(&self) -> (r: Point3)
        ensures
            r == self.center0_spec(),
    {
        self.center0
    }

    pub fn center1(&self) -> (r: Point3)
        ensures
            r == self.center1_spec(),
    {
        self.center1
    }

    pub fn time0(&self) -> (r: u64)
        ensures
            r == self.time0_spec(),
    {
        self.time0
    }

    pub fn time1(&self) -> (r: u64)
        ensures
            r == self.time1_spec(),
    {
        self.time1
    }

    pub fn radius(&self) -> (r: u64)
        ensures
            r == self.radius_spec(),
    {
        self.radius
    }

    pub fn material(&self) -> (r: &M)
        ensures
            *r == self.material_spec(),
    {
        &self.material
    }
}

/// Two moving spheres are equal when both keyframe centers and the radii are.
impl<M> PartialEq for MovingSphere<M> {
    fn eq(&self, other: &MovingSphere<M>) -> (r: bool)
        ensures
            r == (self.center0_spec().same_as(&other.center0_spec())
                && self.center1_spec().same_as(&other.center1_spec()) && float_eq_spec(
                self.radius_spec(),
                other.radius_spec(),
            )),
    {
        self.center0 == other.center0 && self.center1 == other.center1 && float_eq(
            self.radius,
            other.radius,
        )
    }
}

impl<M> vstd::std_specs::cmp::PartialEqSpecImpl for MovingSphere<M> {
    open spec fn obeys_eq_spec() -> bool {
        true
    }

    open spec fn eq_spec(&self, other: &MovingSphere<M>) -> bool {
        self.center0_spec().same_as(&other.center0_spec()) && self.center1_spec().same_as(
            &other.center1_spec(),
        ) && float_eq_spec(self.radius_spec(), other.radius_spec())
    }
}

} // verus!
