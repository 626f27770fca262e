//! A ray: an origin, a direction and the moment at which it is cast.
use vstd::prelude::*;

use crate::vec3::{Point3, Vec3};

verus! {

/// The half-line `origin + t * direction`, cast at `time` (a binary64 bit pattern,
/// 0 where nothing moves).
#[derive(Clone, Copy, Debug)]
pub struct Ray {
    origin: Point3,
    direction: Vec3,
    time: u64,
}

impl Ray {
    pub closed spec fn origin_spec(&self) -> Point3 {
        self.origin
    }

    pub closed spec fn direction_spec(&self) -> Vec3 {
        self.direction
    }

    pub closed spec fn time_spec(&self) -> u64 {
        self.time
    }

    pub fn new(origin: Point3, direction: Vec3, time: u64) -> (r: Ray)
        ensures
            r.origin_spec() == origin,
            r.direction_spec() == direction,
            r.time_spec() == time,
    {
        Ray { origin, direction, time }
    }

    pub fn origin(&self) -> (r: Point3)
        ensures
            r == self.origin_spec(),
    {
        self.origin
    }

    pub fn direction(&self) -> (r: Vec3)
        ensures
            r == self.direction_spec(),
    {
        self.direction
    }

    pub fn time(&self) -> (r: u64)
        ensures
            r == self.time_spec(),
    {
        self.time
    }
}

/// Two rays are equal when their origins and directions are; the time is not compared.
impl PartialEq for Ray {
    fn eq(&self, other: &Ray) -> (r: bool)
        ensures
            r == (self.origin_spec().same_as(&other.origin_spec())
                && self.direction_spec().same_as(&other.direction_spec())),
    {
        self.origin == other.origin && self.direction == other.direction
    }
}

impl vstd::std_specs::cmp::PartialEqSpecImpl for Ray {
    open spec fn obeys_eq_spec() -> bool {
        true
    }

    open spec fn eq_spec(&self, other: &Ray) -> bool {
        self.origin_spec().same_as(&other.origin_spec()) && self.direction_spec().same_as(
            &other.direction_spec(),
        )
    }
}

} // verus!
