//! A sphere standing still.
use vstd::prelude::*;

use crate::float_bits::{float_eq, float_eq_spec, float_lt, float_lt_spec};
use crate::vec3::Point3;

verus! {

/// A sphere with its center, its radius (a binary64 bit pattern) and the material
/// of its surface.
pub struct Sphere<M> {
    center: Point3,
    radius: u64,
    material: M,
}

impl<M> Sphere<M> {
    pub closed spec fn center_spec(&self) -> Point3 {
        self.center
    }

    pub closed spec fn radius_spec(&self) -> u64 {
        self.radius
    }

    pub closed spec fn material_spec(&self) -> M {
        self.material
    }

    pub fn new(center: Point3, radius: u64, material: M) -> (r: Sphere<M>)
        ensures
            r.center_spec() == center,
            r.radius_spec() == radius,
            r.material_spec() == material,
    {
        Sphere { center, radius, material }
    }

    pub fn center(&self) -> (r: Point3)
        ensures
            r == self.center_spec(),
    {
        self.center
    }

    pub fn radius(&self) -> (r: u64)
        ensures
            r == self.radius_spec(),
    {
        self.radius
    }

    pub fn material(&self) -> (r: &M)
        ensures
            *r == self.material_spec(),
    {
        &self.material
    }
}

/// Whether a root `t` of the intersection equation lies strictly inside
/// `(t_min, t_max)`; a NaN lies nowhere.
pub open spec fn root_accepted(t: u64, t_min: u64, t_max: u64) -> bool {
    float_lt_spec(t_min, t) && float_lt_spec(t, t_max)
}

/// The root that an intersection reports: of the two roots, `near` (the smaller)
/// and `far`, the first that lies strictly inside `(t_min, t_max)`, and `None`
/// (a miss) when neither does.
pub fn select_root(near: u64, far: u64, t_min: u64, t_max: u64) -> (r: Option<u64>)
    ensures
        r == (if root_accepted(near, t_min, t_max) {
            Some(near)
        } else if root_accepted(far, t_min, t_max) {
            Some(far)
        } else {
            None::<u64>
        }),
        r matches Some(t) ==> float_lt_spec(t_min, t) && float_lt_spec(t, t_max),
        r is None <==> !root_accepted(near, t_min, t_max) && !root_accepted(far, t_min, t_max),
{
    if float_lt(t_min, near) && float_lt(near, t_max) {
        Some(near)
    } else if float_lt(t_min, far) && float_lt(far, t_max) {
        Some(far)
    } else {
        None
    }
}

/// Two spheres are equal when their centers and radii are; materials are not compared.
impl<M> PartialEq for Sphere<M> {
    fn eq(&self, other: &Sphere<M>) -> (r: bool)
        ensures
            r == (self.center_spec().same_as(&other.center_spec()) && float_eq_spec(
                self.radius_spec(),
                other.radius_spec(),
            )),
    {
        self.center == other.center && float_eq(self.radius, other.radius)
    }
}

impl<M> vstd::std_specs::cmp::PartialEqSpecImpl for Sphere<M> {
    open spec fn obeys_eq_spec() -> bool {
        true
    }

    open spec fn eq_spec(&self, other: &Sphere<M>) -> bool {
        self.center_spec().same_as(&other.center_spec()) && float_eq_spec(
            self.radius_spec(),
            other.radius_spec(),
        )
    }
}

} // verus!
