//! What an intersection reports.
use vstd::prelude::*;

use core::ops::Neg;

use crate::float_bits::{float_lt, float_lt_spec};
use crate::vec3::{Point3, Vec3};

verus! {

/// A successful intersection: where the ray met the surface, the surface normal
/// turned against the ray, the ray parameter `t` (a binary64 bit pattern) and
/// whether the ray met the outer side.
#[derive(Clone, Copy, Debug)]
pub struct HitRecord {
    pub point: Point3,
    pub normal: Vec3,
    pub t: u64,
    pub front_face: bool,
}

impl HitRecord {
    /// Records which side of the surface the ray met and keeps the normal that
    /// faces the ray. `direction_dot_normal` is the dot product of the ray
    /// direction with `outward_normal`: below zero the ray meets the outer side
    /// and the outward normal is kept; otherwise it is negated.
    pub fn set_face_normal(&mut self, direction_dot_normal: u64, outward_normal: &Vec3)
        ensures
            final(self).front_face == float_lt_spec(direction_dot_normal, 0),
            final(self).normal == (if final(self).front_face {
                *outward_normal
            } else {
                outward_normal.negated()
            }),
            final(self).point == old(self).point,
            final(self).t == old(self).t,
    {
        let front_face = float_lt(direction_dot_normal, 0);
        self.front_face = front_face;
        if front_face {
            self.normal = *outward_normal;
        } else {
            self.normal = outward_normal.neg();
        }
    }
}

impl Default for HitRecord {
    fn default() -> (r: HitRecord)
        ensures
            r.point == Vec3::zero_spec(),
            r.normal == Vec3::zero_spec(),
            r.t == 0,
            !r.front_face,
    {
        HitRecord { point: Vec3::zero(), normal: Vec3::zero(), t: 0, front_face: false }
    }
}

} // verus!
