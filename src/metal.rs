//! The specular material with a blurred reflection.
use vstd::prelude::*;

use crate::hittable::HitRecord;
use crate::ray::Ray;
use crate::vec3::{Color, Vec3};

verus! {

/// A reflecting surface: the mirror direction is perturbed by a random point of the
/// unit ball scaled by `fuzziness` (a binary64 bit pattern, meant to lie in
/// [0, 1]), and the light is attenuated by `albedo`.
#[derive(Clone, Copy, Debug)]
pub struct Metal {
    albedo: Color,
    fuzziness: u64,
}

impl Metal {
    pub closed spec fn albedo_spec(&self) -> Color {
        self.albedo
    }

    pub closed spec fn fuzziness_spec(&self) -> u64 {
        self.fuzziness
    }

    pub fn new(color: &Color, fuzziness: u64) -> (r: Metal)
        ensures
            r.albedo_spec() == *color,
            r.fuzziness_spec() == fuzziness,
    {
        Metal { albedo: *color, fuzziness }
    }

    /// Scatters `ray` off the surface at `hit_record` towards `direction`, the
    /// mirror direction plus the fuzz offset. The result is always `Some`, also
    /// where `direction` points into the surface: such a ray is not resampled.
    pub fn scatter(
        &self,
        ray: &Ray,
        hit_record: &HitRecord,
        direction: Vec3,
    ) -> (r: Option<(Ray, Color)>)
        ensures
            r matches Some((scattered, attenuation)) && {
                &&& scattered.origin_spec() == hit_record.point
                &&& scattered.direction_spec() == direction
                &&& scattered.time_spec() == ray.time_spec()
                &&& attenuation == self.albedo_spec()
            },
    {
        Some((Ray::new(hit_record.point, direction, ray.time()), self.albedo))
    }

    pub fn albedo(&self) -> (r: Color)
        ensures
            r == self.albedo_spec(),
    {
        self.albedo
    }

    pub fn fuzziness(&self) -> (r: u64)
        ensures
            r == self.fuzziness_spec(),
    {
        self.fuzziness
    }
}

} // verus!
