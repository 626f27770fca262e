//! The ideal diffuse material.
use vstd::prelude::*;

use crate::hittable::HitRecord;
use crate::ray::Ray;
use crate::vec3::{Color, Vec3};

verus! {

/// A diffuse surface: it scatters light in random directions about its normal and
/// attenuates it by `albedo`.
#[derive(Clone, Copy, Debug)]
pub struct Lambertian {
    albedo: Color,
}

impl Lambertian {
    pub closed spec fn albedo_spec(&self) -> Color {
        self.albedo
    }

    pub fn new(color: &Color) -> (r: Lambertian)
        ensures
            r.albedo_spec() == *color,
    {
        Lambertian { albedo: *color }
    }

    /// Scatters `ray` off the surface at `hit_record` towards `direction`, the
    /// normal plus a random unit vector. Where that sum is degenerate (near zero in
    /// every component) the normal itself is taken. Diffuse light is never
    /// absorbed: the result is always `Some`, attenuated by the albedo.
    pub fn scatter(
        &self,
        ray: &Ray,
        hit_record: &HitRecord,
        direction: Vec3,
    ) -> (r: Option<(Ray, Color)>)
        ensures
            r matches Some((scattered, attenuation)) && {
                &&& scattered.origin_spec() == hit_record.point
                &&& scattered.direction_spec() == (if direction.near_zero_spec() {
                    hit_record.normal
                } else {
                    direction
                })
                &&& scattered.time_spec() == ray.time_spec()
                &&& attenuation == self.albedo_spec()
            },
    {
        let mut scatter_direction = direction;
        if scatter_direction.near_zero() {
            scatter_direction = hit_record.normal;
        }
        Some((Ray::new(hit_record.point, scatter_direction, ray.time()), self.albedo))
    }

    /// The fraction of each channel that a bounce keeps.
    pub fn albedo(&self) -> (r: Color)
        ensures
            r == self.albedo_spec(),
    {
        self.albedo
    }
}

/// Two diffuse materials are equal when their albedos are.
impl PartialEq for Lambertian {
    fn eq(&self, other: &Lambertian) -> (r: bool)
        ensures
            r == self.albedo_spec().same_as(&other.albedo_spec()),
    {
        self.albedo == other.albedo
    }
}

impl vstd::std_specs::cmp::PartialEqSpecImpl for Lambertian {
    open spec fn obeys_eq_spec() -> bool {
        true
    }

    open spec fn eq_spec(&self, other: &Lambertian) -> bool {
        self.albedo_spec().same_as(&other.albedo_spec())
    }
}

} // verus!
