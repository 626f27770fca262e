//! The refractive material.
use vstd::prelude::*;

use crate::float_bits::{float_lt, float_lt_spec};
use crate::hittable::HitRecord;
use crate::ray::Ray;
use crate::vec3::{Color, Vec3};

verus! {

/// The bit pattern of 1.0.
pub const ONE_BITS: u64 = 0x3FF0_0000_0000_0000;

/// A clear surface that refracts or reflects, with the given index of refraction
/// (a binary64 bit pattern, meant to be positive).
#[derive(Clone, Copy, Debug)]
pub struct Dielectric {
    index_of_refraction: u64,
}

impl Dielectric {
    pub closed spec fn index_of_refraction_spec(&self) -> u64 {
        self.index_of_refraction
    }

    pub fn new(index_of_refraction: u64) -> (r: Dielectric)
        ensures
            r.index_of_refraction_spec() == index_of_refraction,
    {
        Dielectric { index_of_refraction }
    }

    /// Whether the ray is reflected rather than refracted. `ratio_times_sine` is
    /// the refraction ratio times the sine of the angle of incidence: above 1
    /// Snell's law has no solution and the ray must reflect. Otherwise it
    /// reflects when Schlick's `reflectance` exceeds `draw`, a uniform number in
    /// [0, 1).
    pub fn reflects(ratio_times_sine: u64, reflectance: u64, draw: u64) -> (r: bool)
        ensures
            r == (float_lt_spec(ONE_BITS, ratio_times_sine) || float_lt_spec(draw, reflectance)),
    {
        float_lt(ONE_BITS, ratio_times_sine) || float_lt(draw, reflectance)
    }

    /// Scatters `ray` at `hit_record`. The ray reflects, towards `reflected`,
    /// when `reflects(ratio_times_sine, reflectance, draw)` holds (total internal
    /// reflection, or a draw under Schlick's reflectance); otherwise it refracts,
    /// towards `refracted`. Glass absorbs nothing: the result is always `Some`,
    /// with white as its attenuation.
    pub fn scatter(
        &self,
        ray: &Ray,
        hit_record: &HitRecord,
        reflected: Vec3,
        refracted: Vec3,
        ratio_times_sine: u64,
        reflectance: u64,
        draw: u64,
    ) -> (r: Option<(Ray, Color)>)
        ensures
            r matches Some((scattered, attenuation)) && {
                &&& scattered.origin_spec() == hit_record.point
                &&& scattered.direction_spec() == (if float_lt_spec(ONE_BITS, ratio_times_sine)
                    || float_lt_spec(draw, reflectance) {
                    reflected
                } else {
                    refracted
                })
                &&& scattered.time_spec() == ray.time_spec()
                &&& attenuation.x_spec() == ONE_BITS
                &&& attenuation.y_spec() == ONE_BITS
                &&& attenuation.z_spec() == ONE_BITS
            },
    {
        let direction = if Dielectric::reflects(ratio_times_sine, reflectance, draw) {
            reflected
        } else {
            refracted
        };
        let white = Vec3::new(ONE_BITS, ONE_BITS, ONE_BITS);
        Some((Ray::new(hit_record.point, direction, ray.time()), white))
    }

    pub fn index_of_refraction(&self) -> (r: u64)
        ensures
            r == self.index_of_refraction_spec(),
    {
        self.index_of_refraction
    }
}

} // verus!
