//! Building blocks of a Monte Carlo path tracer, with every real number held as
//! its IEEE 754 binary64 bit pattern so that comparisons, signs and the shapes of
//! the scene data can be stated and proved exactly.
pub mod dielectric;
pub mod float_bits;
pub mod hittable;
pub mod hittable_list;
pub mod integrator;
pub mod lambertian;
pub mod metal;
pub mod moving_sphere;
pub mod ray;
pub mod sphere;
pub mod utils;
pub mod vec3;

pub use crate::dielectric::Dielectric;
pub use crate::hittable::HitRecord;
pub use crate::hittable_list::{keep_closest, HittableList};
pub use crate::integrator::{exhausted_radiance, next_bounce, Bounce};
pub use crate::lambertian::Lambertian;
pub use crate::metal::Metal;
pub use crate::moving_sphere::MovingSphere;
pub use crate::ray::Ray;
pub use crate::sphere::Sphere;
pub use crate::utils::clamp;
pub use crate::vec3::{Color, Point3, Vec3};
