//! The bounce budget of the radiance integrator.
use vstd::prelude::*;

use crate::ray::Ray;
use crate::vec3::{Color, Vec3};

verus! {

/// The radiance of a ray whose bounce budget `depth` is spent: black, decided
/// before the ray is tested against the scene. `None` while budget is left, in
/// which case the ray is traced and whatever it scatters into gets `depth - 1`.
pub fn exhausted_radiance(depth: i32) -> (r: Option<Color>)
    ensures
        depth <= 0 <==> r is Some,
        r matches Some(c) ==> c == Vec3::zero_spec(),
{
    if depth <= 0 {
        Some(Vec3::zero())
    } else {
        None
    }
}

/// What the integrator does with a ray once the scene and the material have had
/// their say.
#[derive(Debug)]
pub enum Bounce {
    /// The ray left the scene: its radiance is the background gradient.
    Background,
    /// The light was absorbed, or the budget was spent: its radiance is black.
    Black,
    /// The radiance is `attenuation` times that of `scattered`, traced with
    /// `depth` bounces left.
    Follow { scattered: Ray, attenuation: Color, depth: i32 },
}

/// The next step for a ray traced with bounce budget `depth`. `outcome` is
/// `None` where the ray missed every object, `Some(None)` where the material hit
/// absorbed it, and `Some(Some((scattered, attenuation)))` where it scattered.
/// Only a scattered ray is followed, with one bounce fewer; a miss ends the path
/// at the background with no further tracing.
pub fn next_bounce(depth: i32, outcome: Option<Option<(Ray, Color)>>) -> (r: Bounce)
    ensures
        depth <= 0 ==> r is Black,
        depth > 0 ==> match outcome {
            None => r is Background,
            Some(None) => r is Black,
            Some(Some((s, a))) => r == (Bounce::Follow {
                scattered: s,
                attenuation: a,
                depth: (depth - 1) as i32,
            }),
        },
{
    if depth <= 0 {
        return Bounce::Black;
    }
    match outcome {
        None => Bounce::Background,
        Some(None) => Bounce::Black,
        Some(Some((scattered, attenuation))) => Bounce::Follow {
            scattered,
            attenuation,
            depth: depth - 1,
        },
    }
}

} // verus!
