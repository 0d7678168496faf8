//! What a material decides when a ray strikes it.
//!
//! A Lambertian surface always scatters. A metal scatters its reflected ray
//! unless that ray points into the surface. A dielectric never absorbs: it
//! reflects or refracts, and the choice between the two is made here.
use vstd::prelude::*;
use crate::scalar::{Scalar, ONE_BITS, ZERO_BITS, is_nan, le, lt};

verus! {

/// Whether a metal scatters, given the dot product of the scattered direction
/// with the surface normal: only when it is positive.
pub fn metal_scatters(scattered_dot: Scalar) -> (r: bool)
    ensures
        r == lt(ZERO_BITS, scattered_dot.bits),
        le(scattered_dot.bits, ZERO_BITS) ==> !r,
        is_nan(scattered_dot.bits) ==> !r,
{
    Scalar::zero().lt(&scattered_dot)
}

/// Whether a dielectric reflects rather than refracts. `sin_ratio` is the sine
/// of the incidence angle times the ratio of refractive indices: above one,
/// no refracted ray exists. Otherwise the ray reflects when the uniform draw
/// falls below the Schlick reflectance.
pub fn dielectric_reflects(sin_ratio: Scalar, reflectance: Scalar, draw: Scalar) -> (r: bool)
    ensures
        r == (lt(ONE_BITS, sin_ratio.bits) || lt(draw.bits, reflectance.bits)),
{
    Scalar::one().lt(&sin_ratio) || draw.lt(&reflectance)
}

/// Which refraction ratio a dielectric uses.
#[derive(Clone, Copy, Debug, PartialEq, Eq, Structural)]
pub enum Ratio {
    /// `1 / refractive_index`: the ray enters the material.
    Entering,
    /// `refractive_index`: the ray leaves it.
    Leaving,
}

/// The refraction ratio for a hit on a front face or a back face.
pub fn refraction_ratio(front_face: bool) -> (r: Ratio)
    ensures
        r == (if front_face { Ratio::Entering } else { Ratio::Leaving }),
{
    if front_face {
        Ratio::Entering
    } else {
        Ratio::Leaving
    }
}

} // verus!
