//! Decisions of the ray-sphere test.
//!
//! A point `O + tD` lies on the sphere of center `C` and radius `r` when
//! `a t² + 2 half_b t + c = 0` with `a = D·D`, `half_b = (O - C)·D` and
//! `c = |O - C|² - r²`. The arithmetic is done by the caller; here stands what
//! is decided from its results.
use vstd::prelude::*;
use crate::scalar::{Scalar, ZERO_BITS, is_finite, is_nan, le, lt, negated};

verus! {

/// Which root of the quadratic a hit lies at.
#[derive(Clone, Copy, Debug, PartialEq, Eq, Structural)]
pub enum Root {
    /// `(-half_b - √discriminant) / a`
    Near,
    /// `(-half_b + √discriminant) / a`
    Far,
}

/// Why a sphere cannot stand in a scene.
#[derive(Clone, Copy, Debug, PartialEq, Eq, Structural)]
pub enum GeometryError {
    /// The radius is NaN or infinite.
    NonFiniteRadius,
    /// The radius is zero or negative.
    NonPositiveRadius,
}

/// Checks a sphere's radius when the scene is built, so that a degenerate
/// sphere is refused there instead of filling the image with NaN.
pub fn check_radius(radius: Scalar) -> (r: Result<(), GeometryError>)
    ensures
        r is Ok <==> is_finite(radius.bits) && lt(ZERO_BITS, radius.bits),
        r == Err::<(), _>(GeometryError::NonFiniteRadius) <==> !is_finite(radius.bits),
        r == Err::<(), _>(GeometryError::NonPositiveRadius) <==> is_finite(radius.bits) && !lt(ZERO_BITS, radius.bits),
{
    if !radius.is_finite() {
        Err(GeometryError::NonFiniteRadius)
    } else if !Scalar::zero().lt(&radius) {
        Err(GeometryError::NonPositiveRadius)
    } else {
        Ok(())
    }
}

/// `t` lies strictly between `t_min` and `t_max`.
pub open spec fn in_open_range(t: u64, t_min: u64, t_max: u64) -> bool {
    lt(t_min, t) && lt(t, t_max)
}

/// The root a hit is reported at: none when the discriminant is negative (the
/// ray misses the sphere), else the nearer root if it lies in range, else the
/// farther one if it does.
pub open spec fn chosen_root(discriminant: u64, near: u64, far: u64, t_min: u64, t_max: u64) -> Option<Root> {
    if lt(discriminant, ZERO_BITS) {
        None
    } else if in_open_range(near, t_min, t_max) {
        Some(Root::Near)
    } else if in_open_range(far, t_min, t_max) {
        Some(Root::Far)
    } else {
        None
    }
}

/// The value of the root that `root` names.
pub open spec fn root_value(root: Root, near: u64, far: u64) -> u64 {
    match root {
        Root::Near => near,
        Root::Far => far,
    }
}

/// Picks the root a sphere is hit at, from the discriminant and the two
/// roots. When the discriminant is negative the roots are not read. A tangent
/// ray has equal roots and goes through the same steps.
pub fn pick_root(discriminant: Scalar, near: Scalar, far: Scalar, t_min: Scalar, t_max: Scalar) -> (r:
    Option<Root>)
    ensures
        r == chosen_root(discriminant.bits, near.bits, far.bits, t_min.bits, t_max.bits),
{
    if discriminant.lt(&Scalar::zero()) {
        None
    } else if t_min.lt(&near) && near.lt(&t_max) {
        Some(Root::Near)
    } else if t_min.lt(&far) && far.lt(&t_max) {
        Some(Root::Far)
    } else {
        None
    }
}

/// A ray that misses the sphere gives no hit, whatever the roots and bounds.
pub proof fn lemma_miss_gives_no_hit(discriminant: u64, near: u64, far: u64, t_min: u64, t_max: u64)
    requires
        lt(discriminant, ZERO_BITS),
    ensures
        chosen_root(discriminant, near, far, t_min, t_max) is None,
{
}

/// A hit lies strictly inside the bounds, and no root in the bounds is nearer
/// than the one chosen: with both roots in range, the nearer is taken.
pub proof fn lemma_nearest_root_chosen(discriminant: u64, near: u64, far: u64, t_min: u64, t_max: u64)
    requires
        le(near, far),
    ensures
        chosen_root(discriminant, near, far, t_min, t_max) matches Some(root) ==> {
            let t = root_value(root, near, far);
            &&& in_open_range(t, t_min, t_max)
            &&& !(in_open_range(near, t_min, t_max) && lt(near, t))
            &&& !(in_open_range(far, t_min, t_max) && lt(far, t))
        },
        !lt(discriminant, ZERO_BITS) && in_open_range(near, t_min, t_max)
            ==> chosen_root(discriminant, near, far, t_min, t_max) == Some(Root::Near),
{
    crate::scalar::lemma_order_total(near, far, far);
}

/// Whether the ray meets the surface from outside, given the dot product of
/// the ray direction with the outward normal: it does when that product is
/// negative.
pub fn front_face(outward_dot: Scalar) -> (r: bool)
    ensures
        r == lt(outward_dot.bits, ZERO_BITS),
{
    outward_dot.lt(&Scalar::zero())
}

/// The dot product of the ray direction with the recorded normal, which is the
/// outward normal on a front face and its negation on a back face.
pub open spec fn facing_dot(outward_dot: u64) -> u64 {
    if lt(outward_dot, ZERO_BITS) {
        outward_dot
    } else {
        negated(outward_dot)
    }
}

/// On a front face the ray and the outward normal point against each other
/// (dot product at most zero), on a back face they do not (at least zero);
/// and the recorded normal always points against the incoming ray.
pub proof fn lemma_normal_against_ray(outward_dot: u64)
    requires
        !is_nan(outward_dot),
    ensures
        lt(outward_dot, ZERO_BITS) ==> le(outward_dot, ZERO_BITS),
        !lt(outward_dot, ZERO_BITS) ==> le(ZERO_BITS, outward_dot),
        le(facing_dot(outward_dot), ZERO_BITS),
{
}

} // verus!
