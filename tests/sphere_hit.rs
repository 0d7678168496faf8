use ppm_image::intersect::{check_radius, front_face, pick_root, GeometryError, Root};
use ppm_image::scalar::Scalar;

fn s(x: f64) -> Scalar {
    Scalar::from_bits(x.to_bits())
}

/// Discriminant and roots for a ray `o + t d` against a sphere.
fn quadratic(o: [f64; 3], d: [f64; 3], center: [f64; 3], radius: f64) -> (f64, f64, f64) {
    let oc = [o[0] - center[0], o[1] - center[1], o[2] - center[2]];
    let a = d[0] * d[0] + d[1] * d[1] + d[2] * d[2];
    let half_b = oc[0] * d[0] + oc[1] * d[1] + oc[2] * d[2];
    let c = oc[0] * oc[0] + oc[1] * oc[1] + oc[2] * oc[2] - radius * radius;
    let disc = half_b * half_b - a * c;
    let sq = disc.sqrt();
    (disc, (-half_b - sq) / a, (-half_b + sq) / a)
}

fn pick(o: [f64; 3], d: [f64; 3], center: [f64; 3], radius: f64, t_min: f64, t_max: f64) -> Option<Root> {
    let (disc, near, far) = quadratic(o, d, center, radius);
    pick_root(s(disc), s(near), s(far), s(t_min), s(t_max))
}

#[test]
fn ray_through_center_takes_nearer_root() {
    let (disc, near, far) = quadratic([0.0, 0.0, 0.0], [0.0, 0.0, -1.0], [0.0, 0.0, -1.0], 0.5);
    assert_eq!(disc, 0.25);
    assert_eq!(near, 0.5);
    assert_eq!(far, 1.5);
    let r = pick_root(s(disc), s(near), s(far), s(0.001), s(f64::INFINITY));
    assert_eq!(r, Some(Root::Near));
}

#[test]
fn ray_from_inside_takes_farther_root() {
    let r = pick([0.0, 0.0, -1.0], [0.0, 0.0, -1.0], [0.0, 0.0, -1.0], 0.5, 0.001, f64::INFINITY);
    assert_eq!(r, Some(Root::Far));
}

#[test]
fn ray_that_misses_gives_no_hit() {
    let (disc, _, _) = quadratic([0.0, 2.0, 0.0], [0.0, 0.0, -1.0], [0.0, 0.0, -1.0], 0.5);
    assert!(disc < 0.0);
    let r = pick([0.0, 2.0, 0.0], [0.0, 0.0, -1.0], [0.0, 0.0, -1.0], 0.5, 0.001, f64::INFINITY);
    assert_eq!(r, None);
    assert_eq!(pick_root(s(-1.0), s(0.5), s(1.5), s(0.001), s(f64::INFINITY)), None);
}

#[test]
fn tangent_ray_hits_its_single_root() {
    let (disc, near, far) = quadratic([0.0, 0.5, 0.0], [0.0, 0.0, -1.0], [0.0, 0.0, -1.0], 0.5);
    assert_eq!(disc, 0.0);
    assert_eq!(near, far);
    let r = pick_root(s(disc), s(near), s(far), s(0.001), s(f64::INFINITY));
    assert_eq!(r, Some(Root::Near));
}

#[test]
fn bounds_are_exclusive() {
    assert_eq!(pick_root(s(0.25), s(0.5), s(1.5), s(0.5), s(10.0)), Some(Root::Far));
    assert_eq!(pick_root(s(0.25), s(0.5), s(1.5), s(0.001), s(1.5)), Some(Root::Near));
    assert_eq!(pick_root(s(0.25), s(0.5), s(1.5), s(0.5), s(1.5)), None);
    assert_eq!(pick_root(s(0.25), s(0.5), s(1.5), s(2.0), s(3.0)), None);
    assert_eq!(pick_root(s(0.25), s(0.5), s(1.5), s(0.001), s(0.4)), None);
}

#[test]
fn sphere_behind_the_ray_is_missed() {
    let r = pick([0.0, 0.0, 0.0], [0.0, 0.0, 1.0], [0.0, 0.0, -1.0], 0.5, 0.001, f64::INFINITY);
    assert_eq!(r, None);
}

#[test]
fn face_orientation_follows_the_sign_of_the_dot_product() {
    assert!(front_face(s(-1.0)));
    assert!(front_face(s(-1.0e-300)));
    assert!(!front_face(s(1.0)));
    assert!(!front_face(s(0.0)));
    assert!(!front_face(s(-0.0)));
    assert!(!front_face(s(f64::NAN)));
}

#[test]
fn recorded_normal_points_against_the_ray() {
    for d in [-2.0, -1.0e-300, -0.0, 0.0, 1.0e-300, 0.5, 3.0, f64::INFINITY, f64::NEG_INFINITY] {
        let front = front_face(s(d));
        assert_eq!(front, d < 0.0);
        if front {
            assert!(d <= 0.0);
        } else {
            assert!(d >= 0.0);
        }
        let facing = if front { s(d) } else { s(d).neg() };
        assert!(f64::from_bits(facing.bits) <= 0.0);
    }
}

#[test]
fn radius_is_checked_when_the_scene_is_built() {
    assert_eq!(check_radius(s(0.5)), Ok(()));
    assert_eq!(check_radius(s(100.0)), Ok(()));
    assert_eq!(check_radius(s(1.0e-300)), Ok(()));
    assert_eq!(check_radius(s(0.0)), Err(GeometryError::NonPositiveRadius));
    assert_eq!(check_radius(s(-0.0)), Err(GeometryError::NonPositiveRadius));
    assert_eq!(check_radius(s(-2.0)), Err(GeometryError::NonPositiveRadius));
    assert_eq!(check_radius(s(f64::INFINITY)), Err(GeometryError::NonFiniteRadius));
    assert_eq!(check_radius(s(f64::NAN)), Err(GeometryError::NonFiniteRadius));
}
