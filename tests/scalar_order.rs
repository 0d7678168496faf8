use ppm_image::scalar::Scalar;

fn s(x: f64) -> Scalar {
    Scalar::from_bits(x.to_bits())
}

fn samples() -> Vec<f64> {
    vec![
        0.0,
        -0.0,
        1.0,
        -1.0,
        0.5,
        -0.5,
        0.001,
        1.0e-300,
        -1.0e-300,
        f64::MIN_POSITIVE,
        f64::MIN_POSITIVE / 4.0,
        -f64::MIN_POSITIVE / 4.0,
        f64::MAX,
        f64::MIN,
        f64::INFINITY,
        f64::NEG_INFINITY,
        f64::NAN,
        -f64::NAN,
        123.456,
        -123.456,
    ]
}

#[test]
fn lt_agrees_with_float_less_than() {
    for a in samples() {
        for b in samples() {
            assert_eq!(s(a).lt(&s(b)), a < b, "{} < {}", a, b);
        }
    }
}

#[test]
fn le_agrees_with_float_at_most() {
    for a in samples() {
        for b in samples() {
            assert_eq!(s(a).le(&s(b)), a <= b, "{} <= {}", a, b);
        }
    }
}

#[test]
fn neg_flips_the_sign() {
    for a in samples() {
        assert_eq!(s(a).neg().bits, (-a).to_bits());
    }
    assert_eq!(s(2.5).neg().bits, (-2.5f64).to_bits());
}

#[test]
fn nan_is_recognised() {
    assert!(s(f64::NAN).is_nan());
    assert!(!s(f64::INFINITY).is_nan());
    assert!(!s(-0.0).is_nan());
}

#[test]
fn named_constants_are_their_values() {
    assert_eq!(Scalar::zero().bits, 0.0f64.to_bits());
    assert_eq!(Scalar::one().bits, 1.0f64.to_bits());
    assert_eq!(ppm_image::color::CLAMP_HIGH_BITS, 0.999f64.to_bits());
}
