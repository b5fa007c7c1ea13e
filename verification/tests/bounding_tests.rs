use togo::binary64::Binary64;
use togo::bounding::angle_in_range;
use std::f64::consts::PI;

fn n(v: f64) -> Binary64 {
    Binary64::from_bits(v.to_bits())
}

#[test]
fn angle_in_plain_range() {
    assert!(angle_in_range(n(0.5 * PI), n(0.0), n(PI)));
    assert!(angle_in_range(n(0.0), n(0.0), n(PI)));
    assert!(angle_in_range(n(PI), n(0.0), n(PI)));
    assert!(!angle_in_range(n(1.5 * PI), n(0.0), n(PI)));
}

#[test]
fn angle_in_wrapping_range() {
    // from 270 degrees around to 90 degrees
    assert!(angle_in_range(n(0.0), n(1.5 * PI), n(0.5 * PI)));
    assert!(angle_in_range(n(1.75 * PI), n(1.5 * PI), n(0.5 * PI)));
    assert!(!angle_in_range(n(PI), n(1.5 * PI), n(0.5 * PI)));
}

#[test]
fn nan_angle_is_never_in_range() {
    assert!(!angle_in_range(n(f64::NAN), n(0.0), n(PI)));
    assert!(!angle_in_range(n(f64::NAN), n(1.5 * PI), n(0.5 * PI)));
}

#[test]
fn range_ends_are_in_range() {
    for (s, e) in [(0.0, PI), (1.5 * PI, 0.5 * PI), (1.0, 1.0), (-0.0, 0.0)] {
        assert!(angle_in_range(n(s), n(s), n(e)));
        assert!(angle_in_range(n(e), n(s), n(e)));
    }
}
