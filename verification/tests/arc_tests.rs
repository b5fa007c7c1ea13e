use togo::arc::{arc, arcline_reverse, arcseg, Arc, Arcline};
use togo::binary64::Binary64;
use togo::point::{point, Point};

fn n(v: f64) -> Binary64 {
    Binary64::from_bits(v.to_bits())
}

fn pt(x: f64, y: f64) -> Point {
    point(n(x), n(y))
}

fn val(b: Binary64) -> f64 {
    f64::from_bits(b.to_bits())
}

fn mk(a: Point, b: Point, c: Point, r: f64, id: usize) -> Arc {
    Arc { a, b, c, r: n(r), id }
}

const ARC_COLLAPSED_TOLERANCE: f64 = 1E-8;

#[test]
fn arc_test_new() {
    let arc0 = Arc::new(pt(1.0, 1.0), pt(1.0, 3.0), pt(2.0, -1.0), n(1.0));
    let arc1 = arc(pt(1.0, 1.0), pt(1.0, 3.0), pt(2.0, -1.0), n(1.0));
    assert_eq!(arc0, arc1);
}

#[test]
fn test_id_set() {
    let mut arc = arc(pt(1.0, 1.0), pt(1.0, 3.0), pt(2.0, -1.0), n(1.0));
    arc.id(42);
    assert!(arc.id == 42);
}

#[test]
fn test_is_arc() {
    let arc = arcseg(pt(1.0, 1.0), pt(1.0, 3.0));
    assert!(arc.is_seg());
    assert!(!arc.is_arc());
}

#[test]
fn test_arcseg_creation() {
    let line_arc = arcseg(pt(0.0, 0.0), pt(5.0, 5.0));
    assert!(line_arc.is_seg());
    assert!(!line_arc.is_arc());
    assert_eq!(val(line_arc.r), f64::INFINITY);
    assert_eq!(line_arc.a, pt(0.0, 0.0));
    assert_eq!(line_arc.b, pt(5.0, 5.0));
}

#[test]
fn test_arc_reverse() {
    let forward = arc(pt(1.0, 0.0), pt(0.0, 1.0), pt(0.0, 0.0), n(1.0));
    let reversed = forward.reverse();
    assert_eq!(reversed.a, forward.b);
    assert_eq!(reversed.b, forward.a);
    assert_eq!(reversed.c, forward.c);
    assert_eq!(reversed.r, forward.r);
}

#[test]
fn test_copy() {
    let arc = arcseg(pt(1.0, 1.0), pt(1.0, 3.0));
    let arc2 = arc;
    assert_eq!(arc, arc2);
}

#[test]
fn test_reverse() {
    let forward = arc(pt(1.0, 0.0), pt(0.0, 1.0), pt(0.0, 0.0), n(1.0));
    let reversed = forward.reverse();
    assert_eq!(reversed.a, forward.b);
    assert_eq!(reversed.b, forward.a);
    assert_eq!(reversed.c, forward.c);
    assert_eq!(reversed.r, forward.r);
    assert_eq!(reversed.a, pt(0.0, 1.0));
    assert_eq!(reversed.b, pt(1.0, 0.0));
    assert_eq!(reversed.c, pt(0.0, 0.0));
    assert_eq!(val(reversed.r), 1.0);
}

#[test]
fn test_reverse_twice_returns_original() {
    let forward = arc(pt(3.0, 4.0), pt(1.0, 2.0), pt(2.0, 3.0), n(2.5));
    let double_reversed = forward.reverse().reverse();
    assert_eq!(double_reversed.a, forward.a);
    assert_eq!(double_reversed.b, forward.b);
    assert_eq!(double_reversed.c, forward.c);
    assert_eq!(double_reversed.r, forward.r);
}

fn base(r: f64) -> Arc {
    arc(pt(0.0, 0.0), pt(1.0, 0.0), pt(0.5, 0.0), n(r))
}

#[test]
fn test_arc_is_collapsed_radius_normal_values() {
    let eps = n(ARC_COLLAPSED_TOLERANCE);
    assert!(!base(1.0).is_collapsed_radius(eps));
    assert!(!base(0.1).is_collapsed_radius(eps));
    assert!(!base(100.0).is_collapsed_radius(eps));
    assert!(!base(f64::INFINITY).is_collapsed_radius(eps));
}

#[test]
fn test_arc_is_collapsed_radius_small_values() {
    let eps = n(ARC_COLLAPSED_TOLERANCE);
    assert!(base(1E-9).is_collapsed_radius(eps));
    assert!(base(1E-10).is_collapsed_radius(eps));
    assert!(base(0.0).is_collapsed_radius(eps));
}

#[test]
fn test_arc_is_collapsed_radius_boundary_values() {
    let eps = n(ARC_COLLAPSED_TOLERANCE);
    assert!(base(ARC_COLLAPSED_TOLERANCE / 2.0).is_collapsed_radius(eps));
    assert!(!base(ARC_COLLAPSED_TOLERANCE * 2.0).is_collapsed_radius(eps));
    assert!(base(ARC_COLLAPSED_TOLERANCE - f64::EPSILON).is_collapsed_radius(eps));
}

#[test]
fn test_arc_is_collapsed_radius_negative_values() {
    let eps = n(ARC_COLLAPSED_TOLERANCE);
    assert!(base(-1.0).is_collapsed_radius(eps));
    assert!(base(-0.1).is_collapsed_radius(eps));
    assert!(base(-1E-10).is_collapsed_radius(eps));
}

#[test]
fn test_arc_is_collapsed_radius_nan() {
    let eps = n(ARC_COLLAPSED_TOLERANCE);
    assert!(base(f64::NAN).is_collapsed_radius(eps));
}

#[test]
fn collapsed_radius_exactly_at_tolerance_is_not_collapsed() {
    let eps = n(ARC_COLLAPSED_TOLERANCE);
    assert!(!base(ARC_COLLAPSED_TOLERANCE).is_collapsed_radius(eps));
}

#[test]
fn test_arcline_reverse_basic() {
    let arc1 = mk(pt(0.0, 0.0), pt(1.0, 0.0), pt(0.5, 0.5), 1.0, 1);
    let arc2 = mk(pt(1.0, 0.0), pt(1.0, 1.0), pt(1.0, 0.5), 1.0, 2);
    let arcline = vec![arc1, arc2];
    let reversed = arcline_reverse(&arcline);
    assert_eq!(reversed.len(), 2);
    assert_eq!(reversed[0].a, arc2.a);
    assert_eq!(reversed[0].b, arc2.b);
    assert_eq!(reversed[1].a, arc1.a);
    assert_eq!(reversed[1].b, arc1.b);
    assert_eq!(reversed[0].id, arc2.id);
    assert_eq!(reversed[1].id, arc1.id);
}

#[test]
fn test_arcline_reverse_empty() {
    let arcline: Arcline = vec![];
    let reversed = arcline_reverse(&arcline);
    assert_eq!(reversed.len(), 0);
}

#[test]
fn test_arcline_reverse_single_arc() {
    let arc = mk(pt(2.0, 2.0), pt(3.0, 3.0), pt(2.5, 2.5), 2.0, 42);
    let arcline = vec![arc];
    let reversed = arcline_reverse(&arcline);
    assert_eq!(reversed.len(), 1);
    assert_eq!(reversed[0].a, arc.a);
    assert_eq!(reversed[0].b, arc.b);
    assert_eq!(reversed[0].id, arc.id);
}

#[test]
fn test_arcline_reverse_all_lines() {
    let arc1 = mk(pt(0.0, 0.0), pt(1.0, 0.0), pt(0.0, 0.0), f64::INFINITY, 1);
    let arc2 = mk(pt(1.0, 0.0), pt(2.0, 0.0), pt(0.0, 0.0), f64::INFINITY, 2);
    let arcline = vec![arc1, arc2];
    let reversed = arcline_reverse(&arcline);
    assert_eq!(val(reversed[0].r), f64::INFINITY);
    assert_eq!(val(reversed[1].r), f64::INFINITY);
    assert_eq!(reversed[0].a, arc2.b);
    assert_eq!(reversed[0].b, arc2.a);
    assert_eq!(reversed[1].a, arc1.b);
    assert_eq!(reversed[1].b, arc1.a);
}

#[test]
fn test_arcline_reverse_all_arcs() {
    let arc1 = mk(pt(0.0, 0.0), pt(1.0, 0.0), pt(0.5, 0.5), 2.0, 1);
    let arc2 = mk(pt(1.0, 0.0), pt(2.0, 0.0), pt(1.5, 0.5), 2.0, 2);
    let arcline = vec![arc1, arc2];
    let reversed = arcline_reverse(&arcline);
    assert!(reversed.iter().all(|arc| val(arc.r) == 2.0));
    assert_eq!(reversed[0].a, arc2.a);
    assert_eq!(reversed[0].b, arc2.b);
    assert_eq!(reversed[1].a, arc1.a);
    assert_eq!(reversed[1].b, arc1.b);
}

#[test]
fn arcline_reverse_twice_restores_the_arcline() {
    let arcline = vec![
        mk(pt(0.0, 0.0), pt(1.0, 0.0), pt(0.5, 0.5), 1.0, 1),
        arcseg(pt(1.0, 0.0), pt(3.0, 2.0)),
        mk(pt(3.0, 2.0), pt(3.0, 4.0), pt(4.0, 3.0), 1.414213562373095, 3),
    ];
    let twice = arcline_reverse(&arcline_reverse(&arcline));
    assert_eq!(twice, arcline);
    assert_eq!(twice[0].id, 1);
    assert_eq!(twice[2].id, 3);
}

#[test]
fn arc_equality_ignores_the_identifier() {
    let a = mk(pt(0.0, 0.0), pt(1.0, 0.0), pt(0.5, 0.5), 1.0, 1);
    let b = mk(pt(0.0, 0.0), pt(1.0, 0.0), pt(0.5, 0.5), 1.0, 7);
    assert_eq!(a, b);
    let c = mk(pt(0.0, 0.0), pt(1.0, 0.0), pt(0.5, 0.5), 2.0, 1);
    assert_ne!(a, c);
}

#[test]
fn validity_from_metric_results() {
    let eps = n(1e-8);
    let seg = arcseg(pt(0.0, 0.0), pt(1.0, 0.0));
    assert!(seg.is_valid_given(eps, false, false));
    assert!(!seg.is_valid_given(eps, true, true));
    let quarter = arc(pt(1.0, 0.0), pt(0.0, 1.0), pt(0.0, 0.0), n(1.0));
    assert!(quarter.is_valid_given(eps, false, true));
    assert!(!quarter.is_valid_given(eps, false, false));
    assert!(!quarter.is_valid_given(eps, true, true));
    let tiny = arc(pt(1.0, 0.0), pt(0.0, 1.0), pt(0.0, 0.0), n(1e-9));
    assert!(!tiny.is_valid_given(eps, false, true));
    let nan = arc(pt(1.0, 0.0), pt(0.0, 1.0), pt(0.0, 0.0), n(f64::NAN));
    assert!(!nan.is_valid_given(eps, false, true));
}

#[test]
fn tangents_checked_at_shared_ends_only() {
    let s1 = arcseg(pt(0.0, 0.0), pt(1.0, 0.0));
    let s2 = arcseg(pt(1.0, 0.0), pt(2.0, 0.0));
    // the ends shared are s1.b (index 1) and s2.a (index 0)
    assert!(togo::arc::tangents_collinear(&s1, &s2, |i: usize, j: usize| i == 1 && j == 0));
    assert!(!togo::arc::tangents_collinear(&s1, &s2, |i: usize, j: usize| !(i == 1 && j == 0)));
    let apart = arcseg(pt(5.0, 5.0), pt(6.0, 6.0));
    assert!(!togo::arc::tangents_collinear(&s1, &apart, |_i: usize, _j: usize| true));
}
