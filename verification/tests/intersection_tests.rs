use togo::arc::{arc, arcseg};
use togo::binary64::Binary64;
use togo::arc::Arc;
use togo::intersection::{
    arc_arc_config, are_both_ends_towching, are_ends_towching, int_segment_point, line_arc_config,
    segment_arc_config, segment_circle_config, segment_segment_config, segments_config, ArcArcConfig,
    CircleCircleConfig, IntervalConfig, LineArcConfig, LineCircleConfig, LineLineConfig,
    SegmentArcConfig, SegmentCircleConfig, SegmentPointConfig, SegmentSegmentConfig,
};
use togo::point::{point, Point};
use togo::segment::{segment, Segment};

fn n(v: f64) -> Binary64 {
    Binary64::from_bits(v.to_bits())
}

fn pt(x: f64, y: f64) -> Point {
    point(n(x), n(y))
}

#[test]
fn int_segment_point_test_no_intersection() {
    let s0 = segment(pt(0.0, 0.0), pt(1.0, 0.0));
    let p1 = pt(2.0, 0.0);
    assert_eq!(int_segment_point(&s0, &p1), SegmentPointConfig::NoIntersection());
}

#[test]
fn segment_touching_ends() {
    let s0 = segment(pt(0.0, 0.0), pt(1.0, 0.0));
    let s1 = segment(pt(1.0, 0.0), pt(2.0, 0.0));
    let s2 = segment(pt(1.0, 0.0), pt(0.0, 0.0));
    let s3 = segment(pt(5.0, 0.0), pt(6.0, 0.0));
    assert!(are_ends_towching(&s0, &s1));
    assert!(!are_both_ends_towching(&s0, &s1));
    assert!(are_both_ends_towching(&s0, &s2));
    assert!(!are_ends_towching(&s0, &s3));
}

#[test]
fn really_intersecting_configurations() {
    let p = pt(1.0, 1.0);
    assert!(SegmentSegmentConfig::OnePoint(p, n(0.0), n(0.0)).really_intersecting());
    assert!(!SegmentSegmentConfig::OnePointTouching(p, n(0.0), n(0.0)).really_intersecting());
    assert!(SegmentSegmentConfig::TwoPoints(p, p, p, p).really_intersecting());
    assert!(!SegmentSegmentConfig::TwoPointsTouching(p, p, p, p).really_intersecting());
    assert!(!SegmentSegmentConfig::NoIntersection().really_intersecting());
    let a = arc(pt(1.0, 0.0), pt(0.0, 1.0), pt(0.0, 0.0), n(1.0));
    assert!(ArcArcConfig::NonCocircularOnePoint(p).really_intersecting());
    assert!(!ArcArcConfig::NonCocircularOnePointTouching(p).really_intersecting());
    assert!(!ArcArcConfig::CocircularTwoPoints(p, p).really_intersecting());
    assert!(ArcArcConfig::CocircularOnePointOneArc1(p, a).really_intersecting());
    assert!(ArcArcConfig::CocircularTwoArcs(a, a).really_intersecting());
    assert!(!ArcArcConfig::NoIntersection().really_intersecting());
    assert!(SegmentArcConfig::OnePoint(p, n(0.5)).really_intersecting());
    assert!(!SegmentArcConfig::TwoPointsTouching(p, p, n(0.0), n(1.0)).really_intersecting());
}

#[test]
fn segment_arc_configuration_from_circle() {
    let quarter = arc(pt(1.0, 0.0), pt(0.0, 1.0), pt(0.0, 0.0), n(1.0));
    let crossing = segment(pt(0.0, 0.0), pt(2.0, 2.0));
    let hit = pt(0.7071067811865476, 0.7071067811865476);
    let other = pt(-0.7071067811865476, -0.7071067811865476);
    let circle = SegmentCircleConfig::TwoPoints(hit, other, n(0.3), n(-0.3));
    match segment_arc_config(circle, true, false, &crossing, &quarter) {
        SegmentArcConfig::OnePoint(p, t) => {
            assert_eq!(p, hit);
            assert_eq!(f64::from_bits(t.to_bits()), 0.3);
        }
        other => assert!(false, "unexpected {:?}", other),
    }
    match segment_arc_config(circle, false, true, &crossing, &quarter) {
        SegmentArcConfig::OnePoint(p, _) => assert_eq!(p, other),
        other => assert!(false, "unexpected {:?}", other),
    }
    assert!(matches!(
        segment_arc_config(circle, false, false, &crossing, &quarter),
        SegmentArcConfig::NoIntersection()
    ));
    // the chord of the arc touches it at both ends
    let chord = segment(pt(0.0, 1.0), pt(1.0, 0.0));
    let ends = SegmentCircleConfig::TwoPoints(pt(0.0, 1.0), pt(1.0, 0.0), n(0.0), n(1.0));
    assert!(matches!(
        segment_arc_config(ends, true, true, &chord, &quarter),
        SegmentArcConfig::TwoPointsTouching(_, _, _, _)
    ));
    // a segment that starts at an end of the arc touches it there
    let from_end = segment(pt(1.0, 0.0), pt(3.0, 0.0));
    let single = SegmentCircleConfig::OnePoint(pt(1.0, 0.0), n(0.0));
    assert!(matches!(
        segment_arc_config(single, true, false, &from_end, &quarter),
        SegmentArcConfig::OnePointTouching(_, _)
    ));
    let seg_arc = arcseg(pt(0.0, 0.0), pt(1.0, 1.0));
    assert!(seg_arc.is_seg());
}

fn f(v: Binary64) -> f64 {
    f64::from_bits(v.to_bits())
}

/// The point lies on the counter-clockwise arc: it is not to the right of
/// the chord from the start to the end, seen from the point.
fn contains(x: Arc, p: Point) -> bool {
    let pa = robust::Coord { x: f(x.a.x), y: f(x.a.y) };
    let pb = robust::Coord { x: f(x.b.x), y: f(x.b.y) };
    let pp = robust::Coord { x: f(p.x), y: f(p.y) };
    robust::orient2d(pa, pp, pb) >= 0.0
}

fn unit_arc(a: Point, b: Point) -> Arc {
    arc(a, b, pt(0.0, 0.0), n(1.0))
}

#[test]
fn arc_arc_same_arc_is_one_arc() {
    let q = unit_arc(pt(1.0, 0.0), pt(0.0, 1.0));
    match arc_arc_config(CircleCircleConfig::SameCircles(), &q, &q, contains) {
        ArcArcConfig::CocircularOneArc0(x) => assert_eq!(x, q),
        other => panic!("unexpected {:?}", other),
    }
}

#[test]
fn arc_arc_cocircular_cases() {
    let e = pt(1.0, 0.0);
    let ne = pt(0.0, 1.0);
    let w = pt(-1.0, 0.0);
    let s = pt(0.0, -1.0);
    let same = CircleCircleConfig::SameCircles();
    // consecutive quarters share one end
    let q1 = unit_arc(e, ne);
    let q2 = unit_arc(ne, w);
    assert!(matches!(
        arc_arc_config(same, &q1, &q2, contains),
        ArcArcConfig::CocircularOnePoint1(p) if p == ne
    ));
    // overlapping halves meet along a quarter
    let h1 = unit_arc(e, w);
    let h2 = unit_arc(ne, s);
    match arc_arc_config(same, &h1, &h2, contains) {
        ArcArcConfig::CocircularOneArc3(x) => {
            assert_eq!(x.a, ne);
            assert_eq!(x.b, w);
            assert_eq!(x.id, 0);
        }
        other => panic!("unexpected {:?}", other),
    }
    // two halves with the same ends make the whole circle
    let top = unit_arc(e, w);
    let bottom = unit_arc(w, e);
    assert!(matches!(
        arc_arc_config(same, &top, &bottom, contains),
        ArcArcConfig::CocircularTwoPoints(a, b) if a == e && b == w
    ));
    // a quarter inside a half
    assert!(matches!(
        arc_arc_config(same, &q1, &h1, contains),
        ArcArcConfig::CocircularOneArc1(x) if x == q1
    ));
    // sharing the start, the half and the quarter overlap along the quarter
    assert!(matches!(
        arc_arc_config(same, &h1, &q1, contains),
        ArcArcConfig::CocircularOneArc2(x) if x.a == e && x.b == ne
    ));
    // an arc strictly inside the half
    let inner = unit_arc(pt(0.8, 0.6), pt(0.6, 0.8));
    assert!(matches!(
        arc_arc_config(same, &h1, &inner, contains),
        ArcArcConfig::CocircularOneArc4(x) if x == inner
    ));
    // opposite quarters do not meet
    let q3 = unit_arc(w, s);
    assert!(matches!(arc_arc_config(same, &q1, &q3, contains), ArcArcConfig::NoIntersection()));
}

#[test]
fn arc_arc_two_circles() {
    let left = arc(pt(1.0, -1.0), pt(1.0, 1.0), pt(0.0, 0.0), n(2.0f64.sqrt()));
    let right = arc(pt(1.0, 1.0), pt(1.0, -1.0), pt(2.0, 0.0), n(2.0f64.sqrt()));
    let both = CircleCircleConfig::NoncocircularTwoPoints(pt(1.0, -1.0), pt(1.0, 1.0));
    assert!(matches!(
        arc_arc_config(both, &left, &right, contains),
        ArcArcConfig::NonCocircularTwoPointsTouching(_, _)
    ));
    let quarter = unit_arc(pt(1.0, 0.0), pt(0.0, 1.0));
    let far = arc(pt(2.0, 0.0), pt(0.0, 2.0), pt(1.0, 1.0), n(1.0));
    let crossing = CircleCircleConfig::NoncocircularTwoPoints(pt(1.0, 0.0), pt(0.0, 1.0));
    assert!(matches!(
        arc_arc_config(crossing, &quarter, &far, contains),
        ArcArcConfig::NoIntersection() | ArcArcConfig::NonCocircularOnePoint(_)
            | ArcArcConfig::NonCocircularTwoPoints(_, _)
    ));
    assert!(matches!(
        arc_arc_config(CircleCircleConfig::NoIntersection(), &quarter, &far, contains),
        ArcArcConfig::NoIntersection()
    ));
    let one = CircleCircleConfig::NoncocircularOnePoint(pt(0.6, 0.8));
    let through = arc(pt(0.0, 0.0), pt(2.0, 2.0), pt(1.0, 1.0), n(2.0f64.sqrt()));
    assert!(matches!(
        arc_arc_config(one, &quarter, &through, |_x: Arc, _p: Point| true),
        ArcArcConfig::NonCocircularOnePoint(p) if p == pt(0.6, 0.8)
    ));
    assert!(matches!(
        arc_arc_config(one, &quarter, &through, |_x: Arc, _p: Point| false),
        ArcArcConfig::NoIntersection()
    ));
}

/// The coordinates of the four ends along the direction `u`.
fn keys_along(s0: &Segment, s1: &Segment, u: (f64, f64)) -> (Binary64, Binary64, Binary64, Binary64) {
    let k = |p: Point| n(f(p.x) * u.0 + f(p.y) * u.1);
    (k(s0.a), k(s0.b), k(s1.a), k(s1.b))
}

#[test]
fn segment_segment_from_lines() {
    let s0 = segment(pt(0.0, 0.0), pt(2.0, 0.0));
    let s1 = segment(pt(1.0, -1.0), pt(1.0, 1.0));
    let cross = LineLineConfig::OnePoint(pt(1.0, 0.0), n(0.0), n(0.0));
    let none = IntervalConfig::NoOverlap();
    let order = (n(0.0), n(0.0), n(0.0), n(0.0));
    assert!(matches!(
        segment_segment_config(cross, true, none, &s0, &s1, order),
        SegmentSegmentConfig::OnePoint(p, _, _) if p == pt(1.0, 0.0)
    ));
    assert!(matches!(
        segment_segment_config(cross, false, none, &s0, &s1, order),
        SegmentSegmentConfig::NoIntersection()
    ));
    let s2 = segment(pt(2.0, 0.0), pt(3.0, 5.0));
    assert!(matches!(
        segment_segment_config(LineLineConfig::OnePoint(pt(2.0, 0.0), n(1.0), n(-0.5)), true, none, &s0, &s2, order),
        SegmentSegmentConfig::OnePointTouching(_, _, _)
    ));
    assert!(matches!(
        segment_segment_config(LineLineConfig::ParallelDistinct(), true, none, &s0, &s1, order),
        SegmentSegmentConfig::NoIntersection()
    ));
}

#[test]
fn segment_segment_on_one_line() {
    let s0 = segment(pt(0.0, 0.0), pt(2.0, 0.0));
    let s1 = segment(pt(3.0, 0.0), pt(1.0, 0.0));
    let same = LineLineConfig::ParallelTheSame();
    let overlap = IntervalConfig::Overlap(n(-1.0), n(0.0));
    let order = keys_along(&s0, &s1, (1.0, 0.0));
    match segment_segment_config(same, false, overlap, &s0, &s1, order) {
        SegmentSegmentConfig::TwoPoints(p0, p1, p2, p3) => {
            let xs: Vec<f64> = [p0, p1, p2, p3].iter().map(|p| f(p.x)).collect();
            assert_eq!(xs, vec![0.0, 1.0, 2.0, 3.0]);
        }
        other => panic!("unexpected {:?}", other),
    }
    let back = segment(pt(2.0, 0.0), pt(0.0, 0.0));
    assert!(matches!(
        segment_segment_config(same, false, overlap, &s0, &back, order),
        SegmentSegmentConfig::TwoPointsTouching(_, _, _, _)
    ));
    let sharing = segment(pt(0.0, 0.0), pt(1.0, 0.0));
    assert!(matches!(
        segment_segment_config(same, false, overlap, &s0, &sharing, order),
        SegmentSegmentConfig::NoIntersection()
    ));
    assert!(matches!(
        segment_segment_config(same, false, IntervalConfig::Touching(n(1.0)), &s0, &s1, order),
        SegmentSegmentConfig::NoIntersection()
    ));
}

#[test]
fn segment_keeps_circle_points_within_extent() {
    let p0 = pt(-1.0, 0.0);
    let p1 = pt(1.0, 0.0);
    let two = LineCircleConfig::TwoPoints(p0, p1, n(-1.0), n(1.0));
    // both parameters within [-2, 2]
    assert!(matches!(
        segment_circle_config(two, n(2.0)),
        SegmentCircleConfig::TwoPoints(a, b, _, _) if a == p0 && b == p1
    ));
    // the ends of the range count
    assert!(matches!(segment_circle_config(two, n(1.0)), SegmentCircleConfig::TwoPoints(_, _, _, _)));
    // only the second within [-0.5, 0.5] after shifting
    let shifted = LineCircleConfig::TwoPoints(p0, p1, n(-3.0), n(0.5));
    assert!(matches!(
        segment_circle_config(shifted, n(0.5)),
        SegmentCircleConfig::OnePoint(p, t) if p == p1 && f(t) == 0.5
    ));
    assert!(matches!(segment_circle_config(two, n(0.5)), SegmentCircleConfig::NoIntersection()));
    let one = LineCircleConfig::OnePoint(p0, n(-0.0));
    assert!(matches!(segment_circle_config(one, n(0.0)), SegmentCircleConfig::OnePoint(_, _)));
    assert!(matches!(
        segment_circle_config(LineCircleConfig::OnePoint(p0, n(f64::NAN)), n(1.0)),
        SegmentCircleConfig::NoIntersection()
    ));
    assert!(matches!(
        segment_circle_config(LineCircleConfig::NoIntersection(), n(1.0)),
        SegmentCircleConfig::NoIntersection()
    ));
}

#[test]
fn line_keeps_circle_points_on_arc() {
    let p0 = pt(-1.0, 0.0);
    let p1 = pt(1.0, 0.0);
    let two = LineCircleConfig::TwoPoints(p0, p1, n(-1.0), n(1.0));
    assert!(matches!(line_arc_config(two, true, true), LineArcConfig::TwoPoints(_, _, _, _)));
    assert!(matches!(line_arc_config(two, true, false), LineArcConfig::OnePoint(p, _) if p == p0));
    assert!(matches!(line_arc_config(two, false, true), LineArcConfig::OnePoint(p, _) if p == p1));
    assert!(matches!(line_arc_config(two, false, false), LineArcConfig::NoIntersection()));
    let one = LineCircleConfig::OnePoint(p1, n(1.0));
    assert!(matches!(line_arc_config(one, true, false), LineArcConfig::OnePoint(p, _) if p == p1));
    assert!(matches!(line_arc_config(one, false, true), LineArcConfig::NoIntersection()));
}

#[test]
fn segments_config_with_single_points() {
    let dot0 = segment(pt(1.0, 1.0), pt(1.0, 1.0));
    let dot1 = segment(pt(1.0, 1.0), pt(1.0, 1.0));
    let s = segment(pt(0.0, 0.0), pt(2.0, 2.0));
    let lines = LineLineConfig::ParallelDistinct();
    let none = IntervalConfig::NoOverlap();
    let order = (n(0.0), n(0.0), n(0.0), n(0.0));
    assert!(matches!(
        segments_config(true, true, true, lines, false, none, &dot0, &dot1, order),
        SegmentSegmentConfig::OnePointTouching(p, a, b) if p == pt(1.0, 1.0) && f(a) == 0.0 && f(b) == 0.0
    ));
    assert!(matches!(
        segments_config(true, true, false, lines, false, none, &dot0, &dot1, order),
        SegmentSegmentConfig::NoIntersection()
    ));
    assert!(matches!(
        segments_config(true, false, true, lines, false, none, &dot0, &s, order),
        SegmentSegmentConfig::OnePoint(p, _, _) if p == pt(1.0, 1.0)
    ));
    assert!(matches!(
        segments_config(false, true, true, lines, false, none, &s, &dot1, order),
        SegmentSegmentConfig::OnePoint(p, _, _) if p == pt(1.0, 1.0)
    ));
    assert!(matches!(
        segments_config(false, true, false, lines, false, none, &s, &dot1, order),
        SegmentSegmentConfig::NoIntersection()
    ));
    // proper segments go by the line intersection
    let t = segment(pt(0.0, 2.0), pt(2.0, 0.0));
    let cross = LineLineConfig::OnePoint(pt(1.0, 1.0), n(0.0), n(0.0));
    assert!(matches!(
        segments_config(false, false, false, cross, true, none, &s, &t, order),
        SegmentSegmentConfig::OnePoint(p, _, _) if p == pt(1.0, 1.0)
    ));
}
