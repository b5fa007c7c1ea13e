use togo::binary64::Binary64;
use togo::line::Line;
use togo::point::{point, Point};
use togo::rect::{rect, Rect};
use togo::segment::{segment, Segment};

fn n(v: f64) -> Binary64 {
    Binary64::from_bits(v.to_bits())
}

fn pt(x: f64, y: f64) -> Point {
    point(n(x), n(y))
}

fn coords(p: Point) -> (f64, f64) {
    (f64::from_bits(p.x.to_bits()), f64::from_bits(p.y.to_bits()))
}

/// The coordinate of `p` along the direction `u` (exact on these small
/// inputs).
fn along(p: Point, u: (f64, f64)) -> Binary64 {
    let (x, y) = coords(p);
    n(x * u.0 + y * u.1)
}

/// Sorts four collinear points by their coordinates along the longer of
/// `b - a` and `d - c`.
fn sort_colinear(a: Point, b: Point, c: Point, d: Point) -> (Point, Point, Point, Point) {
    let (ax, ay) = coords(a);
    let (bx, by) = coords(b);
    let (cx, cy) = coords(c);
    let (dx, dy) = coords(d);
    let dir0 = (bx - ax, by - ay);
    let dir1 = (dx - cx, dy - cy);
    let len0 = dir0.0 * dir0.0 + dir0.1 * dir0.1;
    let len1 = dir1.0 * dir1.0 + dir1.1 * dir1.1;
    let u = if len0 >= len1 { dir0 } else { dir1 };
    let (e, f, g, h) =
        Point::sort_colinear_points((a, along(a, u)), (b, along(b, u)), (c, along(c, u)), (d, along(d, u)));
    (e.0, f.0, g.0, h.0)
}

#[test]
fn test_neg() {
    let p1 = pt(1.0, 3.0);
    let p2 = pt(-1.0, -3.0);
    assert_eq!(-p1, p2);
}

#[test]
fn point_test_new() {
    let point0 = Point::new(n(1.0), n(2.0));
    let point1 = pt(1.0, 2.0);
    assert_eq!(point0, point1);
}

#[test]
fn test_sort_parallel_points_01() {
    let a = pt(1.0, 1.0);
    let b = pt(3.0, 3.0);
    let c = pt(2.0, 2.0);
    let d = pt(4.0, 4.0);
    let (e, f, g, h) = sort_colinear(a, b, c, d);
    assert_eq!(e, a);
    assert_eq!(f, c);
    assert_eq!(g, b);
    assert_eq!(h, d);
}

#[test]
fn test_sort_parallel_points_02() {
    let a = pt(1.0, 1.0);
    let b = pt(3.0, 3.0);
    let c = pt(4.0, 4.0);
    let d = pt(2.0, 2.0);
    let (e, f, g, h) = sort_colinear(a, b, c, d);
    assert_eq!(e, a);
    assert_eq!(f, d);
    assert_eq!(g, b);
    assert_eq!(h, c);
}

#[test]
fn test_sort_parallel_points_03() {
    let a = pt(1.0, 1.0);
    let b = pt(2.0, 2.0);
    let c = pt(4.0, 4.0);
    let d = pt(-1.0, -1.0);
    let (e, f, g, h) = sort_colinear(a, b, c, d);
    assert_eq!(e, c);
    assert_eq!(f, b);
    assert_eq!(g, a);
    assert_eq!(h, d);
}

#[test]
fn test_default() {
    let default_point = Point::default();
    assert_eq!(default_point, pt(0.0, 0.0));
}

#[test]
fn test_clone_copy() {
    let p1 = pt(3.0, 4.0);
    let p2 = p1;
    let p3 = p1.clone();
    assert_eq!(p1, p2);
    assert_eq!(p1, p3);
    assert_eq!(p2, p3);
}

#[test]
fn point_equality_is_ieee_equality() {
    assert_eq!(pt(0.0, -0.0), pt(-0.0, 0.0));
    assert_ne!(pt(f64::NAN, 1.0), pt(f64::NAN, 1.0));
    assert_ne!(pt(1.0, 2.0), pt(2.0, 1.0));
}

#[test]
fn neg_flips_both_signs() {
    let p = -pt(0.0, -2.5);
    assert_eq!(p.x.to_bits(), (-0.0f64).to_bits());
    assert_eq!(p.y.to_bits(), 2.5f64.to_bits());
    assert_eq!(-(-p), p);
}

#[test]
fn segment_test_new() {
    let s0 = Segment::new(pt(1.0, 2.0), pt(3.0, 4.0));
    let s1 = segment(pt(1.0, 2.0), pt(3.0, 4.0));
    assert_eq!(s0, s1);
}

#[test]
fn line_test_new() {
    let l0 = Line::new(pt(1.0, 2.0), pt(3.0, 4.0));
    let l1 = togo::line::line(pt(1.0, 2.0), pt(3.0, 4.0));
    assert_eq!(l0, l1);
}

#[test]
fn rect_new_keeps_corners() {
    let r0 = Rect::new(pt(1.0, 2.0), pt(3.0, 4.0));
    let r1 = rect(pt(1.0, 2.0), pt(3.0, 4.0));
    assert_eq!(r0, r1);
    assert_eq!(r0.p1, pt(1.0, 2.0));
    assert_eq!(r0.p2, pt(3.0, 4.0));
    assert_ne!(r0, rect(pt(3.0, 4.0), pt(1.0, 2.0)));
}

#[test]
fn test_partial_ord() {
    let p1 = pt(1.0, 1.0);
    let p2 = pt(2.0, 2.0);
    let p3 = pt(1.0, 2.0);

    // lexicographic: x first, then y
    assert!(p1 < p2);
    assert!(p1 < p3);
    assert!(p3 < p2);

    let p4 = pt(1.0, 1.0);
    assert!(p1 <= p4);
    assert!(p1 >= p4);

    // same x, different y
    let p5 = pt(1.0, 0.5);
    let p6 = pt(1.0, 1.5);
    assert!(p5 < p6);
}

#[test]
fn partial_ord_follows_ieee() {
    let nan = pt(f64::NAN, 0.0);
    let p = pt(0.0, 0.0);
    assert_eq!(nan.partial_cmp(&p), None);
    assert!(!(nan < p) && !(nan > p) && !(nan <= p));
    assert_eq!(pt(-0.0, 1.0).partial_cmp(&pt(0.0, 1.0)), Some(std::cmp::Ordering::Equal));
    assert_eq!(pt(1.0, f64::NAN).partial_cmp(&pt(2.0, 0.0)), Some(std::cmp::Ordering::Less));
    assert_eq!(pt(1.0, f64::NAN).partial_cmp(&pt(1.0, 0.0)), None);
    assert_eq!(pt(3.0, -1.0).partial_cmp(&pt(3.0, -2.0)), Some(std::cmp::Ordering::Greater));
}

#[test]
fn test_almost_eq() {
    // Exactly equal points
    let p1 = pt(1.0, 2.0);
    let p2 = pt(1.0, 2.0);
    assert!(p1.almost_eq(p2, 0));

    // Very close points (should need some ULP tolerance)
    let p3 = pt(1.0, 2.0);
    let p4 = pt(1.0 + f64::EPSILON, 2.0 + f64::EPSILON);
    assert!(p3.almost_eq(p4, 1));

    // Different points
    let p5 = pt(1.0, 2.0);
    let p6 = pt(1.1, 2.1);
    assert!(!p5.almost_eq(p6, 10));

    // Zero points
    let zero1 = pt(0.0, 0.0);
    let zero2 = pt(0.0, 0.0);
    assert!(zero1.almost_eq(zero2, 0));

    // Negative zero vs positive zero
    let neg_zero = pt(-0.0, -0.0);
    let pos_zero = pt(0.0, 0.0);
    assert!(neg_zero.almost_eq(pos_zero, 0));

    // Large values with minimal difference
    let big1 = pt(1e10, 1e10);
    let big2 = pt(1e10 * (1.0 + f64::EPSILON), 1e10 * (1.0 + f64::EPSILON));
    assert!(big1.almost_eq(big2, 100));

    // One coordinate different by EPSILON
    let p7 = pt(1.0, 2.0);
    let p8 = pt(1.0 + f64::EPSILON, 2.0);
    assert!(p7.almost_eq(p8, 1));

    let p9 = pt(1.0, 2.0);
    let p10 = pt(1.0, 2.0 + f64::EPSILON);
    assert!(p9.almost_eq(p10, 1));

    // Different signs: equal only when both are zero
    let pos = pt(1.0, 1.0);
    let neg = pt(-1.0, -1.0);
    assert!(!pos.almost_eq(neg, 1000));
}

#[test]
fn almost_equal_counts_representable_numbers() {
    use_almost(1.0, f64::from_bits(1.0f64.to_bits() + 3), 3, true);
    use_almost(1.0, f64::from_bits(1.0f64.to_bits() + 3), 2, false);
    use_almost(-2.0, f64::from_bits((-2.0f64).to_bits() + 1), 1, true);
    use_almost(f64::NAN, f64::NAN, 1000, false);
    use_almost(1.0, 1.0, -1, false);
    use_almost(0.0, -0.0, 0, true);
    use_almost(f64::MIN_POSITIVE, -f64::MIN_POSITIVE, 1000, false);
}

fn use_almost(a: f64, b: f64, ulps: i64, expected: bool) {
    assert_eq!(togo::binary64::almost_equal_as_int(n(a), n(b), ulps), expected);
    assert_eq!(togo::binary64::almost_equal_as_int(n(b), n(a), ulps), expected);
}

#[test]
fn sort_colinear_on_a_line_through_its_normal() {
    // points on y = -2: the order along the line is by x
    let a = pt(3.0, -2.0);
    let b = pt(-1.0, -2.0);
    let c = pt(0.0, -2.0);
    let d = pt(5.0, -2.0);
    let (e, f, g, h) = sort_colinear(a, b, c, d);
    // the direction is d - c, the longer pair, towards greater x
    assert_eq!((e, f, g, h), (b, c, a, d));
}

#[test]
fn sort_keeps_keyed_points_and_orders_them() {
    let k = |p: Point, v: f64| (p, n(v));
    let (p, q, r, s) = (pt(0.0, 0.0), pt(1.0, 0.0), pt(2.0, 0.0), pt(3.0, 0.0));
    let res = Point::sort_colinear_points(k(r, 2.0), k(p, 0.0), k(s, 3.0), k(q, 1.0));
    assert_eq!((res.0 .0, res.1 .0, res.2 .0, res.3 .0), (p, q, r, s));
    // equal keys keep their relative order through the network
    let res = Point::sort_colinear_points(k(p, 1.0), k(q, 1.0), k(r, 0.0), k(s, 0.0));
    assert_eq!(f64::from_bits(res.0 .1.to_bits()), 0.0);
    assert_eq!(f64::from_bits(res.3 .1.to_bits()), 1.0);
}
