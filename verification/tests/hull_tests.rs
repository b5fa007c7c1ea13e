use togo::binary64::Binary64;
use togo::hull::{
    akl_toussaint_selection, extreme_indices, find_starting_index, finite_points, gift_wrap,
    is_convex_from_orientations, distinct_points,
};
use togo::point::{point, Point};

fn n(v: f64) -> Binary64 {
    Binary64::from_bits(v.to_bits())
}

fn pt(x: f64, y: f64) -> Point {
    point(n(x), n(y))
}

fn xy(p: Point) -> (f64, f64) {
    (f64::from_bits(p.x.to_bits()), f64::from_bits(p.y.to_bits()))
}

/// Orientation of three points; plain arithmetic is exact on the small
/// integer coordinates of these tests.
fn orient(a: (f64, f64), b: (f64, f64), c: (f64, f64)) -> f64 {
    (b.0 - a.0) * (c.1 - a.1) - (b.1 - a.1) * (c.0 - a.0)
}

fn corner_orientations(points: &[(f64, f64)]) -> Vec<Binary64> {
    let k = points.len();
    (0..k).map(|i| n(orient(points[i], points[(i + 1) % k], points[(i + 2) % k]))).collect()
}

fn is_convex_pointline(points: &[(f64, f64)]) -> bool {
    is_convex_from_orientations(&corner_orientations(points))
}

#[test]
fn test_is_convex_pointline_square() {
    let square = [(0.0, 0.0), (1.0, 0.0), (1.0, 1.0), (0.0, 1.0)];
    assert!(is_convex_pointline(&square));
}

#[test]
fn test_is_convex_polygon_concave() {
    let concave = [(0.0, 0.0), (2.0, 0.0), (1.0, 1.0), (2.0, 2.0), (0.0, 2.0)];
    assert!(!is_convex_pointline(&concave));
}

#[test]
fn test_is_convex_polygon_with_collinear_segments() {
    let polygon = [(0.0, 0.0), (1.0, 0.0), (2.0, 0.0), (2.0, 1.0), (2.0, 2.0), (0.0, 2.0)];
    assert!(is_convex_pointline(&polygon));
}

#[test]
fn test_is_convex_polygon_multiple_collinear() {
    let polygon = [
        (0.0, 0.0), (1.0, 0.0), (2.0, 0.0), (3.0, 0.0), (3.0, 1.0), (3.0, 2.0), (3.0, 3.0),
        (2.0, 3.0), (1.0, 3.0), (0.0, 3.0),
    ];
    assert!(is_convex_pointline(&polygon));
}

#[test]
fn convexity_needs_three_points_and_ignores_direction() {
    assert!(!is_convex_pointline(&[(0.0, 0.0), (1.0, 0.0)]));
    let clockwise = [(0.0, 0.0), (0.0, 1.0), (1.0, 1.0), (1.0, 0.0)];
    assert!(is_convex_pointline(&clockwise));
    // a NaN orientation counts as a right turn, as a comparison with zero gives
    let with_nan = vec![n(1.0), n(f64::NAN), n(1.0)];
    assert!(!is_convex_from_orientations(&with_nan));
    let all_zero = vec![n(0.0), n(-0.0), n(0.0)];
    assert!(is_convex_from_orientations(&all_zero));
}

/// Gift wrapping that keeps the points on the hull's edges, with the turn
/// test of the geometry code (`g` an interior point).
fn edge_keeping_hull(points: &[(f64, f64)]) -> Vec<(f64, f64)> {
    let pts: Vec<Point> = points.iter().map(|p| pt(p.0, p.1)).collect();
    let cands: Vec<(f64, f64)> = distinct_points(&pts).iter().map(|p| xy(*p)).collect();
    let (start, _, _, _) = extreme_indices(&cands.iter().map(|p| pt(p.0, p.1)).collect());
    let m = cands.len() as f64;
    let g = (cands.iter().map(|p| p.0).sum::<f64>() / m, cands.iter().map(|p| p.1).sum::<f64>() / m);
    let c2 = cands.clone();
    let more_ccw = move |current: usize, next: usize, i: usize| {
        let c = c2[current];
        let dn = (c2[next].0 - c.0, c2[next].1 - c.1);
        let di = (c2[i].0 - c.0, c2[i].1 - c.1);
        if di == (0.0, 0.0) {
            return false;
        }
        if dn == (0.0, 0.0) {
            return true;
        }
        let cross = dn.0 * di.1 - dn.1 * di.0;
        if cross < -1e-10 {
            return true;
        }
        if cross > 1e-10 {
            return false;
        }
        if dn.0 * di.0 + dn.1 * di.1 > 0.0 {
            return di.0 * di.0 + di.1 * di.1 < dn.0 * dn.0 + dn.1 * dn.1;
        }
        let tg = (g.0 - c.0, g.1 - c.1);
        let forward = |d: (f64, f64)| d.0 * tg.1 - d.1 * tg.0 > 1e-10;
        forward(di) && !forward(dn)
    };
    gift_wrap(cands.len(), start, more_ccw).into_iter().map(|k| cands[k]).collect()
}

#[test]
fn hull_of_readme_points() {
    let points = [(0.0, 0.0), (2.0, 1.0), (1.0, 2.0), (3.0, 0.0), (2.0, 3.0), (0.0, 2.0)];
    assert_eq!(edge_keeping_hull(&points), vec![(0.0, 0.0), (3.0, 0.0), (2.0, 3.0), (0.0, 2.0)]);
}

#[test]
fn hull_keeps_points_on_edges() {
    let notched = [
        (0.0, 0.0),
        (4.0, 0.0),
        (4.0, 4.0),
        (3.0, 4.0),
        (3.0, 2.0),
        (1.0, 2.0),
        (1.0, 4.0),
        (0.0, 4.0),
    ];
    assert_eq!(
        edge_keeping_hull(&notched),
        vec![(0.0, 0.0), (4.0, 0.0), (4.0, 4.0), (3.0, 4.0), (1.0, 4.0), (0.0, 4.0)]
    );
    // repeated points are dropped before the walk
    let square = [(0.0, 0.0), (1.0, 0.0), (1.0, 1.0), (0.0, 1.0), (0.0, 0.0), (1.0, 1.0)];
    assert_eq!(edge_keeping_hull(&square), vec![(0.0, 0.0), (1.0, 0.0), (1.0, 1.0), (0.0, 1.0)]);
}

#[test]
fn distinct_points_keep_first_of_equals() {
    let points = vec![pt(1.0, 2.0), pt(0.0, 0.0), pt(1.0, 2.0), pt(-0.0, 0.0), pt(3.0, 3.0)];
    assert_eq!(distinct_points(&points), vec![pt(1.0, 2.0), pt(0.0, 0.0), pt(3.0, 3.0)]);
    // a NaN point equals nothing, not even itself
    let nan = vec![pt(f64::NAN, 0.0), pt(f64::NAN, 0.0)];
    assert_eq!(distinct_points(&nan).len(), 2);
    assert!(distinct_points(&vec![]).is_empty());
}

#[test]
fn extreme_indices_take_the_first_extreme() {
    let points = vec![pt(1.0, 1.0), pt(0.0, 2.0), pt(0.0, 0.0), pt(3.0, 1.0), pt(3.0, 1.0), pt(1.0, 3.0), pt(0.0, 0.0)];
    assert_eq!(extreme_indices(&points), (2, 3, 2, 5));
    let zeros = vec![pt(0.0, 0.0), pt(-0.0, -0.0)];
    assert_eq!(extreme_indices(&zeros), (0, 0, 0, 0));
}

#[test]
fn akl_toussaint_selection_keeps_outside_points() {
    assert_eq!(akl_toussaint_selection(&vec![true, true, true, true]), vec![0, 1, 2, 3]);
    assert_eq!(akl_toussaint_selection(&vec![false, true, false, true, false, true]), vec![0, 2, 4]);
    assert_eq!(akl_toussaint_selection(&vec![true; 6]), vec![0, 1, 2, 3, 4, 5]);
}

#[test]
fn finite_points_drop_nan_and_infinity() {
    let points = vec![pt(0.0, 0.0), pt(f64::NAN, 1.0), pt(1.0, f64::INFINITY), pt(2.0, -3.0)];
    let kept = finite_points(&points);
    assert_eq!(kept, vec![pt(0.0, 0.0), pt(2.0, -3.0)]);
}

#[test]
fn find_starting_index_takes_first_least_value() {
    let values = vec![n(3.0), n(f64::NAN), n(-1.0), n(5.0), n(-1.0)];
    assert_eq!(find_starting_index(&values), 2);
    assert_eq!(find_starting_index(&vec![n(f64::INFINITY), n(f64::NAN)]), usize::MAX);
    assert_eq!(find_starting_index(&vec![]), usize::MAX);
}

/// Gift wrapping on points with the turn test of the geometry code.
fn convex_hull(points: &[(f64, f64)]) -> Vec<(f64, f64)> {
    let pts: Vec<Point> = points.iter().map(|p| pt(p.0, p.1)).collect();
    let (start, _, _, _) = extreme_indices(&pts);
    let cands: Vec<(f64, f64)> = points.to_vec();
    let more_ccw = move |current: usize, next: usize, i: usize| {
        let c = cands[current];
        let dx_next = cands[next].0 - c.0;
        let dy_next = cands[next].1 - c.1;
        let dx_i = cands[i].0 - c.0;
        let dy_i = cands[i].1 - c.1;
        let cross = dx_next * dy_i - dy_next * dx_i;
        cross < 0.0
            || (cross.abs() < 1e-10 && dx_i * dx_i + dy_i * dy_i > dx_next * dx_next + dy_next * dy_next)
    };
    gift_wrap(points.len(), start, more_ccw).into_iter().map(|k| points[k]).collect()
}

#[test]
fn gift_wrap_square_with_interior_point() {
    let points = [(0.0, 0.0), (1.0, 0.0), (1.0, 1.0), (0.0, 1.0), (0.5, 0.5)];
    let hull = convex_hull(&points);
    assert_eq!(hull.len(), 4);
    assert_eq!(hull[0], (0.0, 0.0));
    assert!(!hull.contains(&(0.5, 0.5)));
}

#[test]
fn gift_wrap_triangle() {
    let points = [(0.0, 0.0), (2.0, 0.0), (1.0, 2.0)];
    assert_eq!(convex_hull(&points).len(), 3);
}

#[test]
fn gift_wrap_readme_points() {
    let points = [(0.0, 0.0), (2.0, 1.0), (1.0, 2.0), (3.0, 0.0), (2.0, 3.0), (0.0, 2.0)];
    assert_eq!(convex_hull(&points).len(), 4);
}

#[test]
fn gift_wrap_stops_after_m_plus_one_points() {
    // an answer that never leads back to the start
    let hull = gift_wrap(3, 0, |_c: usize, _n: usize, i: usize| i == 1);
    assert!(hull.len() <= 4);
    assert_eq!(hull[0], 0);
}

#[test]
fn selection_keeps_every_outside_point() {
    let cases: Vec<Vec<bool>> = vec![
        vec![false, true, false, true, true, false],
        vec![true, true, true, true, true, true],
        vec![true, false, true],
        vec![false; 7],
    ];
    for inside in cases {
        let kept = akl_toussaint_selection(&inside);
        assert!(!kept.is_empty());
        for (i, &b) in inside.iter().enumerate() {
            if !b {
                assert!(kept.contains(&i));
            }
        }
    }
}
