//! Points of the plane.
use vstd::prelude::*;
use vstd::std_specs::cmp::PartialEqSpecImpl;
use vstd::multiset::Multiset;
use crate::binary64::{Binary64, ieee_eq, ieee_le, ieee_lt, spec_almost_equal, almost_equal_as_int};

verus! {

/// A 2D point (or vector) with binary64 coordinates.
#[derive(Clone, Copy, Debug)]
pub struct Point {
    /// X coordinate.
    pub x: Binary64,
    /// Y coordinate.
    pub y: Binary64,
}

/// A sequence of points.
pub type Pointline = Vec<Point>;

/// Coordinate-wise IEEE equality of two points: what `==` on points means.
pub open spec fn point_eq(p: Point, q: Point) -> bool {
    ieee_eq(p.x, q.x) && ieee_eq(p.y, q.y)
}

/// The point has no NaN coordinate.
pub open spec fn point_is_number(p: Point) -> bool {
    !p.x.spec_is_nan() && !p.y.spec_is_nan()
}

impl Point {
    /// Creates a new point with the given coordinates.
    pub fn new(x: Binary64, y: Binary64) -> (res: Point)
        ensures
            res.x == x,
            res.y == y,
    {
        Point { x, y }
    }

    pub open spec fn spec_neg(self) -> Point {
        Point { x: self.x.spec_neg(), y: self.y.spec_neg() }
    }

    /// Both coordinates are at most `ulp` representable numbers apart (see
    /// `spec_almost_equal`).
    pub fn almost_eq(&self, other: Point, ulp: i64) -> (res: bool)
        ensures
            res == (spec_almost_equal(self.x, other.x, ulp) && spec_almost_equal(self.y, other.y, ulp)),
    {
        almost_equal_as_int(self.x, other.x, ulp) && almost_equal_as_int(self.y, other.y, ulp)
    }
}

impl std::ops::Neg for Point {
    type Output = Point;

    /// The point reflected through the origin: both coordinates negated.
    fn neg(self) -> (res: Point) {
        Point { x: self.x.neg(), y: self.y.neg() }
    }
}

impl vstd::std_specs::ops::NegSpecImpl for Point {
    open spec fn obeys_neg_spec() -> bool {
        true
    }

    open spec fn neg_req(self) -> bool {
        true
    }

    open spec fn neg_spec(self) -> Point {
        self.spec_neg()
    }
}

/// Creates a new point with the given coordinates (same as `Point::new`).
pub fn point(x: Binary64, y: Binary64) -> (res: Point)
    ensures
        res.x == x,
        res.y == y,
{
    Point::new(x, y)
}

impl Default for Point {
    /// The origin, both coordinates positive zero.
    fn default() -> (res: Point)
        ensures
            res.x.bits == 0,
            res.y.bits == 0,
    {
        Point { x: Binary64::zero(), y: Binary64::zero() }
    }
}

impl PartialEq for Point {
    fn eq(&self, other: &Self) -> (res: bool) {
        self.x.ieee_equal(other.x) && self.y.ieee_equal(other.y)
    }
}

impl PartialEqSpecImpl for Point {
    open spec fn obeys_eq_spec() -> bool {
        true
    }

    open spec fn eq_spec(&self, other: &Self) -> bool {
        point_eq(*self, *other)
    }
}

/// A point with its coordinate along a line (its key).
pub type Keyed = (Point, Binary64);

/// One compare-exchange of a sorting network: the two points are swapped
/// when the key of the second is less than that of the first.
pub open spec fn exchange(p: Keyed, q: Keyed) -> (Keyed, Keyed) {
    if ieee_lt(q.1, p.1) {
        (q, p)
    } else {
        (p, q)
    }
}

/// The sorting network on four keyed points: compare-exchange positions
/// (1, 3), (0, 2), (0, 1), (2, 3), (1, 2), in this order.
pub open spec fn spec_sort4(t: (Keyed, Keyed, Keyed, Keyed)) -> (Keyed, Keyed, Keyed, Keyed) {
    let (a1, a3) = exchange(t.1, t.3);
    let s1 = (t.0, a1, t.2, a3);
    let (b0, b2) = exchange(s1.0, s1.2);
    let s2 = (b0, s1.1, b2, s1.3);
    let (c0, c1) = exchange(s2.0, s2.1);
    let s3 = (c0, c1, s2.2, s2.3);
    let (d2, d3) = exchange(s3.2, s3.3);
    let s4 = (s3.0, s3.1, d2, d3);
    let (e1, e2) = exchange(s4.1, s4.2);
    (s4.0, e1, e2, s4.3)
}

/// The keys of the four points are in ascending order.
pub open spec fn sorted4(t: (Keyed, Keyed, Keyed, Keyed)) -> bool {
    ieee_le(t.0.1, t.1.1) && ieee_le(t.1.1, t.2.1) && ieee_le(t.2.1, t.3.1)
}

/// None of the four keys is a NaN.
pub open spec fn keys_are_numbers(t: (Keyed, Keyed, Keyed, Keyed)) -> bool {
    !t.0.1.spec_is_nan() && !t.1.1.spec_is_nan() && !t.2.1.spec_is_nan() && !t.3.1.spec_is_nan()
}

fn exchange_exec(p: Keyed, q: Keyed) -> (res: (Keyed, Keyed))
    ensures
        res == exchange(p, q),
{
    if q.1.lt(p.1) {
        (q, p)
    } else {
        (p, q)
    }
}

impl Point {
    /// Sorts four collinear points (typically the ends of two overlapping
    /// collinear segments) along their line, each given with its
    /// coordinate along the line, by a sorting network of five
    /// compare-exchange steps.  The result is a rearrangement of the four
    /// keyed points, in ascending order of the keys when none is NaN.
    pub fn sort_colinear_points(a: Keyed, b: Keyed, c: Keyed, d: Keyed) -> (res: (Keyed, Keyed, Keyed, Keyed))
        ensures
            res == spec_sort4((a, b, c, d)),
            four_keyed(res) == four_keyed((a, b, c, d)),
            keys_are_numbers((a, b, c, d)) ==> sorted4(res),
    {
        let mut tt = (a, b, c, d);
        let (x1, x3) = exchange_exec(tt.1, tt.3);
        tt = (tt.0, x1, tt.2, x3);
        let (x0, x2) = exchange_exec(tt.0, tt.2);
        tt = (x0, tt.1, x2, tt.3);
        let (x0, x1) = exchange_exec(tt.0, tt.1);
        tt = (x0, x1, tt.2, tt.3);
        let (x2, x3) = exchange_exec(tt.2, tt.3);
        tt = (tt.0, tt.1, x2, x3);
        let (x1, x2) = exchange_exec(tt.1, tt.2);
        tt = (tt.0, x1, x2, tt.3);
        proof {
            lemma_sort4_permutes((a, b, c, d));
            if keys_are_numbers((a, b, c, d)) {
                lemma_sort4_sorts((a, b, c, d));
            }
        }
        tt
    }
}

/// The four keyed points as a multiset.
pub open spec fn four_keyed(t: (Keyed, Keyed, Keyed, Keyed)) -> Multiset<Keyed> {
    Multiset::empty().insert(t.0).insert(t.1).insert(t.2).insert(t.3)
}

/// The network only rearranges the four keyed points.
pub proof fn lemma_sort4_permutes(t: (Keyed, Keyed, Keyed, Keyed))
    ensures
        four_keyed(spec_sort4(t)) == four_keyed(t),
{
    broadcast use vstd::multiset::group_multiset_axioms;
    let r = spec_sort4(t);
    assert(four_keyed(r) =~= four_keyed(t));
}

/// The network sorts: with keys that are numbers, the four points come out
/// in ascending order of their keys.
pub proof fn lemma_sort4_sorts(t: (Keyed, Keyed, Keyed, Keyed))
    requires
        keys_are_numbers(t),
    ensures
        sorted4(spec_sort4(t)),
{
}

/// Point equality is symmetric and transitive; a point equals itself
/// unless one of its coordinates is a NaN.
pub proof fn lemma_point_eq_properties(p: Point, q: Point, r: Point)
    ensures
        point_eq(p, q) == point_eq(q, p),
        point_eq(p, p) == (!p.x.spec_is_nan() && !p.y.spec_is_nan()),
        point_eq(p, q) && point_eq(q, r) ==> point_eq(p, r),
{
}

/// Negating a point twice gives back the same point, bit for bit.
pub proof fn lemma_point_neg_involutive(p: Point)
    ensures
        p.spec_neg().spec_neg() == p,
{
}

} // verus!
