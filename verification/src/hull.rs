//! Convexity and convex hulls of point sequences.
//!
//! The orientation and cross-product values are computed by the caller
//! (they are exact or tolerant metric predicates on the coordinates); the
//! decisions made from them, and the selections and scans over the points,
//! are here.
use vstd::prelude::*;
use crate::binary64::{Binary64, ieee_eq, ieee_lt, encoded, INFINITY_BITS};
use crate::point::{Point, point_eq, point_is_number};

verus! {

/// An orientation value is not zero (a NaN counts as not zero).
pub open spec fn turns(o: Binary64) -> bool {
    !ieee_eq(o, encoded(0))
}

/// An orientation value is positive.
pub open spec fn turns_left(o: Binary64) -> bool {
    ieee_lt(encoded(0), o)
}

/// All the orientation values that are not zero have the same sign
/// (positive, or not positive).
pub open spec fn same_turns(s: Seq<Binary64>) -> bool {
    forall|i: int, j: int|
        0 <= i < s.len() && 0 <= j < s.len() && turns(s[i]) && turns(s[j]) ==> turns_left(
            #[trigger] s[i],
        ) == turns_left(#[trigger] s[j])
}

/// Decides whether a closed polygon is convex from the orientations of its
/// corners: `orientations[i]` is the orientation of the points `i`, `i+1`,
/// `i+2` (indices taken cyclically).  A polygon is convex when it has at
/// least 3 corners and all its non-zero orientations have the same sign;
/// collinear corners (zero) do not matter.
pub fn is_convex_from_orientations(orientations: &Vec<Binary64>) -> (res: bool)
    ensures
        res == (orientations@.len() >= 3 && same_turns(orientations@)),
{
    let n = orientations.len();
    if n < 3 {
        return false;
    }
    let zero = Binary64::zero();
    // 0: no sign seen yet, 1: positive, 2: negative
    let mut sign: u8 = 0;
    let mut first: usize = 0;
    let mut i: usize = 0;
    while i < n
        invariant
            n == orientations@.len(),
            zero.bits == 0,
            i <= n,
            first < n,
            sign <= 2,
            sign == 0 ==> forall|k: int| 0 <= k < i ==> !turns(#[trigger] orientations@[k]),
            sign != 0 ==> first < i && turns(orientations@[first as int]) && (sign == 1)
                == turns_left(orientations@[first as int]),
            sign != 0 ==> forall|k: int|
                0 <= k < i && turns(#[trigger] orientations@[k]) ==> turns_left(orientations@[k])
                    == (sign == 1),
        decreases n - i,
    {
        let o = orientations[i];
        if !o.ieee_equal(zero) {
            let current_sign: u8 = if o.gt(zero) {
                1
            } else {
                2
            };
            if sign == 0 {
                sign = current_sign;
                first = i;
            } else if sign != current_sign {
                assert(!same_turns(orientations@)) by {
                    assert(turns(orientations@[first as int]) && turns(orientations@[i as int]));
                }
                return false;
            }
        }
        i = i + 1;
    }
    assert(same_turns(orientations@));
    true
}

/// Traversing a polygon the other way negates all its orientations; the
/// convexity decision does not change (for orientations that are numbers,
/// not NaN).
pub proof fn lemma_convexity_direction_independent(s: Seq<Binary64>)
    requires
        forall|i: int| 0 <= i < s.len() ==> !(#[trigger] s[i]).spec_is_nan(),
    ensures
        same_turns(s) == same_turns(s.map_values(|o: Binary64| o.spec_neg())),
{
    let t = s.map_values(|o: Binary64| o.spec_neg());
    assert forall|i: int| 0 <= i < s.len() implies turns(#[trigger] t[i]) == turns(s[i]) && (turns(
        s[i],
    ) ==> turns_left(t[i]) == !turns_left(s[i])) by {}
    if same_turns(s) {
        assert forall|i: int, j: int|
            0 <= i < t.len() && 0 <= j < t.len() && turns(t[i]) && turns(t[j]) implies turns_left(
            #[trigger] t[i],
        ) == turns_left(#[trigger] t[j]) by {
            assert(turns_left(s[i]) == turns_left(s[j]));
        }
    }
    if same_turns(t) {
        assert forall|i: int, j: int|
            0 <= i < s.len() && 0 <= j < s.len() && turns(s[i]) && turns(s[j]) implies turns_left(
            #[trigger] s[i],
        ) == turns_left(#[trigger] s[j]) by {
            assert(turns_left(t[i]) == turns_left(t[j]));
        }
    }
}

/// `p` comes strictly before `q` in the lexicographic order on (x, y)
/// (IEEE comparisons).
pub open spec fn before_xy(p: Point, q: Point) -> bool {
    ieee_lt(p.x, q.x) || (ieee_eq(p.x, q.x) && ieee_lt(p.y, q.y))
}

/// `p` comes strictly before `q` in the lexicographic order on (y, x).
pub open spec fn before_yx(p: Point, q: Point) -> bool {
    ieee_lt(p.y, q.y) || (ieee_eq(p.y, q.y) && ieee_lt(p.x, q.x))
}

/// `k` is the first index of a point that no other point precedes in the
/// order `before`: the first minimum.
pub open spec fn is_first_minimum(s: Seq<Point>, k: int, before: spec_fn(Point, Point) -> bool) -> bool {
    &&& 0 <= k < s.len()
    &&& forall|j: int| 0 <= j < s.len() ==> !before(#[trigger] s[j], s[k])
    &&& forall|j: int| 0 <= j < k ==> before(s[k], #[trigger] s[j])
}

/// The four extreme points of a non-empty set of points without NaN
/// coordinates, each the first one found: the leftmost (least x, then least
/// y), the rightmost (greatest x, then greatest y), the lowest (least y,
/// then least x) and the highest (greatest y, then greatest x).  Returned as
/// `(min_x, max_x, min_y, max_y)`.
pub fn extreme_indices(points: &Vec<Point>) -> (res: (usize, usize, usize, usize))
    requires
        points@.len() >= 1,
        forall|i: int| 0 <= i < points@.len() ==> point_is_number(#[trigger] points@[i]),
    ensures
        is_first_minimum(points@, res.0 as int, |p: Point, q: Point| before_xy(p, q)),
        is_first_minimum(points@, res.1 as int, |p: Point, q: Point| before_xy(q, p)),
        is_first_minimum(points@, res.2 as int, |p: Point, q: Point| before_yx(p, q)),
        is_first_minimum(points@, res.3 as int, |p: Point, q: Point| before_yx(q, p)),
{
    let n = points.len();
    let mut min_x_idx: usize = 0;
    let mut max_x_idx: usize = 0;
    let mut min_y_idx: usize = 0;
    let mut max_y_idx: usize = 0;
    let mut i: usize = 0;
    while i < n
        invariant
            n == points@.len(),
            n >= 1,
            forall|k: int| 0 <= k < points@.len() ==> point_is_number(#[trigger] points@[k]),
            0 <= i <= n,
            i == 0 ==> min_x_idx == 0 && max_x_idx == 0 && min_y_idx == 0 && max_y_idx == 0,
            i > 0 ==> is_first_minimum(points@.take(i as int), min_x_idx as int, |p: Point, q: Point| before_xy(p, q)),
            i > 0 ==> is_first_minimum(points@.take(i as int), max_x_idx as int, |p: Point, q: Point| before_xy(q, p)),
            i > 0 ==> is_first_minimum(points@.take(i as int), min_y_idx as int, |p: Point, q: Point| before_yx(p, q)),
            i > 0 ==> is_first_minimum(points@.take(i as int), max_y_idx as int, |p: Point, q: Point| before_yx(q, p)),
        decreases n - i,
    {
        let p = points[i];
        let lx = points[min_x_idx];
        if p.x.lt(lx.x) || (p.x.ieee_equal(lx.x) && p.y.lt(lx.y)) {
            min_x_idx = i;
        }
        let hx = points[max_x_idx];
        if p.x.gt(hx.x) || (p.x.ieee_equal(hx.x) && p.y.gt(hx.y)) {
            max_x_idx = i;
        }
        let ly = points[min_y_idx];
        if p.y.lt(ly.y) || (p.y.ieee_equal(ly.y) && p.x.lt(ly.x)) {
            min_y_idx = i;
        }
        let hy = points[max_y_idx];
        if p.y.gt(hy.y) || (p.y.ieee_equal(hy.y) && p.x.gt(hy.x)) {
            max_y_idx = i;
        }
        i = i + 1;
        assert(points@.take(i as int).len() == i);
    }
    assert(points@.take(n as int) =~= points@);
    (min_x_idx, max_x_idx, min_y_idx, max_y_idx)
}

/// The point has finite coordinates.
pub open spec fn point_is_finite(p: Point) -> bool {
    p.x.spec_is_finite() && p.y.spec_is_finite()
}

/// The points of the first `k` of `s` that have finite coordinates, in
/// order.
pub open spec fn finite_prefix(s: Seq<Point>, k: int) -> Seq<Point>
    decreases k,
{
    if k <= 0 {
        Seq::empty()
    } else if point_is_finite(s[k - 1]) {
        finite_prefix(s, k - 1).push(s[k - 1])
    } else {
        finite_prefix(s, k - 1)
    }
}

proof fn lemma_finite_prefix_finite(s: Seq<Point>, k: int)
    requires
        0 <= k <= s.len(),
    ensures
        finite_prefix(s, k).len() <= k,
        forall|m: int|
            0 <= m < finite_prefix(s, k).len() ==> point_is_finite(#[trigger] finite_prefix(s, k)[m]),
    decreases k,
{
    if k > 0 {
        lemma_finite_prefix_finite(s, k - 1);
    }
}

/// A point is kept exactly when it is one of the first `k` points and its
/// coordinates are finite.
proof fn lemma_finite_prefix_members(s: Seq<Point>, k: int)
    requires
        0 <= k <= s.len(),
    ensures
        forall|x: Point|
            #[trigger] finite_prefix(s, k).contains(x) <==> (exists|m: int| 0 <= m < k && s[m] == x)
                && point_is_finite(x),
    decreases k,
{
    if k > 0 {
        lemma_finite_prefix_members(s, k - 1);
        let d = finite_prefix(s, k - 1);
        let r = finite_prefix(s, k);
        assert forall|x: Point| #[trigger] r.contains(x) <==> (exists|m: int| 0 <= m < k && s[m] == x)
            && point_is_finite(x) by {
            if r.contains(x) {
                let a = choose|a: int| 0 <= a < r.len() && r[a] == x;
                if a < d.len() {
                    assert(r[a] == d[a]);
                    assert(d.contains(x));
                    let m = choose|m: int| 0 <= m < k - 1 && s[m] == x;
                    assert(0 <= m < k && s[m] == x);
                } else {
                    assert(x == s[k - 1]);
                }
            }
            if (exists|m: int| 0 <= m < k && s[m] == x) && point_is_finite(x) {
                let m = choose|m: int| 0 <= m < k && s[m] == x;
                if m < k - 1 {
                    assert(d.contains(x));
                    let a = choose|a: int| 0 <= a < d.len() && d[a] == x;
                    assert(r[a] == x);
                } else {
                    assert(r[d.len() as int] == x);
                }
            }
        }
    }
}

/// The finite points keep exactly the points of the input whose
/// coordinates are finite (no finite point is lost, nothing else is added).
pub proof fn lemma_finite_points_members(s: Seq<Point>)
    ensures
        forall|x: Point|
            #[trigger] finite_prefix(s, s.len() as int).contains(x) <==> s.contains(x) && point_is_finite(x),
{
    lemma_finite_prefix_members(s, s.len() as int);
}

/// The points with finite coordinates (NaN and infinite ones dropped), in
/// their order: the only points that can be on a convex hull.
pub fn finite_points(points: &Vec<Point>) -> (res: Vec<Point>)
    ensures
        res@ == finite_prefix(points@, points@.len() as int),
        forall|m: int| 0 <= m < res@.len() ==> point_is_finite(#[trigger] res@[m]),
{
    let n = points.len();
    let mut valid: Vec<Point> = Vec::with_capacity(n);
    let mut i: usize = 0;
    while i < n
        invariant
            n == points@.len(),
            i <= n,
            valid@ == finite_prefix(points@, i as int),
        decreases n - i,
    {
        let p = points[i];
        if p.x.is_finite() && p.y.is_finite() {
            valid.push(p);
        }
        i = i + 1;
    }
    proof {
        lemma_finite_prefix_finite(points@, n as int);
    }
    valid
}

/// The first `k` points of `s` without repetitions: each point that equals
/// (IEEE equality) one kept before it is dropped, the others kept in
/// order.
pub open spec fn distinct_prefix(s: Seq<Point>, k: int) -> Seq<Point>
    decreases k,
{
    if k <= 0 {
        Seq::empty()
    } else {
        let d = distinct_prefix(s, k - 1);
        if exists|m: int| 0 <= m < d.len() && point_eq(#[trigger] d[m], s[k - 1]) {
            d
        } else {
            d.push(s[k - 1])
        }
    }
}

/// The points without repetitions, in their order (see the spec): the
/// candidate points of a hull.
pub fn distinct_points(points: &Vec<Point>) -> (res: Vec<Point>)
    ensures
        res@ == distinct_prefix(points@, points@.len() as int),
{
    let mut res: Vec<Point> = Vec::new();
    let mut i: usize = 0;
    while i < points.len()
        invariant
            i <= points@.len(),
            res@ == distinct_prefix(points@, i as int),
        decreases points@.len() - i,
    {
        let p = points[i];
        let mut seen = false;
        let mut k: usize = 0;
        while k < res.len()
            invariant
                k <= res@.len(),
                seen == exists|m: int| 0 <= m < k && point_eq(#[trigger] res@[m], p),
            decreases res@.len() - k,
        {
            if res[k] == p {
                seen = true;
            }
            k = k + 1;
        }
        if !seen {
            res.push(p);
        }
        i = i + 1;
    }
    res
}

/// Removing repetitions loses no point and adds none: each kept point is a
/// point of the input, and each input point among the first `k` is kept or
/// equals (IEEE equality) a kept one.
pub proof fn lemma_distinct_points_cover(s: Seq<Point>, k: int)
    requires
        0 <= k <= s.len(),
    ensures
        forall|a: int|
            0 <= a < distinct_prefix(s, k).len() ==> exists|m: int|
                0 <= m < k && s[m] == #[trigger] distinct_prefix(s, k)[a],
        forall|m: int|
            0 <= m < k ==> exists|a: int|
                0 <= a < distinct_prefix(s, k).len() && (distinct_prefix(s, k)[a] == #[trigger] s[m]
                    || point_eq(distinct_prefix(s, k)[a], s[m])),
    decreases k,
{
    if k > 0 {
        lemma_distinct_points_cover(s, k - 1);
        let d = distinct_prefix(s, k - 1);
        let r = distinct_prefix(s, k);
        assert forall|a: int| 0 <= a < r.len() implies exists|m: int|
            0 <= m < k && s[m] == #[trigger] r[a] by {
            if a < d.len() {
                assert(r[a] == d[a]);
                let m = choose|m: int| 0 <= m < k - 1 && s[m] == d[a];
                assert(0 <= m < k && s[m] == r[a]);
            } else {
                assert(s[k - 1] == r[a]);
            }
        }
        assert forall|m: int| 0 <= m < k implies exists|a: int|
            0 <= a < r.len() && (r[a] == #[trigger] s[m] || point_eq(r[a], s[m])) by {
            if m < k - 1 {
                let a = choose|a: int|
                    0 <= a < d.len() && (d[a] == #[trigger] s[m] || point_eq(d[a], s[m]));
                assert(r[a] == d[a]);
            } else if exists|b: int| 0 <= b < d.len() && point_eq(#[trigger] d[b], s[k - 1]) {
                let b = choose|b: int| 0 <= b < d.len() && point_eq(#[trigger] d[b], s[k - 1]);
                assert(r[b] == d[b]);
            } else {
                assert(r[d.len() as int] == s[m]);
            }
        }
    }
}

/// No point of the result equals another one.
pub proof fn lemma_distinct_points_distinct(s: Seq<Point>, k: int)
    requires
        0 <= k <= s.len(),
    ensures
        forall|a: int, b: int|
            0 <= a < b < distinct_prefix(s, k).len() ==> !point_eq(
                #[trigger] distinct_prefix(s, k)[a],
                #[trigger] distinct_prefix(s, k)[b],
            ),
    decreases k,
{
    if k > 0 {
        lemma_distinct_points_distinct(s, k - 1);
        let d = distinct_prefix(s, k - 1);
        let r = distinct_prefix(s, k);
        assert forall|a: int, b: int| 0 <= a < b < r.len() implies !point_eq(
            #[trigger] r[a],
            #[trigger] r[b],
        ) by {
            if b < d.len() {
                assert(r[a] == d[a] && r[b] == d[b]);
            } else {
                assert(r[a] == d[a]);
            }
        }
    }
}

/// The indices `i < k` with `inside[i]` false, in order.
pub open spec fn outside_prefix(inside: Seq<bool>, k: int) -> Seq<usize>
    decreases k,
{
    if k <= 0 {
        Seq::empty()
    } else if !inside[k - 1] {
        outside_prefix(inside, k - 1).push((k - 1) as usize)
    } else {
        outside_prefix(inside, k - 1)
    }
}

/// The indices `0..n`.
pub open spec fn all_indices(n: nat) -> Seq<usize> {
    Seq::new(n, |i: int| i as usize)
}

/// The Akl-Toussaint selection: of `n` points, keep those that are not
/// strictly inside the quadrilateral of the four extreme points
/// (`inside[i]` tells, for point `i`).  With fewer than 5 points, or when
/// every point would go, all points are kept.
pub open spec fn spec_akl_toussaint_selection(inside: Seq<bool>) -> Seq<usize> {
    if inside.len() < 5 || outside_prefix(inside, inside.len() as int).len() == 0 {
        all_indices(inside.len())
    } else {
        outside_prefix(inside, inside.len() as int)
    }
}

proof fn lemma_outside_prefix_bounded(inside: Seq<bool>, k: int)
    requires
        0 <= k <= inside.len(),
    ensures
        outside_prefix(inside, k).len() <= k,
        forall|m: int|
            0 <= m < outside_prefix(inside, k).len() ==> #[trigger] outside_prefix(inside, k)[m] < k,
    decreases k,
{
    if k > 0 {
        lemma_outside_prefix_bounded(inside, k - 1);
    }
}

proof fn lemma_outside_prefix_keeps(inside: Seq<bool>, k: int)
    requires
        0 <= k <= inside.len(),
        inside.len() <= usize::MAX,
    ensures
        forall|i: int| 0 <= i < k && !inside[i] ==> #[trigger] outside_prefix(inside, k).contains(
            i as usize,
        ),
    decreases k,
{
    if k > 0 {
        lemma_outside_prefix_keeps(inside, k - 1);
        let before = outside_prefix(inside, k - 1);
        assert forall|i: int| 0 <= i < k && !inside[i] implies #[trigger] outside_prefix(
            inside,
            k,
        ).contains(i as usize) by {
            if i < k - 1 {
                assert(before.contains(i as usize));
                let m = choose|m: int| 0 <= m < before.len() && before[m] == i as usize;
                if !inside[k - 1] {
                    assert(outside_prefix(inside, k)[m] == i as usize);
                }
            } else {
                assert(outside_prefix(inside, k)[before.len() as int] == i as usize);
            }
        }
    }
}

/// The selection keeps every point that is not strictly inside the
/// quadrilateral (the points that can be on the hull), and keeps at least
/// one point of a non-empty set.
pub proof fn lemma_selection_keeps_outside_points(inside: Seq<bool>)
    requires
        inside.len() <= usize::MAX,
    ensures
        forall|i: int|
            0 <= i < inside.len() && !inside[i] ==> #[trigger] spec_akl_toussaint_selection(
                inside,
            ).contains(i as usize),
        inside.len() > 0 ==> spec_akl_toussaint_selection(inside).len() > 0,
{
    lemma_outside_prefix_keeps(inside, inside.len() as int);
    let sel = spec_akl_toussaint_selection(inside);
    assert forall|i: int| 0 <= i < inside.len() && !inside[i] implies #[trigger] sel.contains(
        i as usize,
    ) by {
        if sel == all_indices(inside.len()) {
            assert(sel[i] == i as usize);
        }
    }
    if inside.len() > 0 && sel == all_indices(inside.len()) {
        assert(sel.len() == inside.len());
    }
}

fn all_indices_vec(n: usize) -> (res: Vec<usize>)
    ensures
        res@ == all_indices(n as nat),
{
    let mut all: Vec<usize> = Vec::with_capacity(n);
    let mut i: usize = 0;
    while i < n
        invariant
            i <= n,
            all@ == all_indices(i as nat),
        decreases n - i,
    {
        all.push(i);
        i = i + 1;
        assert(all@ =~= all_indices(i as nat));
    }
    all
}

/// Selects the points kept by the Akl-Toussaint heuristic (see the spec).
pub fn akl_toussaint_selection(inside: &Vec<bool>) -> (res: Vec<usize>)
    ensures
        res@ == spec_akl_toussaint_selection(inside@),
        forall|m: int| 0 <= m < res@.len() ==> #[trigger] res@[m] < inside@.len(),
{
    let n = inside.len();
    if n < 5 {
        return all_indices_vec(n);
    }
    let mut kept: Vec<usize> = Vec::with_capacity(n);
    let mut i: usize = 0;
    while i < n
        invariant
            n == inside@.len(),
            i <= n,
            kept@ == outside_prefix(inside@, i as int),
        decreases n - i,
    {
        if !inside[i] {
            kept.push(i);
        }
        i = i + 1;
    }
    proof {
        lemma_outside_prefix_bounded(inside@, n as int);
    }
    if kept.len() == 0 {
        return all_indices_vec(n);
    }
    kept
}

/// The first index whose value is the least of those below positive
/// infinity (NaN and infinite values never qualify); `usize::MAX` when
/// there is none.
pub open spec fn is_first_least_below_infinity(values: Seq<Binary64>, k: int) -> bool {
    if k == usize::MAX {
        forall|j: int| 0 <= j < values.len() ==> !ieee_lt(#[trigger] values[j], encoded(INFINITY_BITS))
    } else {
        &&& 0 <= k < values.len()
        &&& ieee_lt(values[k], encoded(INFINITY_BITS))
        &&& forall|j: int| 0 <= j < values.len() ==> !ieee_lt(#[trigger] values[j], values[k])
        &&& forall|j: int|
            0 <= j < k && ieee_lt(#[trigger] values[j], encoded(INFINITY_BITS)) ==> ieee_lt(
                values[k],
                values[j],
            )
    }
}

/// Finds the element to start from: the first index of the least value
/// below positive infinity, or `usize::MAX` if no value is below it.
pub fn find_starting_index(values: &Vec<Binary64>) -> (res: usize)
    requires
        values@.len() < usize::MAX,
    ensures
        is_first_least_below_infinity(values@, res as int),
{
    let n = values.len();
    let mut idx: usize = usize::MAX;
    let mut min = Binary64::infinity();
    let mut i: usize = 0;
    while i < n
        invariant
            n == values@.len(),
            n < usize::MAX,
            i <= n,
            idx == usize::MAX ==> min.bits == INFINITY_BITS,
            idx != usize::MAX ==> idx < i && min == values@[idx as int],
            is_first_least_below_infinity(values@.take(i as int), idx as int),
        decreases n - i,
    {
        let l = values[i];
        if l.lt(min) {
            min = l;
            idx = i;
        }
        i = i + 1;
    }
    assert(values@.take(n as int) =~= values@);
    idx
}

/// The choice of the gift-wrapping scan from point `c` among `m` points:
/// starting from candidate `best`, each index `i` from `from` on (other than
/// `c`) replaces the candidate when `more_ccw(c, candidate, i)` answers
/// true.
pub open spec fn scan_best<F: Fn(usize, usize, usize) -> bool>(
    more_ccw: F,
    m: int,
    c: int,
    best: int,
    from: int,
) -> int
    decreases m - from,
{
    if from >= m {
        best
    } else if from == c {
        scan_best(more_ccw, m, c, best, from + 1)
    } else if more_ccw.ensures((c as usize, best as usize, from as usize), true) {
        scan_best(more_ccw, m, c, from, from + 1)
    } else {
        scan_best(more_ccw, m, c, best, from + 1)
    }
}

/// The point that follows `c` on the hull: the scan from the candidate
/// `(c + 1) % m` over all indices.
pub open spec fn wrap_next<F: Fn(usize, usize, usize) -> bool>(more_ccw: F, m: int, c: int) -> int {
    scan_best(more_ccw, m, c, (c + 1) % m, 0)
}

/// The `t`-th point of the wrapping walk from `start`.
pub open spec fn wrap_point<F: Fn(usize, usize, usize) -> bool>(
    more_ccw: F,
    m: int,
    start: int,
    t: nat,
) -> int
    decreases t,
{
    if t == 0 {
        start
    } else {
        wrap_next(more_ccw, m, wrap_point(more_ccw, m, start, (t - 1) as nat))
    }
}

/// `more_ccw` answers the same for the same arguments.
pub open spec fn deterministic<F: Fn(usize, usize, usize) -> bool>(more_ccw: F) -> bool {
    forall|a: usize, b: usize, c: usize, r1: bool, r2: bool|
        #[trigger] more_ccw.ensures((a, b, c), r1) && #[trigger] more_ccw.ensures((a, b, c), r2)
            ==> r1 == r2
}

proof fn lemma_scan_in_range<F: Fn(usize, usize, usize) -> bool>(
    more_ccw: F,
    m: int,
    c: int,
    best: int,
    from: int,
)
    requires
        0 <= best < m,
        0 <= from,
        best != c,
    ensures
        0 <= scan_best(more_ccw, m, c, best, from) < m,
        scan_best(more_ccw, m, c, best, from) != c,
    decreases m - from,
{
    if from < m {
        if from == c {
            lemma_scan_in_range(more_ccw, m, c, best, from + 1);
        } else if more_ccw.ensures((c as usize, best as usize, from as usize), true) {
            lemma_scan_in_range(more_ccw, m, c, from, from + 1);
        } else {
            lemma_scan_in_range(more_ccw, m, c, best, from + 1);
        }
    }
}

/// Gift wrapping (Jarvis march) over `m` points from `start`.  From the
/// current point `c` the next one is found by scanning every other index
/// `i` in order, the candidate starting at `(c + 1) % m` and moving to `i`
/// whenever `more_ccw(c, candidate, i)` tells that `i` is more
/// counter-clockwise (or collinear and farther).  The walk stops when it
/// comes back to `start`, or after `m + 1` points (a guard against
/// inconsistent answers).  Returns the indices of the hull points in order.
pub fn gift_wrap<F: Fn(usize, usize, usize) -> bool>(m: usize, start: usize, more_ccw: F) -> (res: Vec<usize>)
    requires
        2 <= m < usize::MAX,
        start < m,
        forall|a: usize, b: usize, c: usize| #[trigger] more_ccw.requires((a, b, c)),
        deterministic(more_ccw),
    ensures
        1 <= res@.len() <= m + 1,
        forall|t: int| 0 <= t < res@.len() ==> #[trigger] res@[t] as int == wrap_point(more_ccw, m as int, start as int, t as nat),
        forall|t: int| 1 <= t < res@.len() ==> #[trigger] res@[t] != start,
        res@.len() == m + 1 || wrap_point(more_ccw, m as int, start as int, res@.len()) == start,
        forall|t: int| 0 <= t < res@.len() ==> #[trigger] res@[t] < m,
{
    let mut hull: Vec<usize> = Vec::new();
    let mut current = start;
    loop
        invariant_except_break
            2 <= m < usize::MAX,
            start < m,
            current < m,
            forall|a: usize, b: usize, c: usize| #[trigger] more_ccw.requires((a, b, c)),
            deterministic(more_ccw),
            hull@.len() <= m,
            current as int == wrap_point(more_ccw, m as int, start as int, hull@.len()),
            hull@.len() > 0 ==> current != start,
            forall|t: int| 0 <= t < hull@.len() ==> #[trigger] hull@[t] as int == wrap_point(more_ccw, m as int, start as int, t as nat),
            forall|t: int| 1 <= t < hull@.len() ==> #[trigger] hull@[t] != start,
            forall|t: int| 0 <= t < hull@.len() ==> #[trigger] hull@[t] < m,
        ensures
            1 <= hull@.len() <= m + 1,
            forall|t: int| 0 <= t < hull@.len() ==> #[trigger] hull@[t] as int == wrap_point(more_ccw, m as int, start as int, t as nat),
            forall|t: int| 1 <= t < hull@.len() ==> #[trigger] hull@[t] != start,
            hull@.len() == m + 1 || wrap_point(more_ccw, m as int, start as int, hull@.len()) == start,
            forall|t: int| 0 <= t < hull@.len() ==> #[trigger] hull@[t] < m,
        decreases m - hull@.len(),
    {
        let ghost len0 = hull@.len();
        hull.push(current);
        let mut next = (current + 1) % m;
        let mut i: usize = 0;
        proof {
            if current + 1 < m {
                vstd::arithmetic::div_mod::lemma_small_mod((current + 1) as nat, m as nat);
            } else {
                vstd::arithmetic::div_mod::lemma_mod_self_0(m as int);
            }
            lemma_scan_in_range(more_ccw, m as int, current as int, next as int, 0);
        }
        while i < m
            invariant
                2 <= m < usize::MAX,
                current < m,
                next < m,
                next != current,
                i <= m,
                forall|a: usize, b: usize, c: usize| #[trigger] more_ccw.requires((a, b, c)),
                deterministic(more_ccw),
                scan_best(more_ccw, m as int, current as int, next as int, i as int) == wrap_next(
                    more_ccw,
                    m as int,
                    current as int,
                ),
            decreases m - i,
        {
            if i != current {
                let r = more_ccw(current, next, i);
                if r {
                    next = i;
                }
            }
            i = i + 1;
        }
        proof {
            assert(wrap_point(more_ccw, m as int, start as int, (len0 + 1) as nat) == wrap_next(
                more_ccw,
                m as int,
                wrap_point(more_ccw, m as int, start as int, len0),
            ));
        }
        current = next;
        if hull.len() > m {
            break;
        }
        if current == start {
            break;
        }
    }
    hull
}

} // verus!
