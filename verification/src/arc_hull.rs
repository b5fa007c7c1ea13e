//! The convex hull of an arcline: the end points of its elements, the
//! lowest of them to start a gift-wrapping walk (see `hull::gift_wrap`,
//! whose orientation test the caller supplies), and the closed chain of
//! segments through the points of the walk.
use vstd::prelude::*;
use crate::arc::{Arc, Arcline, arcseg, infinite_radius};
use crate::binary64::{ieee_eq, ieee_lt};
use crate::point::{Point, point_is_number};

verus! {

/// The end points of the elements of an arcline, two per element: the
/// start and then the end of each, in order.
pub fn arc_end_points(arcs: &Arcline) -> (res: Vec<Point>)
    requires
        2 * arcs@.len() <= usize::MAX,
    ensures
        res@.len() == 2 * arcs@.len(),
        forall|i: int| 0 <= i < arcs@.len() ==> #[trigger] res@[2 * i] == arcs@[i].a && res@[2 * i + 1]
            == arcs@[i].b,
{
    let mut res: Vec<Point> = Vec::new();
    let mut i: usize = 0;
    while i < arcs.len()
        invariant
            2 * arcs@.len() <= usize::MAX,
            i <= arcs@.len(),
            res@.len() == 2 * i,
            forall|k: int| 0 <= k < i ==> #[trigger] res@[2 * k] == arcs@[k].a && res@[2 * k + 1]
                == arcs@[k].b,
        decreases arcs@.len() - i,
    {
        let ghost before = res@;
        res.push(arcs[i].a);
        res.push(arcs[i].b);
        assert forall|k: int| 0 <= k < i + 1 implies #[trigger] res@[2 * k] == arcs@[k].a && res@[2
            * k + 1] == arcs@[k].b by {
            if k < i {
                assert(res@[2 * k] == before[2 * k]);
                assert(res@[2 * k + 1] == before[2 * k + 1]);
            }
        }
        i = i + 1;
    }
    res
}

/// `p` lies strictly below `q`, or at the same height and strictly to the
/// left (IEEE comparisons).
pub open spec fn below(p: Point, q: Point) -> bool {
    ieee_lt(p.y, q.y) || (ieee_eq(p.y, q.y) && ieee_lt(p.x, q.x))
}

/// The lowest point found by scanning the first `k` points: the candidate
/// starts at index 0 and moves to each point that lies below it.
pub open spec fn lowest_of(s: Seq<Point>, k: int) -> int
    decreases k,
{
    if k <= 0 {
        0
    } else {
        let c = lowest_of(s, k - 1);
        if below(s[k - 1], s[c]) {
            k - 1
        } else {
            c
        }
    }
}

/// The index of the lowest point (least y, then least x), the first one
/// of equal points.  With NaN coordinates the scan of the spec still
/// decides.
pub fn lowest_index(points: &Vec<Point>) -> (res: usize)
    requires
        points@.len() >= 1,
    ensures
        res as int == lowest_of(points@, points@.len() as int),
        res < points@.len(),
        (forall|i: int| 0 <= i < points@.len() ==> point_is_number(#[trigger] points@[i])) ==> (
        forall|j: int| 0 <= j < points@.len() ==> !below(#[trigger] points@[j], points@[res as int])),
        (forall|i: int| 0 <= i < points@.len() ==> point_is_number(#[trigger] points@[i])) ==> (
        forall|j: int| 0 <= j < res ==> below(points@[res as int], #[trigger] points@[j])),
{
    let n = points.len();
    let mut idx: usize = 0;
    let mut i: usize = 0;
    while i < n
        invariant
            n == points@.len(),
            n >= 1,
            i <= n,
            idx as int == lowest_of(points@, i as int),
            idx < n,
            i > 0 ==> idx < i,
            (forall|k: int| 0 <= k < points@.len() ==> point_is_number(#[trigger] points@[k])) ==> (
            forall|j: int| 0 <= j < i ==> !below(#[trigger] points@[j], points@[idx as int])),
            (forall|k: int| 0 <= k < points@.len() ==> point_is_number(#[trigger] points@[k])) ==> (
            forall|j: int| 0 <= j < idx ==> below(points@[idx as int], #[trigger] points@[j])),
        decreases n - i,
    {
        let p = points[i];
        let s = points[idx];
        if p.y.lt(s.y) || (p.y.ieee_equal(s.y) && p.x.lt(s.x)) {
            idx = i;
        }
        i = i + 1;
    }
    idx
}

/// The line segment from `a` to `b` as an arc (identifier 0).
pub open spec fn segment_arc(a: Point, b: Point) -> Arc {
    Arc { a, b, c: Point { x: infinite_radius(), y: infinite_radius() }, r: infinite_radius(), id: 0 }
}

/// The closed chain of segments through the points `indices` picks, in
/// order: segment `i` goes from point `indices[i]` to point `indices[i + 1]`,
/// the last one back to the first.  Fewer than 3 points enclose nothing:
/// the chain is then empty.
pub fn hull_arcline(points: &Vec<Point>, indices: &Vec<usize>) -> (res: Arcline)
    requires
        forall|t: int| 0 <= t < indices@.len() ==> #[trigger] indices@[t] < points@.len(),
    ensures
        points@.len() < 3 ==> res@.len() == 0,
        points@.len() >= 3 ==> res@.len() == indices@.len(),
        points@.len() >= 3 ==> forall|t: int|
            0 <= t < res@.len() ==> #[trigger] res@[t] == segment_arc(
                points@[indices@[t] as int],
                points@[indices@[(t + 1) % (indices@.len() as int)] as int],
            ),
{
    let mut res: Arcline = Vec::new();
    if points.len() < 3 {
        return res;
    }
    let n = indices.len();
    let mut i: usize = 0;
    while i < n
        invariant
            n == indices@.len(),
            i <= n,
            forall|t: int| 0 <= t < indices@.len() ==> #[trigger] indices@[t] < points@.len(),
            res@.len() == i,
            forall|t: int|
                0 <= t < i ==> #[trigger] res@[t] == segment_arc(
                    points@[indices@[t] as int],
                    points@[indices@[(t + 1) % (n as int)] as int],
                ),
        decreases n - i,
    {
        let j: usize = if i + 1 == n {
            0
        } else {
            i + 1
        };
        proof {
            if i + 1 == n {
                vstd::arithmetic::div_mod::lemma_mod_self_0(n as int);
            } else {
                vstd::arithmetic::div_mod::lemma_small_mod((i + 1) as nat, n as nat);
            }
        }
        let s = arcseg(points[indices[i]], points[indices[j]]);
        res.push(s);
        i = i + 1;
    }
    res
}

/// The hull chain is closed: every segment ends where the next one starts,
/// and the last one ends where the first one starts.
pub proof fn lemma_hull_chain_is_closed(points: Seq<Point>, indices: Seq<usize>, chain: Seq<Arc>)
    requires
        chain.len() == indices.len(),
        forall|t: int|
            0 <= t < chain.len() ==> #[trigger] chain[t] == segment_arc(
                points[indices[t] as int],
                points[indices[(t + 1) % (indices.len() as int)] as int],
            ),
    ensures
        forall|t: int|
            0 <= t < chain.len() ==> #[trigger] chain[t].b == chain[(t + 1) % (chain.len() as int)].a,
{
    assert forall|t: int| 0 <= t < chain.len() implies #[trigger] chain[t].b == chain[(t + 1) % (
    chain.len() as int)].a by {
        let n = chain.len() as int;
        let u = (t + 1) % n;
        vstd::arithmetic::div_mod::lemma_mod_bound(t + 1, n);
        assert(chain[u] == segment_arc(points[indices[u] as int], points[indices[(u + 1) % n] as int]));
    }
}

} // verus!
