//! Circular arcs (always counter-clockwise) and line segments held as arcs
//! of infinite radius, and arclines: sequences of them.
use vstd::prelude::*;
use vstd::std_specs::cmp::PartialEqSpecImpl;
use crate::binary64::{Binary64, INFINITY_BITS, ieee_eq, ieee_lt};
use crate::point::{Point, point, point_eq};

verus! {

/// A counter-clockwise arc from `a` to `b` around center `c` with radius
/// `r`; a radius of positive infinity makes it the line segment from `a` to
/// `b`.  `id` is a non-unique identifier used to track pieces that come from
/// the same segment; it takes no part in equality.
#[derive(Clone, Copy, Debug)]
pub struct Arc {
    /// Start point of the arc.
    pub a: Point,
    /// End point of the arc.
    pub b: Point,
    /// Center point of the arc.
    pub c: Point,
    /// Radius of the arc.
    pub r: Binary64,
    /// Non-unique identifier.
    pub id: usize,
}

/// A sequence of connected arcs forming a path.
pub type Arcline = Vec<Arc>;

/// Equality of arcs: equal end points, center and radius (IEEE equality),
/// whatever the identifiers.
pub open spec fn arc_eq(x: Arc, y: Arc) -> bool {
    point_eq(x.a, y.a) && point_eq(x.b, y.b) && point_eq(x.c, y.c) && ieee_eq(x.r, y.r)
}

/// Positive infinity, the radius of a line segment.
pub open spec fn infinite_radius() -> Binary64 {
    Binary64 { bits: INFINITY_BITS }
}

impl Arc {
    /// The arc is a line segment: its radius equals positive infinity.
    pub open spec fn spec_is_seg(self) -> bool {
        ieee_eq(self.r, infinite_radius())
    }

    /// The arc with its end points swapped (a different arc: all arcs are
    /// counter-clockwise, so this one covers the rest of the circle).
    pub open spec fn spec_reverse(self) -> Arc {
        Arc { a: self.b, b: self.a, c: self.c, r: self.r, id: 0 }
    }

    /// Creates a new arc.  Its identifier is 0; `Arc::id` sets another.
    pub fn new(a: Point, b: Point, c: Point, r: Binary64) -> (res: Arc)
        ensures
            res.a == a,
            res.b == b,
            res.c == c,
            res.r == r,
            res.id == 0,
    {
        Arc { a, b, c, r, id: 0 }
    }

    /// Sets the identifier of the arc.
    pub fn id(&mut self, id: usize)
        ensures
            *final(self) == (Arc { id, ..*old(self) }),
    {
        self.id = id;
    }

    /// True if the radius is not positive infinity: a circular arc.
    pub fn is_arc(&self) -> (res: bool)
        ensures
            res == !self.spec_is_seg(),
    {
        !self.is_seg()
    }

    /// True if the radius is positive infinity: a line segment.
    pub fn is_seg(&self) -> (res: bool)
        ensures
            res == self.spec_is_seg(),
            res == (self.r.bits == INFINITY_BITS),
    {
        self.r.bits == INFINITY_BITS
    }

    /// A copy of the arc with start and end points swapped (center and
    /// radius kept, a new identifier 0).
    pub fn reverse(&self) -> (res: Arc)
        ensures
            res == self.spec_reverse(),
    {
        arc(self.b, self.a, self.c, self.r)
    }

    /// The radius is collapsed: smaller than `eps` (no absolute value: a
    /// negative radius is collapsed too) or NaN.
    pub fn is_collapsed_radius(&self, eps: Binary64) -> (res: bool)
        ensures
            res == (ieee_lt(self.r, eps) || self.r.spec_is_nan()),
    {
        if self.r.lt(eps) || self.r.is_nan() {
            return true;
        }
        false
    }

    /// Whether the element is valid, given the results of the metric tests:
    /// `ends_collapsed` (its ends are within `eps` of each other) and
    /// `consistent` (its ends lie within `eps` of its circle).  A segment
    /// is valid when its ends are apart; an arc when moreover its radius is
    /// not collapsed (see `is_collapsed_radius`) and it is consistent.
    pub fn is_valid_given(&self, eps: Binary64, ends_collapsed: bool, consistent: bool) -> (res: bool)
        ensures
            res == if self.spec_is_seg() {
                !ends_collapsed
            } else {
                !ends_collapsed && !(ieee_lt(self.r, eps) || self.r.spec_is_nan()) && consistent
            },
    {
        if self.is_seg() {
            if ends_collapsed {
                return false;
            }
        }
        if self.is_arc() {
            if ends_collapsed || self.is_collapsed_radius(eps) || !consistent {
                return false;
            }
        }
        true
    }
}

/// Creates a new arc (same as `Arc::new`).
pub fn arc(a: Point, b: Point, c: Point, r: Binary64) -> (res: Arc)
    ensures
        res.a == a,
        res.b == b,
        res.c == c,
        res.r == r,
        res.id == 0,
{
    Arc::new(a, b, c, r)
}

/// Creates the line segment from `a` to `b` as an arc of infinite radius
/// (its center is the point at positive infinity on both axes).
pub fn arcseg(a: Point, b: Point) -> (res: Arc)
    ensures
        res.a == a,
        res.b == b,
        res.c == (Point { x: infinite_radius(), y: infinite_radius() }),
        res.r == infinite_radius(),
        res.id == 0,
        res.spec_is_seg(),
{
    arc(a, b, point(Binary64::infinity(), Binary64::infinity()), Binary64::infinity())
}

impl PartialEq for Arc {
    fn eq(&self, other: &Self) -> (res: bool) {
        self.a == other.a && self.b == other.b && self.c == other.c && self.r == other.r
    }
}

impl PartialEqSpecImpl for Arc {
    open spec fn obeys_eq_spec() -> bool {
        true
    }

    open spec fn eq_spec(&self, other: &Self) -> bool {
        arc_eq(*self, *other)
    }
}

/// The arcline traced the other way: the arcs come in reverse order; a line
/// segment gets its end points swapped, a circular arc is kept as it is
/// (it stays counter-clockwise).
pub open spec fn reversed_arcline(s: Seq<Arc>) -> Seq<Arc> {
    Seq::new(
        s.len(),
        |i: int|
            {
                let x = s[s.len() - 1 - i];
                if x.spec_is_seg() {
                    x.spec_reverse()
                } else {
                    x
                }
            },
    )
}

/// Reverses the direction of an arcline: reverses the order of the arcs and
/// swaps the end points of each line segment; circular arcs stay CCW.
pub fn arcline_reverse(arcs: &Arcline) -> (res: Arcline)
    ensures
        res@ == reversed_arcline(arcs@),
{
    let n = arcs.len();
    let mut reversed: Vec<Arc> = Vec::with_capacity(n);
    let mut k: usize = 0;
    while k < n
        invariant
            n == arcs@.len(),
            k <= n,
            reversed@ == reversed_arcline(arcs@).take(k as int),
        decreases n - k,
    {
        let x = arcs[n - 1 - k];
        if x.is_seg() {
            reversed.push(x.reverse());
        } else {
            reversed.push(x);
        }
        k = k + 1;
        assert(reversed@ =~= reversed_arcline(arcs@).take(k as int));
    }
    assert(reversed@ =~= reversed_arcline(arcs@));
    reversed
}

/// Reversing an arc twice gives back its end points, center and radius, bit
/// for bit.
pub proof fn lemma_arc_reverse_twice(x: Arc)
    ensures
        x.spec_reverse().spec_reverse().a == x.a,
        x.spec_reverse().spec_reverse().b == x.b,
        x.spec_reverse().spec_reverse().c == x.c,
        x.spec_reverse().spec_reverse().r == x.r,
        x.spec_reverse().spec_is_seg() == x.spec_is_seg(),
{
}

/// Reversing an arcline twice gives back the same arcs in the same order:
/// every arc has its end points, center and radius bit for bit, and the
/// circular arcs keep their identifiers too.
pub proof fn lemma_arcline_reverse_twice(s: Seq<Arc>)
    ensures
        reversed_arcline(reversed_arcline(s)).len() == s.len(),
        forall|i: int|
            0 <= i < s.len() ==> {
                let y = #[trigger] reversed_arcline(reversed_arcline(s))[i];
                &&& y.a == s[i].a
                &&& y.b == s[i].b
                &&& y.c == s[i].c
                &&& y.r == s[i].r
                &&& !s[i].spec_is_seg() ==> y == s[i]
            },
{
    assert forall|i: int| 0 <= i < s.len() implies {
        let y = #[trigger] reversed_arcline(reversed_arcline(s))[i];
        &&& y.a == s[i].a
        &&& y.b == s[i].b
        &&& y.c == s[i].c
        &&& y.r == s[i].r
        &&& !s[i].spec_is_seg() ==> y == s[i]
    } by {
        let n = s.len();
        let r = reversed_arcline(s);
        assert(r[n - 1 - i] == (if s[i].spec_is_seg() { s[i].spec_reverse() } else { s[i] }));
    }
}

/// The end `i` of an element: its start for 0, its end otherwise.
pub open spec fn end_point(x: Arc, i: int) -> Point {
    if i == 0 {
        x.a
    } else {
        x.b
    }
}

/// Two elements meet at a zero-degree angle: at some pair of equal ends
/// (end `i` of `arc1` and end `j` of `arc2`) `close_tangents(i, j)`
/// answers that their tangents point the same way.
pub open spec fn spec_tangents_collinear<C: Fn(usize, usize) -> bool>(arc1: Arc, arc2: Arc, close_tangents: C) -> bool {
    exists|i: int, j: int|
        0 <= i < 2 && 0 <= j < 2 && point_eq(end_point(arc1, i), end_point(arc2, j))
            && #[trigger] close_tangents.ensures((i as usize, j as usize), true)
}

/// Checks the pairs of equal ends of two elements, asking
/// `close_tangents(i, j)` for each (see the spec).
pub fn tangents_collinear<C: Fn(usize, usize) -> bool>(arc1: &Arc, arc2: &Arc, close_tangents: C) -> (res: bool)
    requires
        forall|i: usize, j: usize| #[trigger] close_tangents.requires((i, j)),
        forall|i: usize, j: usize, r1: bool, r2: bool|
            #[trigger] close_tangents.ensures((i, j), r1) && #[trigger] close_tangents.ensures((i, j), r2)
                ==> r1 == r2,
    ensures
        res == spec_tangents_collinear(*arc1, *arc2, close_tangents),
{
    let mut i: usize = 0;
    while i < 2
        invariant
            i <= 2,
            forall|a: usize, b: usize| #[trigger] close_tangents.requires((a, b)),
            forall|a: usize, b: usize, r1: bool, r2: bool|
                #[trigger] close_tangents.ensures((a, b), r1) && #[trigger] close_tangents.ensures(
                    (a, b),
                    r2,
                ) ==> r1 == r2,
            forall|a: int, b: int|
                0 <= a < i && 0 <= b < 2 && point_eq(end_point(*arc1, a), end_point(*arc2, b))
                    ==> !#[trigger] close_tangents.ensures((a as usize, b as usize), true),
        decreases 2 - i,
    {
        let mut j: usize = 0;
        while j < 2
            invariant
                i < 2,
                j <= 2,
                forall|a: usize, b: usize| #[trigger] close_tangents.requires((a, b)),
                forall|a: usize, b: usize, r1: bool, r2: bool|
                    #[trigger] close_tangents.ensures((a, b), r1) && #[trigger] close_tangents.ensures(
                        (a, b),
                        r2,
                    ) ==> r1 == r2,
                forall|a: int, b: int|
                    0 <= a < i && 0 <= b < 2 && point_eq(end_point(*arc1, a), end_point(*arc2, b))
                        ==> !#[trigger] close_tangents.ensures((a as usize, b as usize), true),
                forall|b: int|
                    0 <= b < j && point_eq(end_point(*arc1, i as int), end_point(*arc2, b))
                        ==> !#[trigger] close_tangents.ensures((i, b as usize), true),
            decreases 2 - j,
        {
            let x = if i == 0 {
                arc1.a
            } else {
                arc1.b
            };
            let y = if j == 0 {
                arc2.a
            } else {
                arc2.b
            };
            if x == y {
                let close = close_tangents(i, j);
                if close {
                    assert(end_point(*arc1, i as int) == x);
                    assert(end_point(*arc2, j as int) == y);
                    assert(close_tangents.ensures(((i as int) as usize, (j as int) as usize), true));
                    return true;
                }
            }
            j = j + 1;
        }
        i = i + 1;
    }
    false
}

} // verus!
