//! Polylines: sequences of vertices with bulge factors.
//!
//! A vertex holds the start point of a segment and the bulge of the piece
//! from that vertex to the next one: 0 for a straight segment, positive for
//! a counter-clockwise arc, negative for a clockwise one (the bulge is the
//! tangent of a quarter of the included angle).
use vstd::prelude::*;
use vstd::std_specs::cmp::PartialEqSpecImpl;
use crate::binary64::{Binary64, ieee_eq, lemma_neg_involutive};
use crate::point::{Point, point_eq};

verus! {

/// A polyline vertex: start point and bulge of the following piece.
#[derive(Clone, Copy, Debug)]
pub struct PVertex {
    /// Starting point of the arc or line.
    pub p: Point,
    /// Bulge factor of the piece that starts here.
    pub b: Binary64,
}

/// A sequence of connected vertices forming a path.
pub type Polyline = Vec<PVertex>;

impl PVertex {
    /// Creates a new polyline vertex.
    pub fn new(p: Point, b: Binary64) -> (res: PVertex)
        ensures
            res.p == p,
            res.b == b,
    {
        PVertex { p, b }
    }
}

/// Creates a new polyline vertex (same as `PVertex::new`).
pub fn pvertex(p: Point, b: Binary64) -> (res: PVertex)
    ensures
        res.p == p,
        res.b == b,
{
    PVertex::new(p, b)
}

impl PartialEq for PVertex {
    fn eq(&self, other: &Self) -> (res: bool) {
        self.p == other.p && self.b == other.b
    }
}

impl PartialEqSpecImpl for PVertex {
    open spec fn obeys_eq_spec() -> bool {
        true
    }

    open spec fn eq_spec(&self, other: &Self) -> bool {
        point_eq(self.p, other.p) && ieee_eq(self.b, other.b)
    }
}

/// The same path traced the other way: the vertices come in reverse order,
/// and each piece keeps its shape, so the bulge that a vertex carries is the
/// negated bulge of the piece that now ends there.  Vertex `i` of the result
/// is vertex `n-1-i` of the input, with the negated bulge of vertex `n-2-i`;
/// the last one is the first input vertex with the negated bulge of the last.
pub open spec fn reversed_polyline(s: Seq<PVertex>) -> Seq<PVertex> {
    let n = s.len();
    Seq::new(
        n,
        |i: int|
            if i + 1 < n {
                PVertex { p: s[n - 1 - i].p, b: s[n - 2 - i].b.spec_neg() }
            } else {
                PVertex { p: s[0].p, b: s[n - 1].b.spec_neg() }
            },
    )
}

/// Reverses the direction of a polyline, negating the bulges so that every
/// piece keeps its geometric shape.
pub fn polyline_reverse(poly: &Polyline) -> (res: Polyline)
    ensures
        res@ == reversed_polyline(poly@),
{
    let n = poly.len();
    let mut res: Vec<PVertex> = Vec::with_capacity(n);
    let mut i: usize = 0;
    while i < n
        invariant
            n == poly@.len(),
            i <= n,
            res@ == reversed_polyline(poly@).take(i as int),
        decreases n - i,
    {
        let v = if i + 1 < n {
            PVertex { p: poly[n - 1 - i].p, b: poly[n - 2 - i].b.neg() }
        } else {
            PVertex { p: poly[0].p, b: poly[n - 1].b.neg() }
        };
        res.push(v);
        i = i + 1;
        assert(res@ =~= reversed_polyline(poly@).take(i as int));
    }
    assert(res@ =~= reversed_polyline(poly@));
    res
}

/// Reverses the direction of each polyline of a collection.
pub fn polylines_reverse(poly: &Vec<Polyline>) -> (res: Vec<Polyline>)
    ensures
        res@.len() == poly@.len(),
        forall|i: int| 0 <= i < poly@.len() ==> #[trigger] res@[i]@ == reversed_polyline(poly@[i]@),
{
    let n = poly.len();
    let mut res: Vec<Polyline> = Vec::with_capacity(n);
    let mut i: usize = 0;
    while i < n
        invariant
            n == poly@.len(),
            i <= n,
            res@.len() == i,
            forall|k: int| 0 <= k < i ==> #[trigger] res@[k]@ == reversed_polyline(poly@[k]@),
        decreases n - i,
    {
        let r = polyline_reverse(&poly[i]);
        res.push(r);
        i = i + 1;
    }
    res
}

/// Reversing a polyline twice gives back the same polyline, bit for bit.
pub proof fn lemma_polyline_reverse_involutive(s: Seq<PVertex>)
    ensures
        reversed_polyline(reversed_polyline(s)) == s,
{
    let r = reversed_polyline(s);
    let rr = reversed_polyline(r);
    assert forall|i: int| 0 <= i < s.len() implies #[trigger] rr[i] == s[i] by {
        let n = s.len();
        if i + 1 < n {
            lemma_neg_involutive(s[i].b);
        } else {
            lemma_neg_involutive(s[n - 1].b);
        }
    }
    assert(rr =~= s);
}

/// Reversing keeps the number of vertices and lists the same points in the
/// opposite order.
pub proof fn lemma_polyline_reverse_points(s: Seq<PVertex>)
    ensures
        reversed_polyline(s).len() == s.len(),
        forall|i: int| 0 <= i < s.len() ==> #[trigger] reversed_polyline(s)[i].p == s[s.len() - 1 - i].p,
{
}

} // verus!
