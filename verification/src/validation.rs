//! Validation of arclines.
//!
//! An arcline is valid when it has at least two elements, each element is a
//! valid arc or segment, each element shares one end with the previous
//! element and the other with the next one (the arcline is closed), no two
//! consecutive elements meet at a zero-degree angle, and no two elements
//! that are not consecutive in index order intersect.
//!
//! Whether one element is valid, whether two tangents are collinear and
//! whether two elements really intersect are metric questions that the
//! caller answers (the three predicates); the connectivity test and the
//! order of the checks, which decides the answer, are here.
use vstd::prelude::*;
use vstd::std_specs::cmp::PartialEqSpecImpl;
use crate::arc::{Arc, Arcline, arc_eq};
use crate::point::{Point, point_eq};
use crate::segment::{Segment, segment};

verus! {

/// Result of arcline validation: valid, or the first reason found why not.
#[derive(Clone, Copy, Debug)]
pub enum ArclineValidation {
    /// The arcline is valid and forms a proper continuous path.
    Valid,
    /// The arcline has fewer than 2 elements.
    Invalid,
    /// The first element that is not a valid arc or segment.
    InvalidArc(Arc),
    /// An element that does not share its ends with its neighbours.
    GapBetweenArcs(Arc),
    /// Two consecutive elements that meet at a zero-degree angle.
    ZeroDegreeAngle(Arc, Arc),
    /// Two elements that intersect each other.
    IntersectingArcs(Arc, Arc),
}

/// Equality of validation results: same variant, equal arcs.
pub open spec fn validation_eq(x: ArclineValidation, y: ArclineValidation) -> bool {
    match (x, y) {
        (ArclineValidation::Valid, ArclineValidation::Valid) => true,
        (ArclineValidation::Invalid, ArclineValidation::Invalid) => true,
        (ArclineValidation::InvalidArc(a), ArclineValidation::InvalidArc(b)) => arc_eq(a, b),
        (ArclineValidation::GapBetweenArcs(a), ArclineValidation::GapBetweenArcs(b)) => arc_eq(a, b),
        (ArclineValidation::ZeroDegreeAngle(a, c), ArclineValidation::ZeroDegreeAngle(b, d)) => arc_eq(a, b)
            && arc_eq(c, d),
        (ArclineValidation::IntersectingArcs(a, c), ArclineValidation::IntersectingArcs(b, d)) => arc_eq(a, b)
            && arc_eq(c, d),
        _ => false,
    }
}

impl PartialEq for ArclineValidation {
    fn eq(&self, other: &Self) -> (res: bool) {
        match (self, other) {
            (ArclineValidation::Valid, ArclineValidation::Valid) => true,
            (ArclineValidation::Invalid, ArclineValidation::Invalid) => true,
            (ArclineValidation::InvalidArc(a), ArclineValidation::InvalidArc(b)) => a == b,
            (ArclineValidation::GapBetweenArcs(a), ArclineValidation::GapBetweenArcs(b)) => a == b,
            (ArclineValidation::ZeroDegreeAngle(a, c), ArclineValidation::ZeroDegreeAngle(b, d)) => a == b
                && c == d,
            (ArclineValidation::IntersectingArcs(a, c), ArclineValidation::IntersectingArcs(b, d)) => a == b
                && c == d,
            _ => false,
        }
    }
}

impl PartialEqSpecImpl for ArclineValidation {
    open spec fn obeys_eq_spec() -> bool {
        true
    }

    open spec fn eq_spec(&self, other: &Self) -> bool {
        validation_eq(*self, *other)
    }
}

/// The point `p` is an end of `x`.
pub open spec fn is_end_of(p: Point, x: Arc) -> bool {
    point_eq(x.a, p) || point_eq(x.b, p)
}

/// `x2` has two distinct ends, one shared with `x1` and the other with `x3`.
#[verifier::opaque]
pub open spec fn two_connected_ends(x1: Arc, x2: Arc, x3: Arc) -> bool {
    &&& !point_eq(x2.a, x2.b)
    &&& (is_end_of(x2.a, x1) && is_end_of(x2.b, x3)) || (is_end_of(x2.b, x1) && is_end_of(
        x2.a,
        x3,
    ))
}

fn is_end(p: Point, x: &Arc) -> (res: bool)
    ensures
        res == is_end_of(p, *x),
{
    x.a == p || x.b == p
}

/// Checks that `arc2` has two distinct ends, one equal to an end of `arc1`
/// and the other equal to an end of `arc3` (in either order).
pub fn arc_have_two_connected_ends(arc1: &Arc, arc2: &Arc, arc3: &Arc) -> (res: bool)
    ensures
        res == two_connected_ends(*arc1, *arc2, *arc3),
{
    reveal(two_connected_ends);
    if arc2.a == arc2.b {
        return false;
    }
    (is_end(arc2.a, arc1) && is_end(arc2.b, arc3)) || (is_end(arc2.b, arc1) && is_end(arc2.a, arc3))
}

/// The element `k` of `s`, an index past the end wrapping around to the
/// start (once: `k < 2 * s.len()`).
pub open spec fn cyclic(s: Seq<Arc>, k: int) -> Arc {
    if k < s.len() {
        s[k]
    } else {
        s[k - s.len()]
    }
}

/// The first `k` elements passed the element predicate.
pub open spec fn elements_pass<V: Fn(Arc) -> bool>(valid: V, s: Seq<Arc>, k: int) -> bool {
    forall|m: int| 0 <= m < k ==> #[trigger] valid.ensures((s[m],), true)
}

/// The junctions at the first `k` elements passed: each element has its
/// neighbour ends and its tangents are not collinear with the next one's.
pub open spec fn junctions_pass<T: Fn(Arc, Arc) -> bool>(
    collinear: T,
    s: Seq<Arc>,
    k: int,
) -> bool {
    forall|m: int|
        0 <= m < k ==> {
            &&& two_connected_ends(#[trigger] cyclic(s, m), cyclic(s, m + 1), cyclic(s, m + 2))
            &&& collinear.ensures((cyclic(s, m), cyclic(s, m + 1)), false)
        }
}

/// The pair `(p, q)` comes before `(i, j)` among the pairs checked for
/// intersection (`q >= p + 2`, in lexicographic order).
pub open spec fn pair_before(p: int, q: int, i: int, j: int) -> bool {
    p + 2 <= q && (p < i || (p == i && q < j))
}

/// No pair before `(i, j)` was found intersecting.
pub open spec fn no_crossing_before<X: Fn(Arc, Arc) -> bool>(
    crossing: X,
    s: Seq<Arc>,
    i: int,
    j: int,
) -> bool {
    forall|p: int, q: int|
        0 <= p && q < s.len() && pair_before(p, q, i, j) ==> crossing.ensures(
            (#[trigger] s[p], #[trigger] s[q]),
            false,
        )
}

proof fn lemma_junctions_extend<T: Fn(Arc, Arc) -> bool>(collinear: T, s: Seq<Arc>, i: int)
    requires
        0 <= i,
        junctions_pass(collinear, s, i),
        two_connected_ends(cyclic(s, i), cyclic(s, i + 1), cyclic(s, i + 2)),
        collinear.ensures((cyclic(s, i), cyclic(s, i + 1)), false),
    ensures
        junctions_pass(collinear, s, i + 1),
{
}

/// Validates an arcline.  The checks run in this order, and the first that
/// fails decides the answer:
/// 1. fewer than 2 elements: `Invalid`;
/// 2. each element, in order, against `arc_is_valid`: `InvalidArc`;
/// 3. at each element `i` in order, with `i+1` and `i+2` taken cyclically:
///    `arcs[i+1]` must share its two distinct ends with `arcs[i]` and
///    `arcs[i+2]` (`GapBetweenArcs(arcs[i+1])`), then the tangents of
///    `arcs[i]` and `arcs[i+1]` must not be collinear
///    (`ZeroDegreeAngle(arcs[i], arcs[i+1])`);
/// 4. each pair `i < j` with `j >= i + 2`, in lexicographic order, against
///    `really_intersecting`: `IntersectingArcs(arcs[i], arcs[j])`.
///
/// Otherwise the arcline is `Valid`.
#[verifier::rlimit(60)]
pub fn arcline_is_valid<V, T, X>(
    arcs: &Arcline,
    arc_is_valid: V,
    tangents_are_collinear: T,
    really_intersecting: X,
) -> (res: ArclineValidation) where V: Fn(Arc) -> bool, T: Fn(Arc, Arc) -> bool, X: Fn(Arc, Arc) -> bool
    requires
        forall|x: Arc| #[trigger] arc_is_valid.requires((x,)),
        forall|x: Arc, y: Arc| #[trigger] tangents_are_collinear.requires((x, y)),
        forall|x: Arc, y: Arc| #[trigger] really_intersecting.requires((x, y)),
    ensures
        (arcs@.len() < 2) == (res is Invalid),
        res matches ArclineValidation::InvalidArc(x) ==> exists|k: int|
            0 <= k < arcs@.len() && x == arcs@[k] && elements_pass(arc_is_valid, arcs@, k)
                && #[trigger] arc_is_valid.ensures((arcs@[k],), false),
        res matches ArclineValidation::GapBetweenArcs(x) ==> elements_pass(
            arc_is_valid,
            arcs@,
            arcs@.len() as int,
        ) && exists|i: int|
            0 <= i < arcs@.len() && x == cyclic(arcs@, i + 1) && junctions_pass(
                tangents_are_collinear,
                arcs@,
                i,
            ) && !two_connected_ends(#[trigger] cyclic(arcs@, i), cyclic(arcs@, i + 1), cyclic(arcs@, i + 2)),
        res matches ArclineValidation::ZeroDegreeAngle(x, y) ==> elements_pass(
            arc_is_valid,
            arcs@,
            arcs@.len() as int,
        ) && exists|i: int|
            0 <= i < arcs@.len() && x == cyclic(arcs@, i) && y == cyclic(arcs@, i + 1)
                && junctions_pass(tangents_are_collinear, arcs@, i) && two_connected_ends(
                #[trigger] cyclic(arcs@, i),
                cyclic(arcs@, i + 1),
                cyclic(arcs@, i + 2),
            ) && tangents_are_collinear.ensures((cyclic(arcs@, i), cyclic(arcs@, i + 1)), true),
        res matches ArclineValidation::IntersectingArcs(x, y) ==> elements_pass(
            arc_is_valid,
            arcs@,
            arcs@.len() as int,
        ) && junctions_pass(tangents_are_collinear, arcs@, arcs@.len() as int) && exists|
            i: int,
            j: int,
        |
            0 <= i && i + 2 <= j < arcs@.len() && x == arcs@[i] && y == arcs@[j]
                && no_crossing_before(really_intersecting, arcs@, i, j)
                && #[trigger] really_intersecting.ensures((arcs@[i], arcs@[j]), true),
        res is Valid ==> arcs@.len() >= 2 && elements_pass(arc_is_valid, arcs@, arcs@.len() as int)
            && junctions_pass(tangents_are_collinear, arcs@, arcs@.len() as int)
            && no_crossing_before(really_intersecting, arcs@, arcs@.len() as int, 0),
{
    let size = arcs.len();
    if size < 2 {
        return ArclineValidation::Invalid;
    }
    // Arcs should be valid
    let mut k: usize = 0;
    while k < size
        invariant
            size == arcs@.len(),
            size >= 2,
            k <= size,
            forall|x: Arc| #[trigger] arc_is_valid.requires((x,)),
            elements_pass(arc_is_valid, arcs@, k as int),
        decreases size - k,
    {
        let x = arcs[k];
        let ok = arc_is_valid(x);
        if !ok {
            return ArclineValidation::InvalidArc(x);
        }
        k = k + 1;
    }
    // No gaps between arcs and no zero-degree angles
    let mut i: usize = 0;
    while i < size
        invariant
            size == arcs@.len(),
            size >= 2,
            i <= size,
            forall|x: Arc, y: Arc| #[trigger] tangents_are_collinear.requires((x, y)),
            elements_pass(arc_is_valid, arcs@, size as int),
            junctions_pass(tangents_are_collinear, arcs@, i as int),
        decreases size - i,
    {
        let i1 = if i < size - 1 {
            i + 1
        } else {
            0
        };
        let i2 = if i1 < size - 1 {
            i1 + 1
        } else {
            0
        };
        let arc0 = arcs[i];
        let arc1 = arcs[i1];
        let arc2 = arcs[i2];
        assert(arc0 == cyclic(arcs@, i as int));
        assert(arc1 == cyclic(arcs@, i + 1));
        assert(arc2 == cyclic(arcs@, i + 2));
        assert(two_connected_ends(arc0, arc1, arc2) == two_connected_ends(
            cyclic(arcs@, i as int),
            cyclic(arcs@, i + 1),
            cyclic(arcs@, i + 2),
        ));
        if !arc_have_two_connected_ends(&arc0, &arc1, &arc2) {
            assert(0 <= i < arcs@.len() && arc1 == cyclic(arcs@, i + 1) && junctions_pass(
                tangents_are_collinear,
                arcs@,
                i as int,
            ) && !two_connected_ends(cyclic(arcs@, i as int), cyclic(arcs@, i + 1), cyclic(arcs@, i + 2)));
            return ArclineValidation::GapBetweenArcs(arc1);
        }
        let col = tangents_are_collinear(arc0, arc1);
        if col {
            assert(0 <= i < arcs@.len() && arc0 == cyclic(arcs@, i as int) && arc1 == cyclic(arcs@, i + 1)
                && junctions_pass(tangents_are_collinear, arcs@, i as int) && two_connected_ends(
                cyclic(arcs@, i as int),
                cyclic(arcs@, i + 1),
                cyclic(arcs@, i + 2),
            ) && tangents_are_collinear.ensures((cyclic(arcs@, i as int), cyclic(arcs@, i + 1)), true));
            return ArclineValidation::ZeroDegreeAngle(arc0, arc1);
        }
        proof {
            lemma_junctions_extend(tangents_are_collinear, arcs@, i as int);
        }
        i = i + 1;
    }
    // No intersection between arcs
    let mut i: usize = 0;
    while i < size - 2
        invariant
            size == arcs@.len(),
            size >= 2,
            i <= size,
            forall|x: Arc, y: Arc| #[trigger] really_intersecting.requires((x, y)),
            elements_pass(arc_is_valid, arcs@, size as int),
            junctions_pass(tangents_are_collinear, arcs@, size as int),
            no_crossing_before(really_intersecting, arcs@, i as int, 0),
        decreases size - i,
    {
        let mut j: usize = i + 2;
        while j < size
            invariant
                size == arcs@.len(),
                size >= 2,
                i < size,
                i + 2 <= j,
                forall|x: Arc, y: Arc| #[trigger] really_intersecting.requires((x, y)),
                elements_pass(arc_is_valid, arcs@, size as int),
                junctions_pass(tangents_are_collinear, arcs@, size as int),
                no_crossing_before(really_intersecting, arcs@, i as int, j as int),
            decreases size - j,
        {
            let arc0 = arcs[i];
            let arc1 = arcs[j];
            let hit = really_intersecting(arc0, arc1);
            if hit {
                return ArclineValidation::IntersectingArcs(arc0, arc1);
            }
            j = j + 1;
        }
        i = i + 1;
    }
    assert(no_crossing_before(really_intersecting, arcs@, size as int, 0));
    ArclineValidation::Valid
}

/// The segment between the ends of an arc.
pub open spec fn chord(x: Arc) -> Segment {
    Segment { a: x.a, b: x.b }
}

/// Checks whether two elements really intersect (not only touch at their
/// ends), by the test that fits their kinds: `segment_segment` on the two
/// chords when both are line segments, `arc_arc` when both are circular
/// arcs, and `segment_arc` on the segment's chord and the circular arc
/// otherwise (whichever of the two is the segment).
pub fn is_really_intersecting<SS, AA, SA>(
    arc1: &Arc,
    arc2: &Arc,
    segment_segment: SS,
    arc_arc: AA,
    segment_arc: SA,
) -> (res: bool) where
    SS: Fn(Segment, Segment) -> bool,
    AA: Fn(Arc, Arc) -> bool,
    SA: Fn(Segment, Arc) -> bool,

    requires
        forall|x: Segment, y: Segment| #[trigger] segment_segment.requires((x, y)),
        forall|x: Arc, y: Arc| #[trigger] arc_arc.requires((x, y)),
        forall|x: Segment, y: Arc| #[trigger] segment_arc.requires((x, y)),
    ensures
        arc1.spec_is_seg() && arc2.spec_is_seg() ==> segment_segment.ensures(
            (chord(*arc1), chord(*arc2)),
            res,
        ),
        !arc1.spec_is_seg() && !arc2.spec_is_seg() ==> arc_arc.ensures((*arc1, *arc2), res),
        arc1.spec_is_seg() && !arc2.spec_is_seg() ==> segment_arc.ensures((chord(*arc1), *arc2), res),
        !arc1.spec_is_seg() && arc2.spec_is_seg() ==> segment_arc.ensures((chord(*arc2), *arc1), res),
{
    if arc1.is_seg() && arc2.is_seg() {
        let seg1 = segment(arc1.a, arc1.b);
        let seg2 = segment(arc2.a, arc2.b);
        return segment_segment(seg1, seg2);
    }
    if arc1.is_arc() && arc2.is_arc() {
        return arc_arc(*arc1, *arc2);
    }
    if arc1.is_seg() && arc2.is_arc() {
        let seg1 = segment(arc1.a, arc1.b);
        return segment_arc(seg1, *arc2);
    }
    let seg2 = segment(arc2.a, arc2.b);
    segment_arc(seg2, *arc1)
}

} // verus!
