//! Intersection configurations and the rules that read them.
//!
//! The configurations describe how two primitives meet.  The metric part of
//! an intersection test (where the points are) is computed by the caller;
//! here are the rules that decide from a configuration and from shared end
//! points whether two primitives "really" intersect, that is whether they
//! cross or overlap somewhere other than at a common end point.
use vstd::prelude::*;
use vstd::std_specs::cmp::PartialEqSpecImpl;
use crate::arc::{Arc, arc};
use crate::binary64::{Binary64, ieee_le};
use crate::point::{
    Point, Keyed, point_eq, point_is_number, spec_sort4, four_keyed, sorted4, keys_are_numbers,
    lemma_sort4_permutes, lemma_sort4_sorts,
};
use crate::segment::Segment;

verus! {

/// Intersection of a segment and a point.
#[derive(Clone, Copy, Debug)]
pub enum SegmentPointConfig {
    NoIntersection(),
    OnePoint(Point),
}

impl PartialEq for SegmentPointConfig {
    fn eq(&self, other: &Self) -> (res: bool) {
        match (self, other) {
            (SegmentPointConfig::NoIntersection(), SegmentPointConfig::NoIntersection()) => true,
            (SegmentPointConfig::OnePoint(p), SegmentPointConfig::OnePoint(q)) => p == q,
            _ => false,
        }
    }
}

impl PartialEqSpecImpl for SegmentPointConfig {
    open spec fn obeys_eq_spec() -> bool {
        true
    }

    open spec fn eq_spec(&self, other: &Self) -> bool {
        match (*self, *other) {
            (SegmentPointConfig::NoIntersection(), SegmentPointConfig::NoIntersection()) => true,
            (SegmentPointConfig::OnePoint(p), SegmentPointConfig::OnePoint(q)) => point_eq(p, q),
            _ => false,
        }
    }
}

/// Intersection of a segment and a point.  Not implemented: it always
/// answers that there is no intersection.
pub fn int_segment_point(_segment0: &Segment, _point1: &Point) -> (res: SegmentPointConfig)
    ensures
        res is NoIntersection,
{
    SegmentPointConfig::NoIntersection()
}

/// Intersection of two segments: the points with the parameters along the
/// segments, "touching" when the segments share an end point.
#[derive(Clone, Copy, Debug)]
pub enum SegmentSegmentConfig {
    NoIntersection(),
    OnePoint(Point, Binary64, Binary64),
    OnePointTouching(Point, Binary64, Binary64),
    TwoPoints(Point, Point, Point, Point),
    TwoPointsTouching(Point, Point, Point, Point),
}

impl SegmentSegmentConfig {
    /// The segments cross or overlap other than at a shared end: one point
    /// or two points, not touching.
    pub fn really_intersecting(&self) -> (res: bool)
        ensures
            res == (self is OnePoint || self is TwoPoints),
    {
        match self {
            SegmentSegmentConfig::NoIntersection() => false,
            SegmentSegmentConfig::OnePoint(_, _, _) => true,
            SegmentSegmentConfig::OnePointTouching(_, _, _) => false,
            SegmentSegmentConfig::TwoPoints(_, _, _, _) => true,
            SegmentSegmentConfig::TwoPointsTouching(_, _, _, _) => false,
        }
    }
}

/// The two segments share at least one end point.
pub open spec fn segments_share_end(s0: Segment, s1: Segment) -> bool {
    point_eq(s0.a, s1.a) || point_eq(s0.a, s1.b) || point_eq(s0.b, s1.a) || point_eq(s0.b, s1.b)
}

/// The two segments have the same end points, in the same or the opposite
/// order.
pub open spec fn segments_share_both_ends(s0: Segment, s1: Segment) -> bool {
    (point_eq(s0.a, s1.a) && point_eq(s0.b, s1.b)) || (point_eq(s0.b, s1.a) && point_eq(s0.a, s1.b))
}

/// Whether two segments share an end point.
pub fn are_ends_towching(segment0: &Segment, segment1: &Segment) -> (res: bool)
    ensures
        res == segments_share_end(*segment0, *segment1),
{
    if segment0.a == segment1.a || segment0.a == segment1.b || segment0.b == segment1.a || segment0.b
        == segment1.b {
        true
    } else {
        false
    }
}

/// Whether two segments have the same two end points (either order).
pub fn are_both_ends_towching(segment0: &Segment, segment1: &Segment) -> (res: bool)
    ensures
        res == segments_share_both_ends(*segment0, *segment1),
{
    (segment0.a == segment1.a && segment0.b == segment1.b) || (segment0.b == segment1.a && segment0.a
        == segment1.b)
}

/// Intersection of two lines: parallel and distinct, the same line, or one
/// point with its parameters along the two lines.
#[derive(Clone, Copy, Debug)]
pub enum LineLineConfig {
    ParallelDistinct(),
    ParallelTheSame(),
    OnePoint(Point, Binary64, Binary64),
}

/// Intersection of two intervals: none, an overlap from one number to
/// another, or a single shared end.
#[derive(Clone, Copy, Debug)]
pub enum IntervalConfig {
    NoOverlap(),
    Overlap(Binary64, Binary64),
    Touching(Binary64),
}

/// The intersection of two segments that are not single points, from the
/// intersection of their lines.  `on_segments` tells whether the crossing
/// point of two non-parallel lines lies within both segments (read for
/// `OnePoint` only); `overlap` is how the two segments, as intervals of
/// their common line, meet (read for `ParallelTheSame` only).  A crossing
/// is touching when the segments share an end.  Overlapping segments on
/// one line are touching when they have the same ends; when they share
/// just one end there is no intersection; otherwise the intersection is
/// the four end points sorted along the line by their coordinates along
/// it, `keys` (for `segment0.a`, `segment0.b`, `segment1.a`, `segment1.b`;
/// see `Point::sort_colinear_points`).  Segments on one line that only touch
/// or do not meet, and parallel distinct lines, have no intersection.
pub open spec fn spec_segment_segment_config(
    lines: LineLineConfig,
    on_segments: bool,
    overlap: IntervalConfig,
    segment0: Segment,
    segment1: Segment,
    keys: (Binary64, Binary64, Binary64, Binary64),
) -> SegmentSegmentConfig {
    match lines {
        LineLineConfig::ParallelDistinct() => SegmentSegmentConfig::NoIntersection(),
        LineLineConfig::OnePoint(p, s0, s1) => {
            if !on_segments {
                SegmentSegmentConfig::NoIntersection()
            } else if segments_share_end(segment0, segment1) {
                SegmentSegmentConfig::OnePointTouching(p, s0, s1)
            } else {
                SegmentSegmentConfig::OnePoint(p, s0, s1)
            }
        },
        LineLineConfig::ParallelTheSame() => {
            match overlap {
                IntervalConfig::Overlap(_, _) => {
                    if segments_share_both_ends(segment0, segment1) {
                        SegmentSegmentConfig::TwoPointsTouching(
                            segment0.a,
                            segment0.b,
                            segment1.a,
                            segment1.b,
                        )
                    } else if segments_share_end(segment0, segment1) {
                        SegmentSegmentConfig::NoIntersection()
                    } else {
                        let q = spec_sort4(keyed_ends(segment0, segment1, keys));
                        SegmentSegmentConfig::TwoPoints(q.0.0, q.1.0, q.2.0, q.3.0)
                    }
                },
                _ => SegmentSegmentConfig::NoIntersection(),
            }
        },
    }
}

/// The four end points of two segments, each with its coordinate along
/// their common line.
pub open spec fn keyed_ends(
    segment0: Segment,
    segment1: Segment,
    keys: (Binary64, Binary64, Binary64, Binary64),
) -> (Keyed, Keyed, Keyed, Keyed) {
    ((segment0.a, keys.0), (segment0.b, keys.1), (segment1.a, keys.2), (segment1.b, keys.3))
}

/// Two overlapping segments on one line that do not share an end meet in
/// their four end points: the intersection lists exactly those points,
/// rearranged, in ascending order along the line when no coordinate is
/// NaN.
pub proof fn lemma_overlap_keeps_end_points(
    lines: LineLineConfig,
    on_segments: bool,
    overlap: IntervalConfig,
    segment0: Segment,
    segment1: Segment,
    keys: (Binary64, Binary64, Binary64, Binary64),
)
    ensures
        spec_segment_segment_config(lines, on_segments, overlap, segment0, segment1, keys)
            matches SegmentSegmentConfig::TwoPoints(p0, p1, p2, p3) ==> {
            let q = spec_sort4(keyed_ends(segment0, segment1, keys));
            &&& (p0, p1, p2, p3) == (q.0.0, q.1.0, q.2.0, q.3.0)
            &&& four_keyed(q) == four_keyed(keyed_ends(segment0, segment1, keys))
            &&& keys_are_numbers(keyed_ends(segment0, segment1, keys)) ==> sorted4(q)
        },
{
    let t = keyed_ends(segment0, segment1, keys);
    lemma_sort4_permutes(t);
    if keys_are_numbers(t) {
        lemma_sort4_sorts(t);
    }
}

/// Classifies the intersection of two segments from the intersection of
/// their lines (see the spec).
pub fn segment_segment_config(
    lines: LineLineConfig,
    on_segments: bool,
    overlap: IntervalConfig,
    segment0: &Segment,
    segment1: &Segment,
    keys: (Binary64, Binary64, Binary64, Binary64),
) -> (res: SegmentSegmentConfig)
    ensures
        res == spec_segment_segment_config(lines, on_segments, overlap, *segment0, *segment1, keys),
{
    match lines {
        LineLineConfig::ParallelDistinct() => SegmentSegmentConfig::NoIntersection(),
        LineLineConfig::OnePoint(p, s0, s1) => {
            if !on_segments {
                SegmentSegmentConfig::NoIntersection()
            } else if are_ends_towching(segment0, segment1) {
                SegmentSegmentConfig::OnePointTouching(p, s0, s1)
            } else {
                SegmentSegmentConfig::OnePoint(p, s0, s1)
            }
        },
        LineLineConfig::ParallelTheSame() => {
            match overlap {
                IntervalConfig::Overlap(_, _) => {
                    if are_both_ends_towching(segment0, segment1) {
                        SegmentSegmentConfig::TwoPointsTouching(
                            segment0.a,
                            segment0.b,
                            segment1.a,
                            segment1.b,
                        )
                    } else if are_ends_towching(segment0, segment1) {
                        SegmentSegmentConfig::NoIntersection()
                    } else {
                        let (p0, p1, p2, p3) = Point::sort_colinear_points(
                            (segment0.a, keys.0),
                            (segment0.b, keys.1),
                            (segment1.a, keys.2),
                            (segment1.b, keys.3),
                        );
                        SegmentSegmentConfig::TwoPoints(p0.0, p1.0, p2.0, p3.0)
                    }
                },
                _ => SegmentSegmentConfig::NoIntersection(),
            }
        },
    }
}

/// The intersection of two segments, either of which may be a single
/// point.  `point0` and `point1` tell which segment is (almost) a single
/// point; `meets` tells, for two points, whether they (almost) coincide,
/// and for one point, whether it lies on the other segment.  Two points
/// that meet touch at the first; a single point on the other segment is a
/// crossing at that point; both parameters are then zero.  Two proper
/// segments go by `spec_segment_segment_config`.
pub open spec fn spec_segments_config(
    point0: bool,
    point1: bool,
    meets: bool,
    lines: LineLineConfig,
    on_segments: bool,
    overlap: IntervalConfig,
    segment0: Segment,
    segment1: Segment,
    keys: (Binary64, Binary64, Binary64, Binary64),
) -> SegmentSegmentConfig {
    let zero = Binary64 { bits: 0 };
    if point0 && point1 {
        if meets {
            SegmentSegmentConfig::OnePointTouching(segment0.a, zero, zero)
        } else {
            SegmentSegmentConfig::NoIntersection()
        }
    } else if point0 {
        if meets {
            SegmentSegmentConfig::OnePoint(segment0.a, zero, zero)
        } else {
            SegmentSegmentConfig::NoIntersection()
        }
    } else if point1 {
        if meets {
            SegmentSegmentConfig::OnePoint(segment1.a, zero, zero)
        } else {
            SegmentSegmentConfig::NoIntersection()
        }
    } else {
        spec_segment_segment_config(lines, on_segments, overlap, segment0, segment1, keys)
    }
}

/// Classifies the intersection of two segments, single points included
/// (see the spec).
pub fn segments_config(
    point0: bool,
    point1: bool,
    meets: bool,
    lines: LineLineConfig,
    on_segments: bool,
    overlap: IntervalConfig,
    segment0: &Segment,
    segment1: &Segment,
    keys: (Binary64, Binary64, Binary64, Binary64),
) -> (res: SegmentSegmentConfig)
    ensures
        res == spec_segments_config(
            point0,
            point1,
            meets,
            lines,
            on_segments,
            overlap,
            *segment0,
            *segment1,
            keys,
        ),
{
    let zero = Binary64::zero();
    if point0 && point1 {
        if meets {
            SegmentSegmentConfig::OnePointTouching(segment0.a, zero, zero)
        } else {
            SegmentSegmentConfig::NoIntersection()
        }
    } else if point0 {
        if meets {
            SegmentSegmentConfig::OnePoint(segment0.a, zero, zero)
        } else {
            SegmentSegmentConfig::NoIntersection()
        }
    } else if point1 {
        if meets {
            SegmentSegmentConfig::OnePoint(segment1.a, zero, zero)
        } else {
            SegmentSegmentConfig::NoIntersection()
        }
    } else {
        segment_segment_config(lines, on_segments, overlap, segment0, segment1, keys)
    }
}

/// Two proper segments whose lines cross at one point: no intersection when
/// the point is off either segment; otherwise the crossing is touching
/// exactly when some end of `segment0` equals some end of `segment1` (any of
/// the four pairs), and a real intersection otherwise.  The same holds when
/// neither segment is a single point.
pub proof fn lemma_segment_crossing_touches_at_shared_end(
    p: Point,
    s0: Binary64,
    s1: Binary64,
    on_segments: bool,
    overlap: IntervalConfig,
    segment0: Segment,
    segment1: Segment,
    keys: (Binary64, Binary64, Binary64, Binary64),
    meets: bool,
)
    ensures
        ({
            let lines = LineLineConfig::OnePoint(p, s0, s1);
            let res = spec_segment_segment_config(lines, on_segments, overlap, segment0, segment1, keys);
            let shared = point_eq(segment0.a, segment1.a) || point_eq(segment0.a, segment1.b)
                || point_eq(segment0.b, segment1.a) || point_eq(segment0.b, segment1.b);
            &&& !on_segments ==> res == SegmentSegmentConfig::NoIntersection()
            &&& on_segments && shared ==> res == SegmentSegmentConfig::OnePointTouching(p, s0, s1)
            &&& on_segments && !shared ==> res == SegmentSegmentConfig::OnePoint(p, s0, s1)
            &&& spec_segments_config(false, false, meets, lines, on_segments, overlap, segment0, segment1, keys)
                == res
        }),
{
}

/// When either segment is a single point, the answer is "no intersection"
/// exactly when the point does not meet the other; otherwise it is that
/// point (the first one when both are points, then touching) with both
/// parameters zero.
pub proof fn lemma_point_segment_meets_at_the_point(
    point0: bool,
    point1: bool,
    meets: bool,
    lines: LineLineConfig,
    on_segments: bool,
    overlap: IntervalConfig,
    segment0: Segment,
    segment1: Segment,
    keys: (Binary64, Binary64, Binary64, Binary64),
)
    requires
        point0 || point1,
    ensures
        ({
            let res = spec_segments_config(
                point0,
                point1,
                meets,
                lines,
                on_segments,
                overlap,
                segment0,
                segment1,
                keys,
            );
            let zero = Binary64 { bits: 0 };
            &&& !meets <==> res is NoIntersection
            &&& meets && point0 && point1 ==> res == SegmentSegmentConfig::OnePointTouching(
                segment0.a,
                zero,
                zero,
            )
            &&& meets && point0 && !point1 ==> res == SegmentSegmentConfig::OnePoint(segment0.a, zero, zero)
            &&& meets && !point0 && point1 ==> res == SegmentSegmentConfig::OnePoint(segment1.a, zero, zero)
        }),
{
}

/// Whatever the lines do, two proper segments are reported as only touching
/// when they share an end point (both ends, for an overlap on one line), and
/// a real intersection (one point or an overlap) is reported only for
/// segments that share no end point.
pub proof fn lemma_segment_touching_means_shared_ends(
    lines: LineLineConfig,
    on_segments: bool,
    overlap: IntervalConfig,
    segment0: Segment,
    segment1: Segment,
    keys: (Binary64, Binary64, Binary64, Binary64),
)
    ensures
        ({
            let res = spec_segment_segment_config(lines, on_segments, overlap, segment0, segment1, keys);
            let shared = point_eq(segment0.a, segment1.a) || point_eq(segment0.a, segment1.b)
                || point_eq(segment0.b, segment1.a) || point_eq(segment0.b, segment1.b);
            let both = (point_eq(segment0.a, segment1.a) && point_eq(segment0.b, segment1.b)) || (point_eq(
                segment0.a,
                segment1.b,
            ) && point_eq(segment0.b, segment1.a));
            &&& res is OnePointTouching ==> shared
            &&& res is TwoPointsTouching ==> both
            &&& res is OnePoint || res is TwoPoints ==> !shared
        }),
{
}

/// Intersection of two arcs.
#[derive(Clone, Copy, Debug)]
pub enum ArcArcConfig {
    NoIntersection(),
    NonCocircularOnePoint(Point),
    NonCocircularOnePointTouching(Point),
    NonCocircularTwoPoints(Point, Point),
    NonCocircularTwoPointsTouching(Point, Point),
    CocircularOnePoint0(Point),
    CocircularOnePoint1(Point),
    CocircularTwoPoints(Point, Point),
    CocircularOnePointOneArc0(Point, Arc),
    CocircularOnePointOneArc1(Point, Arc),
    CocircularOneArc0(Arc),
    CocircularOneArc1(Arc),
    CocircularOneArc2(Arc),
    CocircularOneArc3(Arc),
    CocircularOneArc4(Arc),
    CocircularTwoArcs(Arc, Arc),
}

impl ArcArcConfig {
    /// The arcs really intersect: they cross at points that are not both
    /// ends (non-cocircular one or two points, not touching), or, on the
    /// same circle, they overlap along an arc.  Cocircular arcs that meet
    /// only at points do not.
    pub open spec fn spec_really_intersecting(self) -> bool {
        ||| self is NonCocircularOnePoint
        ||| self is NonCocircularTwoPoints
        ||| self is CocircularOnePointOneArc0
        ||| self is CocircularOnePointOneArc1
        ||| self is CocircularOneArc0
        ||| self is CocircularOneArc1
        ||| self is CocircularOneArc2
        ||| self is CocircularOneArc3
        ||| self is CocircularOneArc4
        ||| self is CocircularTwoArcs
    }

    /// Whether the configuration is a real intersection (see the spec).
    pub fn really_intersecting(&self) -> (res: bool)
        ensures
            res == self.spec_really_intersecting(),
    {
        match self {
            ArcArcConfig::NoIntersection() => false,
            ArcArcConfig::NonCocircularOnePoint(_) => true,
            ArcArcConfig::NonCocircularOnePointTouching(_) => false,
            ArcArcConfig::NonCocircularTwoPoints(_, _) => true,
            ArcArcConfig::NonCocircularTwoPointsTouching(_, _) => false,
            ArcArcConfig::CocircularOnePoint0(_) | ArcArcConfig::CocircularOnePoint1(_) => false,
            ArcArcConfig::CocircularTwoPoints(_, _) => false,
            ArcArcConfig::CocircularOnePointOneArc0(_, _)
            | ArcArcConfig::CocircularOnePointOneArc1(_, _) => true,
            ArcArcConfig::CocircularOneArc0(_)
            | ArcArcConfig::CocircularOneArc1(_)
            | ArcArcConfig::CocircularOneArc2(_)
            | ArcArcConfig::CocircularOneArc3(_)
            | ArcArcConfig::CocircularOneArc4(_)
            | ArcArcConfig::CocircularTwoArcs(_, _) => true,
        }
    }
}

/// The two arcs share at least one end point.
pub open spec fn arcs_share_end(arc0: Arc, arc1: Arc) -> bool {
    point_eq(arc0.a, arc1.a) || point_eq(arc0.a, arc1.b) || point_eq(arc0.b, arc1.a) || point_eq(
        arc0.b,
        arc1.b,
    )
}

/// The two arcs have the same end points, in the same or the opposite order.
pub open spec fn arcs_share_both_ends(arc0: Arc, arc1: Arc) -> bool {
    (point_eq(arc0.a, arc1.a) && point_eq(arc0.b, arc1.b)) || (point_eq(arc0.b, arc1.a) && point_eq(
        arc0.a,
        arc1.b,
    ))
}

/// Whether two arcs share an end point.
pub fn arcs_ends_towching(arc0: &Arc, arc1: &Arc) -> (res: bool)
    ensures
        res == arcs_share_end(*arc0, *arc1),
{
    arc0.a == arc1.a || arc0.a == arc1.b || arc0.b == arc1.a || arc0.b == arc1.b
}

/// Whether two arcs have the same two end points (either order).
pub fn arcs_both_ends_towching(arc0: &Arc, arc1: &Arc) -> (res: bool)
    ensures
        res == arcs_share_both_ends(*arc0, *arc1),
{
    (arc0.a == arc1.a && arc0.b == arc1.b) || (arc0.b == arc1.a && arc0.a == arc1.b)
}

/// Intersection of two circles: none, one or two points of two different
/// circles, or the same circle twice.
#[derive(Clone, Copy, Debug)]
pub enum CircleCircleConfig {
    NoIntersection(),
    NoncocircularOnePoint(Point),
    NoncocircularTwoPoints(Point, Point),
    SameCircles(),
}

/// The arc on the circle of `arc0` from `a` to `b` (identifier 0).
pub open spec fn subarc(arc0: Arc, a: Point, b: Point) -> Arc {
    Arc { a, b, c: arc0.c, r: arc0.r, id: 0 }
}

/// `contains` answers that the point lies on the arc.
pub open spec fn on_arc<F: Fn(Arc, Point) -> bool>(contains: F, x: Arc, p: Point) -> bool {
    contains.ensures((x, p), true)
}

/// The test answers the same for the same arc and point.
pub open spec fn tests_deterministically<F: Fn(Arc, Point) -> bool>(contains: F) -> bool {
    forall|x: Arc, p: Point, r1: bool, r2: bool|
        #[trigger] contains.ensures((x, p), r1) && #[trigger] contains.ensures((x, p), r2) ==> r1
            == r2
}

/// How two counter-clockwise arcs `<A0,A1>` (`arc0`) and `<B0,B1>` (`arc1`)
/// on the same circle overlap, from which end points lie on the other arc.
pub open spec fn spec_cocircular_config<F: Fn(Arc, Point) -> bool>(
    arc0: Arc,
    arc1: Arc,
    contains: F,
) -> ArcArcConfig {
    if on_arc(contains, arc1, arc0.a) {
        if on_arc(contains, arc1, arc0.b) {
            if on_arc(contains, arc0, arc1.a) && on_arc(contains, arc0, arc1.b) {
                if point_eq(arc0.a, arc1.a) && point_eq(arc0.b, arc1.b) {
                    // the same arc
                    ArcArcConfig::CocircularOneArc0(arc0)
                } else if !point_eq(arc0.a, arc1.b) {
                    if !point_eq(arc1.a, arc0.b) {
                        // two disjoint subarcs <A0,B1> and <B0,A1>
                        ArcArcConfig::CocircularTwoArcs(
                            subarc(arc0, arc0.a, arc1.b),
                            subarc(arc0, arc1.a, arc0.b),
                        )
                    } else {
                        // B0 = A1: the point A1 and the arc <A0,B1>
                        ArcArcConfig::CocircularOnePointOneArc0(arc0.b, subarc(arc0, arc0.a, arc1.b))
                    }
                } else if !point_eq(arc1.a, arc0.b) {
                    // A0 = B1: the point A0 and the arc <B0,A1>
                    ArcArcConfig::CocircularOnePointOneArc1(arc0.a, subarc(arc0, arc1.a, arc0.b))
                } else {
                    // shared end points: together they make the circle
                    ArcArcConfig::CocircularTwoPoints(arc0.a, arc0.b)
                }
            } else {
                // arc0 inside arc1
                ArcArcConfig::CocircularOneArc1(arc0)
            }
        } else if !point_eq(arc0.a, arc1.b) {
            // overlap <A0,B1>
            ArcArcConfig::CocircularOneArc2(subarc(arc0, arc0.a, arc1.b))
        } else {
            // only the shared end A0 = B1
            ArcArcConfig::CocircularOnePoint0(arc0.a)
        }
    } else if on_arc(contains, arc1, arc0.b) {
        if !point_eq(arc0.b, arc1.a) {
            // overlap <B0,A1>
            ArcArcConfig::CocircularOneArc3(subarc(arc0, arc1.a, arc0.b))
        } else {
            // only the shared end A1 = B0
            ArcArcConfig::CocircularOnePoint1(arc1.a)
        }
    } else if on_arc(contains, arc0, arc1.a) {
        // arc1 inside arc0
        ArcArcConfig::CocircularOneArc4(arc1)
    } else {
        ArcArcConfig::NoIntersection()
    }
}

/// The intersection of two arcs from the intersection of their circles:
/// on the same circle see `spec_cocircular_config`; otherwise a circle
/// point counts when it lies on both arcs, and the intersection is
/// touching when the arcs share an end (one point) or both ends (two
/// points).
pub open spec fn spec_arc_arc_config<F: Fn(Arc, Point) -> bool>(
    circles: CircleCircleConfig,
    arc0: Arc,
    arc1: Arc,
    contains: F,
) -> ArcArcConfig {
    match circles {
        CircleCircleConfig::NoIntersection() => ArcArcConfig::NoIntersection(),
        CircleCircleConfig::SameCircles() => spec_cocircular_config(arc0, arc1, contains),
        CircleCircleConfig::NoncocircularOnePoint(p0) => {
            if on_arc(contains, arc0, p0) && on_arc(contains, arc1, p0) {
                if arcs_share_end(arc0, arc1) {
                    ArcArcConfig::NonCocircularOnePointTouching(p0)
                } else {
                    ArcArcConfig::NonCocircularOnePoint(p0)
                }
            } else {
                ArcArcConfig::NoIntersection()
            }
        },
        CircleCircleConfig::NoncocircularTwoPoints(p0, p1) => {
            let b0 = on_arc(contains, arc0, p0) && on_arc(contains, arc1, p0);
            let b1 = on_arc(contains, arc0, p1) && on_arc(contains, arc1, p1);
            if b0 && b1 {
                if arcs_share_both_ends(arc0, arc1) {
                    ArcArcConfig::NonCocircularTwoPointsTouching(p0, p1)
                } else {
                    ArcArcConfig::NonCocircularTwoPoints(p0, p1)
                }
            } else if b0 {
                if arcs_share_end(arc0, arc1) {
                    ArcArcConfig::NonCocircularOnePointTouching(p0)
                } else {
                    ArcArcConfig::NonCocircularOnePoint(p0)
                }
            } else if b1 {
                if arcs_share_end(arc0, arc1) {
                    ArcArcConfig::NonCocircularOnePointTouching(p1)
                } else {
                    ArcArcConfig::NonCocircularOnePoint(p1)
                }
            } else {
                ArcArcConfig::NoIntersection()
            }
        },
    }
}

/// An arc met with itself on its own circle is the whole arc, when its
/// ends are numbers and the test finds both of them on the arc; such a
/// meeting counts as a real intersection.
pub proof fn lemma_arc_meets_itself<F: Fn(Arc, Point) -> bool>(x: Arc, contains: F)
    requires
        point_is_number(x.a),
        point_is_number(x.b),
        on_arc(contains, x, x.a),
        on_arc(contains, x, x.b),
    ensures
        spec_arc_arc_config(CircleCircleConfig::SameCircles(), x, x, contains)
            == ArcArcConfig::CocircularOneArc0(x),
        ArcArcConfig::CocircularOneArc0(x).spec_really_intersecting(),
{
}

/// How two arcs on one circle meet, as the answer says it: an overlap arc
/// runs on the circle of `arc0` from an end of one arc to an end of the
/// other, and each of those ends is one that the test finds on the other
/// arc; a point of contact is an end that the two arcs share; and "no
/// intersection" means that the test finds neither end of `arc0` on `arc1`
/// nor the start of `arc1` on `arc0`.
pub proof fn lemma_cocircular_meeting_is_made_of_ends<F: Fn(Arc, Point) -> bool>(
    arc0: Arc,
    arc1: Arc,
    contains: F,
)
    ensures
        ({
            let res = spec_arc_arc_config(CircleCircleConfig::SameCircles(), arc0, arc1, contains);
            let on_circle = |x: Arc| x.c == arc0.c && x.r == arc0.r;
            &&& res matches ArcArcConfig::CocircularOneArc0(x) ==> x == arc0 && point_eq(arc0.a, arc1.a)
                && point_eq(arc0.b, arc1.b) && on_arc(contains, arc1, arc0.a) && on_arc(contains, arc1, arc0.b)
            &&& res matches ArcArcConfig::CocircularOneArc1(x) ==> x == arc0 && on_arc(contains, arc1, arc0.a)
                && on_arc(contains, arc1, arc0.b)
            &&& res matches ArcArcConfig::CocircularOneArc2(x) ==> on_circle(x) && x.a == arc0.a && x.b
                == arc1.b && on_arc(contains, arc1, arc0.a) && !on_arc(contains, arc1, arc0.b)
                && !point_eq(arc0.a, arc1.b)
            &&& res matches ArcArcConfig::CocircularOneArc3(x) ==> on_circle(x) && x.a == arc1.a && x.b
                == arc0.b && !on_arc(contains, arc1, arc0.a) && on_arc(contains, arc1, arc0.b)
                && !point_eq(arc0.b, arc1.a)
            &&& res matches ArcArcConfig::CocircularOneArc4(x) ==> x == arc1 && on_arc(contains, arc0, arc1.a)
                && !on_arc(contains, arc1, arc0.a) && !on_arc(contains, arc1, arc0.b)
            &&& res matches ArcArcConfig::CocircularTwoArcs(x, y) ==> on_circle(x) && on_circle(y) && x.a
                == arc0.a && x.b == arc1.b && y.a == arc1.a && y.b == arc0.b && !point_eq(arc0.a, arc1.b)
                && !point_eq(arc1.a, arc0.b) && on_arc(contains, arc1, arc0.a) && on_arc(contains, arc1, arc0.b)
                && on_arc(contains, arc0, arc1.a) && on_arc(contains, arc0, arc1.b)
            &&& res matches ArcArcConfig::CocircularOnePointOneArc0(p, x) ==> p == arc0.b && point_eq(
                arc1.a,
                arc0.b,
            ) && !point_eq(arc0.a, arc1.b) && on_circle(x) && x.a == arc0.a && x.b == arc1.b
            &&& res matches ArcArcConfig::CocircularOnePointOneArc1(p, x) ==> p == arc0.a && point_eq(
                arc0.a,
                arc1.b,
            ) && !point_eq(arc1.a, arc0.b) && on_circle(x) && x.a == arc1.a && x.b == arc0.b
            &&& res matches ArcArcConfig::CocircularOnePoint0(p) ==> p == arc0.a && point_eq(arc0.a, arc1.b)
                && !on_arc(contains, arc1, arc0.b)
            &&& res matches ArcArcConfig::CocircularOnePoint1(p) ==> p == arc1.a && point_eq(arc0.b, arc1.a)
                && !on_arc(contains, arc1, arc0.a)
            &&& res matches ArcArcConfig::CocircularTwoPoints(p, q) ==> p == arc0.a && q == arc0.b && point_eq(
                arc0.a,
                arc1.b,
            ) && point_eq(arc0.b, arc1.a)
            &&& res is NoIntersection ==> !on_arc(contains, arc1, arc0.a) && !on_arc(contains, arc1, arc0.b)
                && !on_arc(contains, arc0, arc1.a)
            &&& !(res is NonCocircularOnePoint || res is NonCocircularOnePointTouching
                || res is NonCocircularTwoPoints || res is NonCocircularTwoPointsTouching)
        }),
{
}

/// Asks `contains` whether the point lies on the arc.
fn ask<F: Fn(Arc, Point) -> bool>(contains: &F, x: Arc, p: Point) -> (res: bool)
    requires
        forall|y: Arc, q: Point| #[trigger] contains.requires((y, q)),
        tests_deterministically(*contains),
    ensures
        res == on_arc(*contains, x, p),
{
    contains(x, p)
}

/// Classifies how two arcs on the same circle overlap (see the spec).
fn cocircular_config<F: Fn(Arc, Point) -> bool>(arc0: &Arc, arc1: &Arc, contains: &F) -> (res: ArcArcConfig)
    requires
        forall|y: Arc, q: Point| #[trigger] contains.requires((y, q)),
        tests_deterministically(*contains),
    ensures
        res == spec_cocircular_config(*arc0, *arc1, *contains),
{
    if ask(contains, *arc1, arc0.a) {
        if ask(contains, *arc1, arc0.b) {
            if ask(contains, *arc0, arc1.a) && ask(contains, *arc0, arc1.b) {
                if arc0.a == arc1.a && arc0.b == arc1.b {
                    ArcArcConfig::CocircularOneArc0(*arc0)
                } else if !(arc0.a == arc1.b) {
                    if !(arc1.a == arc0.b) {
                        ArcArcConfig::CocircularTwoArcs(
                            arc(arc0.a, arc1.b, arc0.c, arc0.r),
                            arc(arc1.a, arc0.b, arc0.c, arc0.r),
                        )
                    } else {
                        ArcArcConfig::CocircularOnePointOneArc0(arc0.b, arc(arc0.a, arc1.b, arc0.c, arc0.r))
                    }
                } else if !(arc1.a == arc0.b) {
                    ArcArcConfig::CocircularOnePointOneArc1(arc0.a, arc(arc1.a, arc0.b, arc0.c, arc0.r))
                } else {
                    ArcArcConfig::CocircularTwoPoints(arc0.a, arc0.b)
                }
            } else {
                ArcArcConfig::CocircularOneArc1(*arc0)
            }
        } else if !(arc0.a == arc1.b) {
            ArcArcConfig::CocircularOneArc2(arc(arc0.a, arc1.b, arc0.c, arc0.r))
        } else {
            ArcArcConfig::CocircularOnePoint0(arc0.a)
        }
    } else if ask(contains, *arc1, arc0.b) {
        if !(arc0.b == arc1.a) {
            ArcArcConfig::CocircularOneArc3(arc(arc1.a, arc0.b, arc0.c, arc0.r))
        } else {
            ArcArcConfig::CocircularOnePoint1(arc1.a)
        }
    } else if ask(contains, *arc0, arc1.a) {
        ArcArcConfig::CocircularOneArc4(*arc1)
    } else {
        ArcArcConfig::NoIntersection()
    }
}

/// Classifies the intersection of two arcs from the intersection of their
/// circles, asking `contains(arc, p)` whether a point lies on an arc (see
/// the spec).  New arcs of a cocircular overlap have identifier 0.
pub fn arc_arc_config<F: Fn(Arc, Point) -> bool>(
    circles: CircleCircleConfig,
    arc0: &Arc,
    arc1: &Arc,
    contains: F,
) -> (res: ArcArcConfig)
    requires
        forall|y: Arc, q: Point| #[trigger] contains.requires((y, q)),
        tests_deterministically(contains),
    ensures
        res == spec_arc_arc_config(circles, *arc0, *arc1, contains),
{
    match circles {
        CircleCircleConfig::NoIntersection() => ArcArcConfig::NoIntersection(),
        CircleCircleConfig::SameCircles() => cocircular_config(arc0, arc1, &contains),
        CircleCircleConfig::NoncocircularOnePoint(p0) => {
            if ask(&contains, *arc0, p0) && ask(&contains, *arc1, p0) {
                if arcs_ends_towching(arc0, arc1) {
                    ArcArcConfig::NonCocircularOnePointTouching(p0)
                } else {
                    ArcArcConfig::NonCocircularOnePoint(p0)
                }
            } else {
                ArcArcConfig::NoIntersection()
            }
        },
        CircleCircleConfig::NoncocircularTwoPoints(p0, p1) => {
            let b0 = ask(&contains, *arc0, p0) && ask(&contains, *arc1, p0);
            let b1 = ask(&contains, *arc0, p1) && ask(&contains, *arc1, p1);
            if b0 && b1 {
                if arcs_both_ends_towching(arc0, arc1) {
                    ArcArcConfig::NonCocircularTwoPointsTouching(p0, p1)
                } else {
                    ArcArcConfig::NonCocircularTwoPoints(p0, p1)
                }
            } else if b0 {
                if arcs_ends_towching(arc0, arc1) {
                    ArcArcConfig::NonCocircularOnePointTouching(p0)
                } else {
                    ArcArcConfig::NonCocircularOnePoint(p0)
                }
            } else if b1 {
                if arcs_ends_towching(arc0, arc1) {
                    ArcArcConfig::NonCocircularOnePointTouching(p1)
                } else {
                    ArcArcConfig::NonCocircularOnePoint(p1)
                }
            } else {
                ArcArcConfig::NoIntersection()
            }
        },
    }
}

/// Two points of two different circles that lie on both arcs: the arcs only
/// touch there when they have the same two end points (`arc0.a = arc1.a` and
/// `arc0.b = arc1.b`, or crosswise).  Arcs that share one end point, or
/// none, cross at the other point, which is a real intersection.
pub proof fn lemma_arc_arc_two_points_on_both<F: Fn(Arc, Point) -> bool>(
    p0: Point,
    p1: Point,
    arc0: Arc,
    arc1: Arc,
    contains: F,
)
    requires
        on_arc(contains, arc0, p0),
        on_arc(contains, arc1, p0),
        on_arc(contains, arc0, p1),
        on_arc(contains, arc1, p1),
    ensures
        ({
            let res = spec_arc_arc_config(
                CircleCircleConfig::NoncocircularTwoPoints(p0, p1),
                arc0,
                arc1,
                contains,
            );
            let both = (point_eq(arc0.a, arc1.a) && point_eq(arc0.b, arc1.b)) || (point_eq(
                arc0.a,
                arc1.b,
            ) && point_eq(arc0.b, arc1.a));
            &&& both ==> res == ArcArcConfig::NonCocircularTwoPointsTouching(p0, p1)
                && !res.spec_really_intersecting()
            &&& !both ==> res == ArcArcConfig::NonCocircularTwoPoints(p0, p1)
                && res.spec_really_intersecting()
        }),
{
}

/// Where two arcs on different circles meet, each point reported is a point
/// of both circles that lies on both arcs; a single point is touching
/// exactly when the arcs share an end point, two points exactly when they
/// share both.  A circle point on both arcs is never lost: the answer is then
/// not "no intersection".
pub proof fn lemma_arc_arc_reports_common_points<F: Fn(Arc, Point) -> bool>(
    circles: CircleCircleConfig,
    arc0: Arc,
    arc1: Arc,
    contains: F,
)
    requires
        !(circles is SameCircles),
    ensures
        ({
            let res = spec_arc_arc_config(circles, arc0, arc1, contains);
            let one = point_eq(arc0.a, arc1.a) || point_eq(arc0.a, arc1.b) || point_eq(arc0.b, arc1.a)
                || point_eq(arc0.b, arc1.b);
            let both = (point_eq(arc0.a, arc1.a) && point_eq(arc0.b, arc1.b)) || (point_eq(
                arc0.a,
                arc1.b,
            ) && point_eq(arc0.b, arc1.a));
            &&& res matches ArcArcConfig::NonCocircularOnePoint(q) ==> on_arc(contains, arc0, q)
                && on_arc(contains, arc1, q) && !one && (circles
                == CircleCircleConfig::NoncocircularOnePoint(q) || (circles matches CircleCircleConfig::NoncocircularTwoPoints(
                c0,
                c1,
            ) && (q == c0 || q == c1)))
            &&& res matches ArcArcConfig::NonCocircularOnePointTouching(q) ==> on_arc(contains, arc0, q)
                && on_arc(contains, arc1, q) && one && (circles
                == CircleCircleConfig::NoncocircularOnePoint(q) || (circles matches CircleCircleConfig::NoncocircularTwoPoints(
                c0,
                c1,
            ) && (q == c0 || q == c1)))
            &&& res matches ArcArcConfig::NonCocircularTwoPoints(q0, q1) ==> circles
                == CircleCircleConfig::NoncocircularTwoPoints(q0, q1) && on_arc(contains, arc0, q0)
                && on_arc(contains, arc1, q0) && on_arc(contains, arc0, q1) && on_arc(contains, arc1, q1)
                && !both
            &&& res matches ArcArcConfig::NonCocircularTwoPointsTouching(q0, q1) ==> circles
                == CircleCircleConfig::NoncocircularTwoPoints(q0, q1) && on_arc(contains, arc0, q0)
                && on_arc(contains, arc1, q0) && on_arc(contains, arc0, q1) && on_arc(contains, arc1, q1)
                && both
            &&& res is NoIntersection || res is NonCocircularOnePoint || res is NonCocircularOnePointTouching
                || res is NonCocircularTwoPoints || res is NonCocircularTwoPointsTouching
            &&& circles matches CircleCircleConfig::NoncocircularOnePoint(c0) ==> (on_arc(contains, arc0, c0)
                && on_arc(contains, arc1, c0) <==> !(res is NoIntersection))
            &&& circles matches CircleCircleConfig::NoncocircularTwoPoints(c0, c1) ==> ((on_arc(contains, arc0, c0)
                && on_arc(contains, arc1, c0)) || (on_arc(contains, arc0, c1) && on_arc(contains, arc1, c1))
                <==> !(res is NoIntersection))
        }),
{
}

/// Intersection of a segment and a circle: the points and their parameters
/// along the segment.
#[derive(Clone, Copy, Debug)]
pub enum SegmentCircleConfig {
    NoIntersection(),
    OnePoint(Point, Binary64),
    TwoPoints(Point, Point, Binary64, Binary64),
}

/// Intersection of a line and a circle: the points and their parameters
/// along the line.
#[derive(Clone, Copy, Debug)]
pub enum LineCircleConfig {
    NoIntersection(),
    OnePoint(Point, Binary64),
    TwoPoints(Point, Point, Binary64, Binary64),
}

/// The parameter lies in `[-extent, extent]` (IEEE comparisons).
pub open spec fn within_extent(t: Binary64, extent: Binary64) -> bool {
    ieee_le(extent.spec_neg(), t) && ieee_le(t, extent)
}

/// The intersection of a segment, given by its center, unit direction and
/// half length `extent`, with a circle: the points of the intersection of
/// its line with the circle whose parameters lie within `[-extent,
/// extent]`, in order.
pub open spec fn spec_segment_circle_config(line: LineCircleConfig, extent: Binary64) -> SegmentCircleConfig {
    match line {
        LineCircleConfig::NoIntersection() => SegmentCircleConfig::NoIntersection(),
        LineCircleConfig::OnePoint(p0, t0) => {
            if within_extent(t0, extent) {
                SegmentCircleConfig::OnePoint(p0, t0)
            } else {
                SegmentCircleConfig::NoIntersection()
            }
        },
        LineCircleConfig::TwoPoints(p0, p1, t0, t1) => {
            let b0 = within_extent(t0, extent);
            let b1 = within_extent(t1, extent);
            if b0 && b1 {
                SegmentCircleConfig::TwoPoints(p0, p1, t0, t1)
            } else if b0 {
                SegmentCircleConfig::OnePoint(p0, t0)
            } else if b1 {
                SegmentCircleConfig::OnePoint(p1, t1)
            } else {
                SegmentCircleConfig::NoIntersection()
            }
        },
    }
}

/// Whether the parameter lies in `[-extent, extent]`.
fn is_within_extent(t: Binary64, extent: Binary64) -> (res: bool)
    ensures
        res == within_extent(t, extent),
{
    extent.neg().le(t) && t.le(extent)
}

/// Keeps the points of a line-circle intersection that lie on the segment
/// (see the spec).
pub fn segment_circle_config(line: LineCircleConfig, extent: Binary64) -> (res: SegmentCircleConfig)
    ensures
        res == spec_segment_circle_config(line, extent),
{
    match line {
        LineCircleConfig::NoIntersection() => SegmentCircleConfig::NoIntersection(),
        LineCircleConfig::OnePoint(p0, t0) => {
            if is_within_extent(t0, extent) {
                SegmentCircleConfig::OnePoint(p0, t0)
            } else {
                SegmentCircleConfig::NoIntersection()
            }
        },
        LineCircleConfig::TwoPoints(p0, p1, t0, t1) => {
            let b0 = is_within_extent(t0, extent);
            let b1 = is_within_extent(t1, extent);
            if b0 && b1 {
                SegmentCircleConfig::TwoPoints(p0, p1, t0, t1)
            } else if b0 {
                SegmentCircleConfig::OnePoint(p0, t0)
            } else if b1 {
                SegmentCircleConfig::OnePoint(p1, t1)
            } else {
                SegmentCircleConfig::NoIntersection()
            }
        },
    }
}

/// Each point that the segment keeps is a point of the line and the circle
/// whose parameter lies in `[-extent, extent]`, with that parameter; each
/// such point is kept, in the order of the line-circle intersection.  (In
/// particular, when only the first of two points lies on the segment, the
/// answer is that first point.)
pub proof fn lemma_segment_circle_keeps_points_within(line: LineCircleConfig, extent: Binary64)
    ensures
        ({
            let res = spec_segment_circle_config(line, extent);
            &&& res matches SegmentCircleConfig::OnePoint(q, t) ==> ieee_le(extent.spec_neg(), t)
                && ieee_le(t, extent) && (line == LineCircleConfig::OnePoint(q, t) || (line matches LineCircleConfig::TwoPoints(
                p0,
                p1,
                t0,
                t1,
            ) && ((q == p0 && t == t0 && !(ieee_le(extent.spec_neg(), t1) && ieee_le(t1, extent)))
                || (q == p1 && t == t1 && !(ieee_le(extent.spec_neg(), t0) && ieee_le(t0, extent))))))
            &&& res matches SegmentCircleConfig::TwoPoints(q0, q1, u0, u1) ==> line
                == LineCircleConfig::TwoPoints(q0, q1, u0, u1) && ieee_le(extent.spec_neg(), u0) && ieee_le(
                u0,
                extent,
            ) && ieee_le(extent.spec_neg(), u1) && ieee_le(u1, extent)
            &&& res is NoIntersection ==> (line is NoIntersection || (line matches LineCircleConfig::OnePoint(
                _,
                t0,
            ) && !(ieee_le(extent.spec_neg(), t0) && ieee_le(t0, extent))) || (line matches LineCircleConfig::TwoPoints(
                _,
                _,
                t0,
                t1,
            ) && !(ieee_le(extent.spec_neg(), t0) && ieee_le(t0, extent)) && !(ieee_le(
                extent.spec_neg(),
                t1,
            ) && ieee_le(t1, extent))))
        }),
{
}

/// Intersection of a line and an arc: the points and their parameters
/// along the line.
#[derive(Clone, Copy, Debug)]
pub enum LineArcConfig {
    NoIntersection(),
    OnePoint(Point, Binary64),
    TwoPoints(Point, Point, Binary64, Binary64),
}

/// The intersection of a line and an arc from the intersection of the line
/// with the arc's circle: the circle points that lie on the arc (`on_arc0`
/// for the first, `on_arc1` for the second; for a single point only
/// `on_arc0` is read), in order.
pub open spec fn spec_line_arc_config(circle: LineCircleConfig, on_arc0: bool, on_arc1: bool) -> LineArcConfig {
    match circle {
        LineCircleConfig::NoIntersection() => LineArcConfig::NoIntersection(),
        LineCircleConfig::OnePoint(p0, t0) => {
            if on_arc0 {
                LineArcConfig::OnePoint(p0, t0)
            } else {
                LineArcConfig::NoIntersection()
            }
        },
        LineCircleConfig::TwoPoints(p0, p1, t0, t1) => {
            if on_arc0 && on_arc1 {
                LineArcConfig::TwoPoints(p0, p1, t0, t1)
            } else if on_arc0 {
                LineArcConfig::OnePoint(p0, t0)
            } else if on_arc1 {
                LineArcConfig::OnePoint(p1, t1)
            } else {
                LineArcConfig::NoIntersection()
            }
        },
    }
}

/// Keeps the points of a line-circle intersection that lie on the arc (see
/// the spec).
pub fn line_arc_config(circle: LineCircleConfig, on_arc0: bool, on_arc1: bool) -> (res: LineArcConfig)
    ensures
        res == spec_line_arc_config(circle, on_arc0, on_arc1),
{
    match circle {
        LineCircleConfig::NoIntersection() => LineArcConfig::NoIntersection(),
        LineCircleConfig::OnePoint(p0, t0) => {
            if on_arc0 {
                LineArcConfig::OnePoint(p0, t0)
            } else {
                LineArcConfig::NoIntersection()
            }
        },
        LineCircleConfig::TwoPoints(p0, p1, t0, t1) => {
            if on_arc0 && on_arc1 {
                LineArcConfig::TwoPoints(p0, p1, t0, t1)
            } else if on_arc0 {
                LineArcConfig::OnePoint(p0, t0)
            } else if on_arc1 {
                LineArcConfig::OnePoint(p1, t1)
            } else {
                LineArcConfig::NoIntersection()
            }
        },
    }
}

/// Each point that the arc keeps is a point of the line and the circle that
/// is flagged as lying on the arc, with its parameter; each such point is
/// kept, in the order of the line-circle intersection.
pub proof fn lemma_line_arc_keeps_points_on_arc(circle: LineCircleConfig, on_arc0: bool, on_arc1: bool)
    ensures
        ({
            let res = spec_line_arc_config(circle, on_arc0, on_arc1);
            &&& res matches LineArcConfig::OnePoint(q, t) ==> (on_arc0 && circle
                == LineCircleConfig::OnePoint(q, t)) || (circle matches LineCircleConfig::TwoPoints(
                p0,
                p1,
                t0,
                t1,
            ) && ((q == p0 && t == t0 && on_arc0 && !on_arc1) || (q == p1 && t == t1 && on_arc1
                && !on_arc0)))
            &&& res matches LineArcConfig::TwoPoints(q0, q1, u0, u1) ==> on_arc0 && on_arc1 && circle
                == LineCircleConfig::TwoPoints(q0, q1, u0, u1)
            &&& res is NoIntersection ==> circle is NoIntersection || !on_arc0 && (circle is OnePoint
                || !on_arc1)
        }),
{
}

/// Intersection of a segment and an arc: the points with their parameters
/// along the segment, "touching" when they share end points.
#[derive(Clone, Copy, Debug)]
pub enum SegmentArcConfig {
    NoIntersection(),
    OnePoint(Point, Binary64),
    OnePointTouching(Point, Binary64),
    TwoPoints(Point, Point, Binary64, Binary64),
    TwoPointsTouching(Point, Point, Binary64, Binary64),
}

impl SegmentArcConfig {
    /// The segment and the arc cross other than at shared ends: one point
    /// or two points, not touching.
    pub fn really_intersecting(&self) -> (res: bool)
        ensures
            res == (self is OnePoint || self is TwoPoints),
    {
        match self {
            SegmentArcConfig::NoIntersection() => false,
            SegmentArcConfig::OnePoint(_, _) => true,
            SegmentArcConfig::OnePointTouching(_, _) => false,
            SegmentArcConfig::TwoPoints(_, _, _, _) => true,
            SegmentArcConfig::TwoPointsTouching(_, _, _, _) => false,
        }
    }
}

/// The arc and the segment share at least one end point.
pub open spec fn arc_segment_share_end(arc: Arc, segment: Segment) -> bool {
    point_eq(arc.a, segment.a) || point_eq(arc.a, segment.b) || point_eq(arc.b, segment.a)
        || point_eq(arc.b, segment.b)
}

/// The arc and the segment have the same end points, in either order.
pub open spec fn arc_segment_share_both_ends(arc: Arc, segment: Segment) -> bool {
    (point_eq(arc.a, segment.a) && point_eq(arc.b, segment.b)) || (point_eq(arc.b, segment.a)
        && point_eq(arc.a, segment.b))
}

/// Whether an arc and a segment share an end point.
pub fn arc_segment_ends_towching(arc: &Arc, segment: &Segment) -> (res: bool)
    ensures
        res == arc_segment_share_end(*arc, *segment),
{
    arc.a == segment.a || arc.a == segment.b || arc.b == segment.a || arc.b == segment.b
}

/// Whether an arc and a segment have the same two end points.
pub fn arc_segment_both_ends_towching(arc: &Arc, segment: &Segment) -> (res: bool)
    ensures
        res == arc_segment_share_both_ends(*arc, *segment),
{
    (arc.a == segment.a && arc.b == segment.b) || (arc.b == segment.a && arc.a == segment.b)
}

/// The intersection of a segment and an arc, from the intersection of the
/// segment with the arc's circle.  `on_arc0` and `on_arc1` tell whether the
/// first and the second circle point lie on the arc (for a single point only
/// `on_arc0` is read).  A point off the arc is dropped; the intersection is
/// touching when the two ends coincide (two points) or when one end is
/// shared (one point).
pub open spec fn spec_segment_arc_config(
    circle: SegmentCircleConfig,
    on_arc0: bool,
    on_arc1: bool,
    segment: Segment,
    arc: Arc,
) -> SegmentArcConfig {
    let touching = arc_segment_share_end(arc, segment);
    match circle {
        SegmentCircleConfig::NoIntersection() => SegmentArcConfig::NoIntersection(),
        SegmentCircleConfig::OnePoint(p0, t0) => {
            if !on_arc0 {
                SegmentArcConfig::NoIntersection()
            } else if touching {
                SegmentArcConfig::OnePointTouching(p0, t0)
            } else {
                SegmentArcConfig::OnePoint(p0, t0)
            }
        },
        SegmentCircleConfig::TwoPoints(p0, p1, t0, t1) => {
            if on_arc0 && on_arc1 {
                if arc_segment_share_both_ends(arc, segment) {
                    SegmentArcConfig::TwoPointsTouching(p0, p1, t0, t1)
                } else {
                    SegmentArcConfig::TwoPoints(p0, p1, t0, t1)
                }
            } else if on_arc0 {
                if touching {
                    SegmentArcConfig::OnePointTouching(p0, t0)
                } else {
                    SegmentArcConfig::OnePoint(p0, t0)
                }
            } else if on_arc1 {
                if touching {
                    SegmentArcConfig::OnePointTouching(p1, t1)
                } else {
                    SegmentArcConfig::OnePoint(p1, t1)
                }
            } else {
                SegmentArcConfig::NoIntersection()
            }
        },
    }
}

/// Classifies the intersection of a segment and an arc from the
/// intersection of the segment with the arc's circle (see the spec).
pub fn segment_arc_config(
    circle: SegmentCircleConfig,
    on_arc0: bool,
    on_arc1: bool,
    segment: &Segment,
    arc: &Arc,
) -> (res: SegmentArcConfig)
    ensures
        res == spec_segment_arc_config(circle, on_arc0, on_arc1, *segment, *arc),
{
    match circle {
        SegmentCircleConfig::NoIntersection() => SegmentArcConfig::NoIntersection(),
        SegmentCircleConfig::OnePoint(p0, t0) => {
            if on_arc0 {
                if arc_segment_ends_towching(arc, segment) {
                    SegmentArcConfig::OnePointTouching(p0, t0)
                } else {
                    SegmentArcConfig::OnePoint(p0, t0)
                }
            } else {
                SegmentArcConfig::NoIntersection()
            }
        },
        SegmentCircleConfig::TwoPoints(p0, p1, t0, t1) => {
            if on_arc0 && on_arc1 {
                if arc_segment_both_ends_towching(arc, segment) {
                    return SegmentArcConfig::TwoPointsTouching(p0, p1, t0, t1);
                } else {
                    return SegmentArcConfig::TwoPoints(p0, p1, t0, t1);
                }
            }
            if on_arc0 {
                if arc_segment_ends_towching(arc, segment) {
                    return SegmentArcConfig::OnePointTouching(p0, t0);
                } else {
                    return SegmentArcConfig::OnePoint(p0, t0);
                }
            }
            if on_arc1 {
                if arc_segment_ends_towching(arc, segment) {
                    return SegmentArcConfig::OnePointTouching(p1, t1);
                } else {
                    return SegmentArcConfig::OnePoint(p1, t1);
                }
            }
            SegmentArcConfig::NoIntersection()
        },
    }
}


/// When both points where the segment meets the arc's circle lie on the
/// arc, the segment and the arc only touch there when they have the same
/// two end points (in either order); a segment that shares one end with
/// the arc, or none, crosses it and the answer is the two points.
pub proof fn lemma_segment_arc_two_points_on_arc(
    p0: Point,
    p1: Point,
    t0: Binary64,
    t1: Binary64,
    segment: Segment,
    arc: Arc,
)
    ensures
        ({
            let res = spec_segment_arc_config(
                SegmentCircleConfig::TwoPoints(p0, p1, t0, t1),
                true,
                true,
                segment,
                arc,
            );
            let both = (point_eq(arc.a, segment.a) && point_eq(arc.b, segment.b)) || (point_eq(
                arc.a,
                segment.b,
            ) && point_eq(arc.b, segment.a));
            &&& both ==> res == SegmentArcConfig::TwoPointsTouching(p0, p1, t0, t1)
            &&& !both ==> res == SegmentArcConfig::TwoPoints(p0, p1, t0, t1)
        }),
{
}

/// Each point reported for a segment and an arc is a point of the segment
/// and the circle that is flagged as lying on the arc, with its parameter;
/// a single point is touching exactly when the arc and the segment share an
/// end point, two points exactly when they share both.  A point on the arc
/// is never lost.
pub proof fn lemma_segment_arc_reports_points_on_arc(
    circle: SegmentCircleConfig,
    on_arc0: bool,
    on_arc1: bool,
    segment: Segment,
    arc: Arc,
)
    ensures
        ({
            let res = spec_segment_arc_config(circle, on_arc0, on_arc1, segment, arc);
            let one = point_eq(arc.a, segment.a) || point_eq(arc.a, segment.b) || point_eq(arc.b, segment.a)
                || point_eq(arc.b, segment.b);
            let both = (point_eq(arc.a, segment.a) && point_eq(arc.b, segment.b)) || (point_eq(
                arc.a,
                segment.b,
            ) && point_eq(arc.b, segment.a));
            let single = |q: Point, t: Binary64|
                (on_arc0 && circle == SegmentCircleConfig::OnePoint(q, t)) || (circle matches SegmentCircleConfig::TwoPoints(
                    c0,
                    c1,
                    u0,
                    u1,
                ) && ((q == c0 && t == u0 && on_arc0 && !on_arc1) || (q == c1 && t == u1 && on_arc1
                    && !on_arc0)));
            &&& res matches SegmentArcConfig::OnePoint(q, t) ==> single(q, t) && !one
            &&& res matches SegmentArcConfig::OnePointTouching(q, t) ==> single(q, t) && one
            &&& res matches SegmentArcConfig::TwoPoints(q0, q1, u0, u1) ==> on_arc0 && on_arc1 && circle
                == SegmentCircleConfig::TwoPoints(q0, q1, u0, u1) && !both
            &&& res matches SegmentArcConfig::TwoPointsTouching(q0, q1, u0, u1) ==> on_arc0 && on_arc1
                && circle == SegmentCircleConfig::TwoPoints(q0, q1, u0, u1) && both
            &&& res is NoIntersection ==> circle is NoIntersection || !on_arc0 && (circle is OnePoint
                || !on_arc1)
        }),
{
}

} // verus!
