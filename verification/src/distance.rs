//! Where the closest points of a segment and a circle are, decided from
//! the closest points of the segment's line and the circle.
//!
//! The line is taken as `a + t (b - a)`, so the segment is the parameter
//! range `[0, 1]`; the parameters of the line's closest points are computed
//! by the caller, the case they make is decided here (IEEE comparisons).
use vstd::prelude::*;
use crate::binary64::{Binary64, ieee_le, ieee_lt};
use crate::constants::ONE;

verus! {

/// The parameters of the closest points of a line and a circle: one pair
/// (the line misses or touches the circle) or the two crossing points, in
/// increasing order.
#[derive(Clone, Copy, Debug)]
pub enum LineCircleParameters {
    OnePair(Binary64),
    TwoPairs(Binary64, Binary64),
}

/// Where the closest points of a segment and a circle are.
#[derive(Clone, Copy, Debug, PartialEq, Eq, Structural)]
pub enum SegmentCircleCase {
    /// At the segment end nearer to the circle.
    NearerEnd,
    /// At the start of the segment.
    StartEnd,
    /// At the first crossing of the line (on the segment).
    FirstCrossing,
    /// At the second crossing of the line (on the segment).
    SecondCrossing,
    /// At both crossings of the line (both on the segment).
    BothCrossings,
    /// At the closest point of the line, which lies on the segment.
    ClosestOnLine,
}

/// The parameter is in `[0, 1]`.
pub open spec fn on_segment(t: Binary64) -> bool {
    ieee_le(Binary64 { bits: 0 }, t) && ieee_le(t, Binary64 { bits: ONE })
}

/// The parameter is below 0.
pub open spec fn before_start(t: Binary64) -> bool {
    ieee_lt(t, Binary64 { bits: 0 })
}

/// The parameter is beyond 1.
pub open spec fn past_end(t: Binary64) -> bool {
    ieee_lt(Binary64 { bits: ONE }, t)
}

/// The case of the closest points.  Two crossings: both past the end, or
/// one before the start and one past the end (the segment inside the
/// circle), give the nearer end; the crossings that fall on the segment
/// are taken when the other one is past the end or before the start (or
/// both are on it); otherwise the nearer end.  One pair: before the start,
/// the start; past the end, the nearer end; otherwise the line's closest
/// point.
pub open spec fn spec_segment_circle_case(params: LineCircleParameters) -> SegmentCircleCase {
    match params {
        LineCircleParameters::TwoPairs(t0, t1) => {
            if past_end(t0) && past_end(t1) {
                SegmentCircleCase::NearerEnd
            } else if on_segment(t0) && past_end(t1) {
                SegmentCircleCase::FirstCrossing
            } else if on_segment(t0) && on_segment(t1) {
                SegmentCircleCase::BothCrossings
            } else if before_start(t0) && past_end(t1) {
                SegmentCircleCase::NearerEnd
            } else if before_start(t0) && on_segment(t1) {
                SegmentCircleCase::SecondCrossing
            } else {
                SegmentCircleCase::NearerEnd
            }
        },
        LineCircleParameters::OnePair(t) => {
            if before_start(t) {
                SegmentCircleCase::StartEnd
            } else if past_end(t) {
                SegmentCircleCase::NearerEnd
            } else {
                SegmentCircleCase::ClosestOnLine
            }
        },
    }
}

/// Decides where the closest points of a segment and a circle are (see the
/// spec).
pub fn segment_circle_case(params: LineCircleParameters) -> (res: SegmentCircleCase)
    ensures
        res == spec_segment_circle_case(params),
{
    let zero = Binary64::zero();
    let one = Binary64::from_bits(ONE);
    match params {
        LineCircleParameters::TwoPairs(t0, t1) => {
            let on0 = zero.le(t0) && t0.le(one);
            let on1 = zero.le(t1) && t1.le(one);
            let past0 = one.lt(t0);
            let past1 = one.lt(t1);
            let before0 = t0.lt(zero);
            if past0 && past1 {
                SegmentCircleCase::NearerEnd
            } else if on0 && past1 {
                SegmentCircleCase::FirstCrossing
            } else if on0 && on1 {
                SegmentCircleCase::BothCrossings
            } else if before0 && past1 {
                SegmentCircleCase::NearerEnd
            } else if before0 && on1 {
                SegmentCircleCase::SecondCrossing
            } else {
                SegmentCircleCase::NearerEnd
            }
        },
        LineCircleParameters::OnePair(t) => {
            if t.lt(zero) {
                SegmentCircleCase::StartEnd
            } else if one.lt(t) {
                SegmentCircleCase::NearerEnd
            } else {
                SegmentCircleCase::ClosestOnLine
            }
        },
    }
}

/// Points of the line that fall on the segment are where the segment is
/// measured: two crossings both on the segment give both crossings, a
/// single closest point on the segment gives that point.
pub proof fn lemma_points_on_segment_are_taken(params: LineCircleParameters)
    ensures
        params matches LineCircleParameters::TwoPairs(t0, t1) && on_segment(t0) && on_segment(t1)
            ==> spec_segment_circle_case(params) == SegmentCircleCase::BothCrossings,
        params matches LineCircleParameters::OnePair(t) && on_segment(t) ==> spec_segment_circle_case(
            params,
        ) == SegmentCircleCase::ClosestOnLine,
{
}

/// Each case that names crossings names crossings on the segment (parameter
/// in `[0, 1]`), and the other crossing, if any, off it; the start is
/// nearest exactly for a single closest point before it; the line's closest
/// point is taken exactly when it is neither before the start nor past the
/// end.
pub proof fn lemma_segment_circle_case_is_on_segment(params: LineCircleParameters)
    ensures
        ({
            let res = spec_segment_circle_case(params);
            let zero = Binary64 { bits: 0 };
            let one = Binary64 { bits: ONE };
            &&& res == SegmentCircleCase::FirstCrossing ==> (params matches LineCircleParameters::TwoPairs(
                t0,
                t1,
            ) && ieee_le(zero, t0) && ieee_le(t0, one) && ieee_lt(one, t1))
            &&& res == SegmentCircleCase::SecondCrossing ==> (params matches LineCircleParameters::TwoPairs(
                t0,
                t1,
            ) && ieee_lt(t0, zero) && ieee_le(zero, t1) && ieee_le(t1, one))
            &&& res == SegmentCircleCase::BothCrossings <==> (params matches LineCircleParameters::TwoPairs(
                t0,
                t1,
            ) && ieee_le(zero, t0) && ieee_le(t0, one) && ieee_le(zero, t1) && ieee_le(t1, one))
            &&& res == SegmentCircleCase::StartEnd <==> (params matches LineCircleParameters::OnePair(t)
                && ieee_lt(t, zero))
            &&& res == SegmentCircleCase::ClosestOnLine <==> (params matches LineCircleParameters::OnePair(t)
                && !ieee_lt(t, zero) && !ieee_lt(one, t))
        }),
{
}

} // verus!
