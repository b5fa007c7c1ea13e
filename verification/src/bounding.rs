//! Angular ranges used by the bounding shapes of arcs.
use vstd::prelude::*;
use crate::binary64::{Binary64, ieee_le};

verus! {

/// The angle lies in the counter-clockwise range from `start` to `end`
/// (angles normalized to [0, 2π)): between them when `start <= end`,
/// otherwise from `start` up to 2π or from 0 up to `end` (the range wraps
/// around).  Comparisons are IEEE comparisons.
pub open spec fn spec_angle_in_range(angle: Binary64, start: Binary64, end: Binary64) -> bool {
    if ieee_le(start, end) {
        ieee_le(start, angle) && ieee_le(angle, end)
    } else {
        ieee_le(start, angle) || ieee_le(angle, end)
    }
}

/// Whether an angle lies in the counter-clockwise range from `start` to
/// `end` (see the spec).
pub fn angle_in_range(angle: Binary64, start: Binary64, end: Binary64) -> (res: bool)
    ensures
        res == spec_angle_in_range(angle, start, end),
{
    if start.le(end) {
        angle.ge(start) && angle.le(end)
    } else {
        angle.ge(start) || angle.le(end)
    }
}

/// Both ends of a range belong to it, whether or not it wraps around, as
/// long as neither end is NaN.
pub proof fn lemma_range_contains_its_ends(start: Binary64, end: Binary64)
    requires
        !start.spec_is_nan(),
        !end.spec_is_nan(),
    ensures
        spec_angle_in_range(start, start, end),
        spec_angle_in_range(end, start, end),
{
}

} // verus!
