//! Line segments.
use vstd::prelude::*;
use vstd::std_specs::cmp::PartialEqSpecImpl;
use crate::point::{Point, point_eq};

verus! {

/// A line segment from `a` to `b`.
#[derive(Clone, Copy, Debug)]
pub struct Segment {
    pub a: Point,
    pub b: Point,
}

impl Segment {
    /// Creates a segment from its two end points.
    pub fn new(a: Point, b: Point) -> (res: Segment)
        ensures
            res.a == a,
            res.b == b,
    {
        Segment { a, b }
    }
}

/// Creates a segment from its two end points (same as `Segment::new`).
pub fn segment(p0: Point, p1: Point) -> (res: Segment)
    ensures
        res.a == p0,
        res.b == p1,
{
    Segment::new(p0, p1)
}

impl PartialEq for Segment {
    fn eq(&self, other: &Self) -> (res: bool) {
        self.a == other.a && self.b == other.b
    }
}

impl PartialEqSpecImpl for Segment {
    open spec fn obeys_eq_spec() -> bool {
        true
    }

    open spec fn eq_spec(&self, other: &Self) -> bool {
        point_eq(self.a, other.a) && point_eq(self.b, other.b)
    }
}

} // verus!
