//! Axis-aligned rectangles given by two corners.
use vstd::prelude::*;
use vstd::std_specs::cmp::PartialEqSpecImpl;
use crate::point::{Point, point_eq};

verus! {

/// A rectangle with corners `p1` and `p2`.
#[derive(Clone, Copy, Debug)]
pub struct Rect {
    pub p1: Point,
    pub p2: Point,
}

impl Rect {
    /// Creates a rectangle from two corners.
    pub fn new(p1: Point, p2: Point) -> (res: Rect)
        ensures
            res.p1 == p1,
            res.p2 == p2,
    {
        Rect { p1, p2 }
    }
}

/// Creates a rectangle from two corners (same as `Rect::new`).
pub fn rect(p1: Point, p2: Point) -> (res: Rect)
    ensures
        res.p1 == p1,
        res.p2 == p2,
{
    Rect::new(p1, p2)
}

impl PartialEq for Rect {
    fn eq(&self, other: &Self) -> (res: bool) {
        self.p1 == other.p1 && self.p2 == other.p2
    }
}

impl PartialEqSpecImpl for Rect {
    open spec fn obeys_eq_spec() -> bool {
        true
    }

    open spec fn eq_spec(&self, other: &Self) -> bool {
        point_eq(self.p1, other.p1) && point_eq(self.p2, other.p2)
    }
}

} // verus!
