//! Infinite lines given by an origin and a direction.
use vstd::prelude::*;
use vstd::std_specs::cmp::PartialEqSpecImpl;
use crate::point::{Point, point_eq};

verus! {

/// A line through `origin` with direction `dir`.
#[derive(Clone, Copy, Debug)]
pub struct Line {
    pub origin: Point,
    pub dir: Point,
}

impl Line {
    /// Creates a line from an origin and a direction.
    pub fn new(origin: Point, dir: Point) -> (res: Line)
        ensures
            res.origin == origin,
            res.dir == dir,
    {
        Line { origin, dir }
    }
}

/// Creates a line from an origin and a direction (same as `Line::new`).
pub fn line(origin: Point, dir: Point) -> (res: Line)
    ensures
        res.origin == origin,
        res.dir == dir,
{
    Line::new(origin, dir)
}

impl PartialEq for Line {
    fn eq(&self, other: &Self) -> (res: bool) {
        self.origin == other.origin && self.dir == other.dir
    }
}

impl PartialEqSpecImpl for Line {
    open spec fn obeys_eq_spec() -> bool {
        true
    }

    open spec fn eq_spec(&self, other: &Self) -> bool {
        point_eq(self.origin, other.origin) && point_eq(self.dir, other.dir)
    }
}

} // verus!
