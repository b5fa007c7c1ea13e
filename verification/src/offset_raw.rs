//! Raw offset pieces: an arc with the point and the bulge it was made from.
use vstd::prelude::*;
use vstd::std_specs::cmp::PartialEqSpecImpl;
use crate::arc::{Arc, arc_eq};
use crate::binary64::{Binary64, ieee_eq};
use crate::point::{Point, point_eq};

verus! {

/// An offset arc together with the point `orig` it was offset from and the
/// bulge `g`.
#[derive(Clone, Copy, Debug)]
pub struct OffsetRaw {
    pub arc: Arc,
    /// The point the arc was offset from.
    pub orig: Point,
    pub g: Binary64,
}

impl OffsetRaw {
    /// Creates a raw offset piece.
    pub fn new(arc: Arc, orig: Point, g: Binary64) -> (res: OffsetRaw)
        ensures
            res.arc == arc,
            res.orig == orig,
            res.g == g,
    {
        OffsetRaw { arc, orig, g }
    }
}

/// Creates a raw offset piece (same as `OffsetRaw::new`).
pub fn offsetraw(arc: Arc, orig: Point, g: Binary64) -> (res: OffsetRaw)
    ensures
        res.arc == arc,
        res.orig == orig,
        res.g == g,
{
    OffsetRaw::new(arc, orig, g)
}

impl PartialEq for OffsetRaw {
    fn eq(&self, other: &Self) -> (res: bool) {
        self.arc == other.arc && self.orig == other.orig && self.g == other.g
    }
}

impl PartialEqSpecImpl for OffsetRaw {
    open spec fn obeys_eq_spec() -> bool {
        true
    }

    open spec fn eq_spec(&self, other: &Self) -> bool {
        arc_eq(self.arc, other.arc) && point_eq(self.orig, other.orig) && ieee_eq(self.g, other.g)
    }
}

} // verus!
