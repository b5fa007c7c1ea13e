//! The partial order of points: lexicographic, by x and then by y, each
//! coordinate compared as an IEEE number (so a NaN coordinate leaves two
//! points unordered, and -0 equals +0).
use vstd::prelude::*;
use std::cmp::Ordering;
use vstd::std_specs::cmp::PartialOrdSpecImpl;
use crate::binary64::{Binary64, ieee_eq, ieee_lt};
use crate::point::{Point, point_eq};

verus! {

/// The IEEE comparison of two numbers: none when either is NaN.
pub open spec fn number_order(a: Binary64, b: Binary64) -> Option<Ordering> {
    if a.spec_is_nan() || b.spec_is_nan() {
        None
    } else if ieee_lt(a, b) {
        Some(Ordering::Less)
    } else if ieee_eq(a, b) {
        Some(Ordering::Equal)
    } else {
        Some(Ordering::Greater)
    }
}

/// Compares two numbers (see the spec).
pub fn compare_numbers(a: Binary64, b: Binary64) -> (res: Option<Ordering>)
    ensures
        res == number_order(a, b),
{
    if a.is_nan() || b.is_nan() {
        None
    } else if a.lt(b) {
        Some(Ordering::Less)
    } else if a.ieee_equal(b) {
        Some(Ordering::Equal)
    } else {
        Some(Ordering::Greater)
    }
}

/// The order of two points: by x, and by y when the x are equal.
pub open spec fn point_order(p: Point, q: Point) -> Option<Ordering> {
    match number_order(p.x, q.x) {
        Some(Ordering::Equal) => number_order(p.y, q.y),
        r => r,
    }
}

impl PartialOrd for Point {
    fn partial_cmp(&self, other: &Point) -> (res: Option<Ordering>) {
        match compare_numbers(self.x, other.x) {
            Some(Ordering::Equal) => compare_numbers(self.y, other.y),
            r => r,
        }
    }
}

impl PartialOrdSpecImpl for Point {
    open spec fn obeys_partial_cmp_spec() -> bool {
        true
    }

    open spec fn partial_cmp_spec(&self, other: &Point) -> Option<Ordering> {
        point_order(*self, *other)
    }
}

/// The order agrees with point equality and is a strict order: two points
/// compare equal exactly when they are equal, `p < q` exactly when
/// `q > p`, and `<` is transitive.
pub proof fn lemma_point_order_properties(p: Point, q: Point, r: Point)
    ensures
        (point_order(p, q) == Some(Ordering::Equal)) == point_eq(p, q),
        (point_order(p, q) == Some(Ordering::Less)) == (point_order(q, p) == Some(
            Ordering::Greater,
        )),
        point_order(p, q) == Some(Ordering::Less) && point_order(q, r) == Some(Ordering::Less)
            ==> point_order(p, r) == Some(Ordering::Less),
{
}

} // verus!
