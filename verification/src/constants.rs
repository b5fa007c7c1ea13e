//! Epsilon and tolerance constants shared by the geometric algorithms.
//!
//! Each constant is the encoding of a binary64 number (see
//! [`crate::binary64`]).
//!
//! - `DIVISION_EPSILON` (1e-12) guards near-zero denominators in degenerate
//!   geometry.
//! - `GEOMETRIC_EPSILON` (1e-10) is the threshold for geometric predicates
//!   and tolerance tests; the collinearity, circle and point tolerances are
//!   the same number.
use vstd::prelude::*;
use crate::binary64::{encoded, ieee_eq, ieee_lt};

verus! {

/// Geometric epsilon (1e-10): tolerance of geometric predicates and
/// comparisons, larger than machine epsilon to absorb accumulated rounding.
pub const GEOMETRIC_EPSILON: u64 = 0x3ddb_7cdf_d9d7_bdbb;

/// Epsilon guarding divisions (1e-12), below `GEOMETRIC_EPSILON`.
pub const DIVISION_EPSILON: u64 = 0x3d71_9799_812d_ea11;

/// Tolerance for collinearity detection (equal to `GEOMETRIC_EPSILON`).
pub const COLLINEARITY_TOLERANCE: u64 = GEOMETRIC_EPSILON;

/// Tolerance for nearly identical circles (equal to `GEOMETRIC_EPSILON`).
pub const CIRCLE_TOLERANCE: u64 = GEOMETRIC_EPSILON;

/// Tolerance for coincident points (equal to `GEOMETRIC_EPSILON`).
pub const POINT_TOLERANCE: u64 = GEOMETRIC_EPSILON;

/// The encoding of 1.0.
pub const ONE: u64 = 0x3ff0_0000_0000_0000;

/// The epsilon hierarchy: 0 < DIVISION_EPSILON < GEOMETRIC_EPSILON < 1, all
/// finite, and the three named tolerances are the geometric epsilon.
pub proof fn lemma_epsilon_hierarchy()
    ensures
        ieee_lt(encoded(0), encoded(DIVISION_EPSILON)),
        ieee_lt(encoded(DIVISION_EPSILON), encoded(GEOMETRIC_EPSILON)),
        ieee_lt(encoded(GEOMETRIC_EPSILON), encoded(ONE)),
        encoded(GEOMETRIC_EPSILON).spec_is_finite(),
        encoded(DIVISION_EPSILON).spec_is_finite(),
        ieee_eq(encoded(COLLINEARITY_TOLERANCE), encoded(GEOMETRIC_EPSILON)),
        ieee_eq(encoded(CIRCLE_TOLERANCE), encoded(GEOMETRIC_EPSILON)),
        ieee_eq(encoded(POINT_TOLERANCE), encoded(GEOMETRIC_EPSILON)),
{
}

} // verus!
