//! Verified core of a 2D geometry library for arcs, segments and polylines.
//!
//! Coordinates are IEEE-754 binary64 numbers, held here as their encodings
//! (see [`binary64`]).  The library states and proves the parts of the
//! geometry code that move, compare and select such numbers.
pub mod binary64;

pub use binary64::Binary64;
pub mod constants;
pub mod point;
pub mod point_order;
pub mod segment;
pub mod line;
pub mod rect;
pub mod polyline;
pub mod arc;
pub mod validation;
pub mod intersection;
pub mod hull;
pub mod arc_hull;
pub mod bounding;
pub mod distance;
pub mod self_intersect;
pub mod offset_raw;
