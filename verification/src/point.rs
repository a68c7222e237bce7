use vstd::prelude::*;

verus! {

/// The value record kept by the store: a point with two coordinates.
///
/// The coordinates travel through the store untouched, so they are carried
/// as the 64-bit patterns of the caller's double-precision numbers; callers
/// that work with numeric coordinates convert at the boundary.
#[derive(Clone, Copy, PartialEq, Eq, Structural, Debug)]
pub struct Point {
    pub x_bits: u64,
    pub y_bits: u64,
}

impl Default for Point {
    /// The origin record: both coordinate patterns zero, the pattern of 0.0.
    fn default() -> (r: Point)
        ensures
            r.x_bits == 0,
            r.y_bits == 0,
    {
        Point { x_bits: 0, y_bits: 0 }
    }
}

} // verus!
