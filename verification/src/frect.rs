//! Points with fractional coordinates, carried bit for bit.

use vstd::prelude::*;

verus! {

/// A point with fractional coordinates.
///
/// Each coordinate is carried as the bit pattern of a single-precision
/// number, so that a point passes through the event model unchanged, bit
/// for bit.
#[derive(Debug, Clone, Copy, PartialEq, Eq, Hash, Structural)]
pub struct FPoint {
    pub x_bits: u32,
    pub y_bits: u32,
}

impl FPoint {
    /// The point whose coordinates have the given bit patterns.
    pub fn from_bits(x_bits: u32, y_bits: u32) -> (p: FPoint)
        ensures
            p == (FPoint { x_bits, y_bits }),
    {
        FPoint { x_bits, y_bits }
    }

    /// The origin: both coordinates are positive zero, whose bit pattern
    /// is all zeros.
    pub fn zero() -> (p: FPoint)
        ensures
            p == (FPoint { x_bits: 0, y_bits: 0 }),
    {
        FPoint { x_bits: 0, y_bits: 0 }
    }
}

} // verus!
