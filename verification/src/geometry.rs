//! Coordinates as IEEE-754 binary64 bit patterns.
//!
//! The kernel never does numeric work on coordinates; it only needs to state
//! exact facts about them: that they are finite, that two of them are equal,
//! that a returned point is exactly the stored destination. Carrying each
//! coordinate as the bit pattern of a binary64 number makes those facts
//! plain `u64` propositions that the verifier can settle.

use vstd::prelude::*;

verus! {

/// True when the bit pattern encodes a finite number: the 11-bit exponent
/// field is not all ones (all ones encodes an infinity or a NaN).
pub open spec fn finite_bits(b: u64) -> bool {
    (b >> 52) & 0x7ff != 0x7ff
}

/// True when the bit pattern encodes a zero of either sign.
pub open spec fn zero_bits(b: u64) -> bool {
    b == 0u64 || b == 0x8000_0000_0000_0000u64
}

/// IEEE-754 equality, restricted to finite values: the bit patterns are
/// identical, or both encode a zero (positive and negative zero compare
/// equal). On finite values this is exactly the `==` of the numbers.
pub open spec fn coord_eq(a: u64, b: u64) -> bool {
    a == b || (zero_bits(a) && zero_bits(b))
}

/// Executable finiteness test on one coordinate.
pub fn is_finite_coord(b: u64) -> (r: bool)
    ensures
        r == finite_bits(b),
{
    (b >> 52) & 0x7ff != 0x7ff
}

/// Executable equality test on two coordinates, with the IEEE-754 treatment
/// of signed zeros.
pub fn coords_equal(a: u64, b: u64) -> (r: bool)
    ensures
        r == coord_eq(a, b),
{
    a == b || ((a == 0 || a == 0x8000_0000_0000_0000) && (b == 0 || b == 0x8000_0000_0000_0000))
}

/// A point in the horizontal plane, one binary64 bit pattern per coordinate.
#[derive(Copy, Clone, PartialEq, Eq, Structural, Debug)]
pub struct Point2 {
    pub x: u64,
    pub y: u64,
}

impl Point2 {
    /// All coordinates finite.
    pub open spec fn finite(self) -> bool {
        finite_bits(self.x) && finite_bits(self.y)
    }
}

/// A point in space, one binary64 bit pattern per coordinate.
#[derive(Copy, Clone, PartialEq, Eq, Structural, Debug)]
pub struct Point3 {
    pub x: u64,
    pub y: u64,
    pub z: u64,
}

impl Point3 {
    /// All coordinates finite.
    pub open spec fn finite(self) -> bool {
        finite_bits(self.x) && finite_bits(self.y) && finite_bits(self.z)
    }

    /// Executable finiteness test on all three coordinates.
    pub fn is_finite(&self) -> (r: bool)
        ensures
            r == self.finite(),
    {
        is_finite_coord(self.x) && is_finite_coord(self.y) && is_finite_coord(self.z)
    }
}

} // verus!
