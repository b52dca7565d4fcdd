//! Numbers that the library carries but never computes on.

use vstd::prelude::*;

verus! {

/// The bit pattern of the double-precision number 0.0.
pub const ZERO_BITS: u64 = 0x0000_0000_0000_0000;

/// The bit pattern of the double-precision number 1.0.
pub const ONE_BITS: u64 = 0x3FF0_0000_0000_0000;

/// The bit pattern of the double-precision number nearest to 0.2.
pub const ONE_FIFTH_BITS: u64 = 0x3FC9_9999_9999_999A;

/// The bit pattern of the double-precision number nearest to 0.7.
pub const SEVEN_TENTHS_BITS: u64 = 0x3FE6_6666_6666_6666;

/// A double-precision number, held by its IEEE 754 bit pattern. Two values
/// are equal when their bits are.
#[derive(Debug, Clone, Copy, PartialEq, Eq, Structural)]
pub struct Float64 {
    pub bits: u64,
}

impl Float64 {
    /// The number with the given bit pattern.
    pub fn from_bits(bits: u64) -> (x: Float64)
        ensures
            x.bits == bits,
    {
        Float64 { bits }
    }

    /// The bit pattern of this number.
    pub fn to_bits(&self) -> (bits: u64)
        ensures
            bits == self.bits,
    {
        self.bits
    }

    /// The number 0.0.
    pub fn zero() -> (x: Float64)
        ensures
            x.bits == ZERO_BITS,
    {
        Float64 { bits: ZERO_BITS }
    }

    /// The number 1.0.
    pub fn one() -> (x: Float64)
        ensures
            x.bits == ONE_BITS,
    {
        Float64 { bits: ONE_BITS }
    }
}

} // verus!
