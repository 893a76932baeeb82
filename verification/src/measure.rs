//! Readings that the crate carries and never computes with.

use vstd::prelude::*;

verus! {

/// A single-precision reading (a temperature, a speed, an amount of rain, a
/// coordinate), held by the 32 bits of its IEEE 754 encoding.
///
/// The crate passes readings on unchanged. Two readings are equal where
/// their bits are, which is finer than the equality of the numbers they
/// encode.
#[derive(Clone, Copy, Debug, PartialEq, Eq, Hash, Structural)]
pub struct Measure {
    pub bits: u32,
}

impl Measure {
    /// The reading with the given encoding.
    pub fn from_bits(bits: u32) -> (r: Measure)
        ensures
            r.bits == bits,
    {
        Measure { bits }
    }

    /// The encoding of the reading.
    pub fn to_bits(&self) -> (r: u32)
        ensures
            r == self.bits,
    {
        self.bits
    }

    /// The reading of nothing: positive zero, whose encoding is all zero bits.
    pub fn zero() -> (r: Measure)
        ensures
            r.bits == 0,
    {
        Measure { bits: 0 }
    }
}

} // verus!
