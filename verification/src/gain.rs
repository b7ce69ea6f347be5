//! Volume as a scalar multiplier on sample amplitude.

use vstd::prelude::*;

verus! {

/// The bits of the IEEE 754 single-precision number 1.0.
pub const UNITY_BITS: u32 = 0x3F80_0000;

/// A multiplier applied to every sample, held as the bits of an IEEE 754
/// single-precision number.
///
/// The number 1.0 has exactly one bit pattern, [`UNITY_BITS`], so a gain
/// compares equal to 1.0 exactly when its bits are those.
#[derive(Clone, Copy, Debug, PartialEq, Eq, Structural)]
pub struct Gain {
    pub bits: u32,
}

impl Gain {
    /// The gain whose single-precision bits are `bits`.
    pub fn from_bits(bits: u32) -> (r: Gain)
        ensures
            r.bits == bits,
    {
        Gain { bits }
    }

    /// The gain that leaves every sample as it is.
    pub fn unity() -> (r: Gain)
        ensures
            r.bits == UNITY_BITS,
    {
        Gain { bits: UNITY_BITS }
    }

    /// The single-precision bits of the gain.
    pub fn to_bits(&self) -> (r: u32)
        ensures
            r == self.bits,
    {
        self.bits
    }

    /// Whether the gain is exactly 1.0.
    pub fn is_unity(&self) -> (r: bool)
        ensures
            r == (self.bits == UNITY_BITS),
    {
        self.bits == UNITY_BITS
    }
}

} // verus!
