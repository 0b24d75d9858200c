//! Floating-point values that the queue carries without computing with them.

use vstd::prelude::*;

verus! {

/// An IEEE 754 double, held by its bit pattern.
#[derive(Clone, Copy, Debug, PartialEq, Eq, Structural)]
pub struct Float64 {
    pub bits: u64,
}

/// The bit pattern of zero.
pub const ZERO_BITS: u64 = 0;

/// The bit pattern of one.
pub const ONE_BITS: u64 = 0x3FF0_0000_0000_0000;

impl Float64 {
    pub open spec fn spec_zero() -> Float64 {
        Float64 { bits: ZERO_BITS }
    }

    pub open spec fn spec_one() -> Float64 {
        Float64 { bits: ONE_BITS }
    }

    /// Zero.
    pub fn zero() -> (value: Float64)
        ensures
            value == Float64::spec_zero(),
    {
        Float64 { bits: ZERO_BITS }
    }

    /// One.
    pub fn one() -> (value: Float64)
        ensures
            value == Float64::spec_one(),
    {
        Float64 { bits: ONE_BITS }
    }
}

} // verus!
