//! The sampling distance factor, a single-precision number that this
//! library carries and orders by its IEEE 754 bit pattern.
//!
//! Among the numbers that are neither negative nor NaN, the order of the
//! bit patterns read as unsigned integers is the order of the numbers, so
//! a clamp to a range of positive bounds needs integer comparisons only.

use vstd::prelude::*;

verus! {

/// The sign bit of a single-precision bit pattern.
pub const SIGN_BIT: u32 = 0x8000_0000;

/// The bit pattern of positive infinity; a larger magnitude is a NaN.
pub const INFINITY_BITS: u32 = 0x7F80_0000;

/// The bit pattern of `1.0`, the least legal factor and the neutral one.
pub const FACTOR_MIN_BITS: u32 = 0x3F80_0000;

/// The bit pattern of `100.0`, the greatest legal factor.
pub const FACTOR_MAX_BITS: u32 = 0x42C8_0000;

/// A single-precision number, held as its bit pattern.
#[derive(Clone, Copy, Debug, PartialEq, Eq, Structural)]
pub struct Factor {
    /// The IEEE 754 bit pattern, as `f32::to_bits` gives it.
    pub bits: u32,
}

impl Factor {
    /// The bit pattern without its sign bit.
    pub open spec fn magnitude(self) -> int {
        if self.bits >= SIGN_BIT {
            self.bits - SIGN_BIT
        } else {
            self.bits as int
        }
    }

    /// Whether the number is a NaN, of either sign.
    pub open spec fn is_nan(self) -> bool {
        self.magnitude() > INFINITY_BITS
    }

    /// Whether the sign bit is set: negative numbers and negative zero.
    pub open spec fn is_negative(self) -> bool {
        self.bits >= SIGN_BIT
    }

    /// Whether the number lies in the legal range from `1.0` to `100.0`.
    pub open spec fn in_range(self) -> bool {
        FACTOR_MIN_BITS <= self.bits <= FACTOR_MAX_BITS
    }

    /// The number clamped to the legal range. A NaN stays as it is; every
    /// number with the sign bit set lies below `1.0`; positive infinity
    /// lies above `100.0`.
    pub open spec fn legalized(self) -> Factor {
        if self.is_nan() {
            self
        } else if self.is_negative() || self.bits < FACTOR_MIN_BITS {
            Factor { bits: FACTOR_MIN_BITS }
        } else if self.bits > FACTOR_MAX_BITS {
            Factor { bits: FACTOR_MAX_BITS }
        } else {
            self
        }
    }

    /// The factor with the given bit pattern.
    pub fn from_bits(bits: u32) -> (f: Factor)
        ensures
            f.bits == bits,
    {
        Factor { bits }
    }

    /// The bit pattern of the factor.
    pub fn to_bits(self) -> (bits: u32)
        ensures
            bits == self.bits,
    {
        self.bits
    }

    /// The neutral factor `1.0`.
    pub fn one() -> (f: Factor)
        ensures
            f.bits == FACTOR_MIN_BITS,
            f.in_range(),
    {
        Factor { bits: FACTOR_MIN_BITS }
    }

    /// Clamps the factor to the range from `1.0` to `100.0`.
    pub fn clamp_to_range(self) -> (r: Factor)
        ensures
            r == self.legalized(),
            self.is_nan() ==> r == self,
            !self.is_nan() ==> r.in_range(),
    {
        let magnitude: u32 = if self.bits >= SIGN_BIT {
            self.bits - SIGN_BIT
        } else {
            self.bits
        };
        if magnitude > INFINITY_BITS {
            self
        } else if self.bits >= SIGN_BIT || self.bits < FACTOR_MIN_BITS {
            Factor { bits: FACTOR_MIN_BITS }
        } else if self.bits > FACTOR_MAX_BITS {
            Factor { bits: FACTOR_MAX_BITS }
        } else {
            self
        }
    }
}

/// Clamping a factor twice changes nothing the second time, whatever the
/// bit pattern: a NaN is kept by both clamps, and every other number is in
/// range after the first.
pub proof fn lemma_factor_legalized_idempotent(f: Factor)
    ensures
        f.legalized().legalized() == f.legalized(),
        f.in_range() ==> f.legalized() == f,
{
}

} // verus!
