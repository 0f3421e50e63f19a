//! Single-precision numbers held by their bit pattern.
//!
//! A [`Scalar`] is an IEEE 754 binary32 value: one sign bit, eight exponent
//! bits and twenty-three fraction bits. Only the ordering of such values is
//! needed by this crate, and it is defined here over the bits alone.

use vstd::prelude::*;

verus! {

/// The sign bit of a binary32 pattern.
pub const SIGN_BIT: u32 = 0x8000_0000;

/// The pattern of positive infinity. Every pattern whose magnitude is
/// greater than this one is a NaN.
pub const INFINITY_BITS: u32 = 0x7f80_0000;

/// A binary32 number, identified by its bit pattern.
///
/// `==` on this type is identity of patterns: it tells `0.0` from `-0.0`
/// and finds a NaN pattern equal to itself. The numeric order is
/// [`Scalar::lt`].
#[derive(Clone, Copy, Debug, PartialEq, Eq, Structural, Hash)]
pub struct Scalar {
    pub bits: u32,
}

impl Scalar {
    /// The pattern with its sign bit cleared, as a number.
    pub open spec fn magnitude(self) -> int {
        if self.bits >= SIGN_BIT {
            self.bits - SIGN_BIT
        } else {
            self.bits as int
        }
    }

    /// Whether the sign bit is set.
    pub open spec fn sign(self) -> bool {
        self.bits >= SIGN_BIT
    }

    /// Whether the pattern is a NaN: all exponent bits set and a fraction
    /// that is not zero.
    pub open spec fn is_nan_spec(self) -> bool {
        self.magnitude() > INFINITY_BITS
    }

    /// The place of a pattern on the number line. Among patterns that are
    /// not NaN, a greater number has a greater rank, and the two zeros
    /// share rank 0.
    pub open spec fn rank(self) -> int {
        if self.sign() {
            -self.magnitude()
        } else {
            self.magnitude()
        }
    }

    /// The numeric `<` of binary32: false as soon as either side is a NaN,
    /// and otherwise the order of the ranks.
    pub open spec fn lt_spec(self, other: Scalar) -> bool {
        &&& !self.is_nan_spec()
        &&& !other.is_nan_spec()
        &&& self.rank() < other.rank()
    }

    /// The number with the given bit pattern.
    pub fn from_bits(bits: u32) -> (s: Scalar)
        ensures
            s.bits == bits,
    {
        Scalar { bits }
    }

    /// The bit pattern of the number.
    pub fn to_bits(self) -> (bits: u32)
        ensures
            bits == self.bits,
    {
        self.bits
    }

    /// Whether the number is a NaN.
    pub fn is_nan(self) -> (r: bool)
        ensures
            r == self.is_nan_spec(),
    {
        let magnitude: u32 = if self.bits >= SIGN_BIT {
            self.bits - SIGN_BIT
        } else {
            self.bits
        };
        magnitude > INFINITY_BITS
    }

    /// Numeric comparison: whether `self` is strictly less than `other`.
    pub fn lt(self, other: Scalar) -> (r: bool)
        ensures
            r == self.lt_spec(other),
    {
        if self.is_nan() || other.is_nan() {
            return false;
        }
        let left: i64 = if self.bits >= SIGN_BIT {
            -((self.bits - SIGN_BIT) as i64)
        } else {
            self.bits as i64
        };
        let right: i64 = if other.bits >= SIGN_BIT {
            -((other.bits - SIGN_BIT) as i64)
        } else {
            other.bits as i64
        };
        left < right
    }
}

} // verus!
