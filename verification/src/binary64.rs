//! IEEE 754 double-precision numbers carried by their bit patterns.
//!
//! The integrator's diagnostics and thresholds are real numbers, but the only
//! thing this crate ever does with them is compare them. A comparison of two
//! doubles is a comparison of two integers once the sign is taken into
//! account, so the numbers travel through the verified code as `u64` bit
//! patterns and never as machine floats.
use vstd::prelude::*;

verus! {

/// Bit pattern with only the sign bit set (negative zero).
pub const SIGN_BIT: u64 = 0x8000_0000_0000_0000;

/// Bit pattern of positive infinity. Every pattern whose magnitude is above
/// this one is a NaN.
pub const INFINITY_BITS: u64 = 0x7FF0_0000_0000_0000;

/// Bit pattern of positive zero.
pub const ZERO_BITS: u64 = 0;

/// Bit pattern of the double closest to pi.
pub const PI_BITS: u64 = 0x4009_21FB_5444_2D18;

/// Bit pattern of the double closest to one fifth.
pub const ONE_FIFTH_BITS: u64 = 0x3FC9_9999_9999_999A;

/// A double-precision number, held as the 64 bits of its encoding: one sign
/// bit, eleven exponent bits, fifty-two fraction bits.
///
/// `==` on this type compares encodings: a NaN equals itself and the two
/// zeros differ. Numeric comparison is [`Binary64::ge`].
#[derive(Copy, Clone, PartialEq, Eq, Structural, Debug)]
pub struct Binary64 {
    pub bits: u64,
}

impl Binary64 {
    /// The encoding with the sign bit cleared.
    pub open spec fn magnitude(self) -> int {
        if self.bits >= SIGN_BIT {
            self.bits - SIGN_BIT
        } else {
            self.bits as int
        }
    }

    /// The sign bit is set. True of negative zero and of half the NaNs too.
    pub open spec fn is_negative(self) -> bool {
        self.bits >= SIGN_BIT
    }

    /// The value is not a number: all exponent bits set and a nonzero fraction.
    pub open spec fn is_nan_spec(self) -> bool {
        self.magnitude() > INFINITY_BITS
    }

    /// Position of the value on the number line, for values that are numbers.
    ///
    /// Among non-negative doubles a larger encoding is a larger number, and
    /// negation flips the sign bit only. So the signed magnitude orders
    /// doubles exactly as their values do, with both zeros at 0 and the
    /// infinities at the two ends.
    pub open spec fn rank(self) -> int {
        if self.is_negative() {
            -self.magnitude()
        } else {
            self.magnitude()
        }
    }

    /// `self >= other` as IEEE 754 defines it: false whenever either side is
    /// a NaN, otherwise the order of the values.
    pub open spec fn ge_spec(self, other: Binary64) -> bool {
        &&& !self.is_nan_spec()
        &&& !other.is_nan_spec()
        &&& self.rank() >= other.rank()
    }

    /// The value is a number and is not below zero. Negative zero qualifies.
    pub open spec fn is_non_negative_spec(self) -> bool {
        self.ge_spec(Binary64 { bits: ZERO_BITS })
    }

    pub fn from_bits(bits: u64) -> (r: Binary64)
        ensures
            r.bits == bits,
    {
        Binary64 { bits }
    }

    pub fn to_bits(self) -> (r: u64)
        ensures
            r == self.bits,
    {
        self.bits
    }

    /// Positive zero.
    pub fn zero() -> (r: Binary64)
        ensures
            r.bits == ZERO_BITS,
    {
        Binary64 { bits: ZERO_BITS }
    }

    /// The double closest to pi, 3.141592653589793.
    pub fn pi() -> (r: Binary64)
        ensures
            r.bits == PI_BITS,
    {
        Binary64 { bits: PI_BITS }
    }

    /// The double closest to one fifth, 0.2.
    pub fn one_fifth() -> (r: Binary64)
        ensures
            r.bits == ONE_FIFTH_BITS,
    {
        Binary64 { bits: ONE_FIFTH_BITS }
    }

    fn magnitude_bits(self) -> (r: u64)
        ensures
            r == self.magnitude(),
    {
        if self.bits >= SIGN_BIT {
            self.bits - SIGN_BIT
        } else {
            self.bits
        }
    }

    pub fn is_nan(self) -> (r: bool)
        ensures
            r == self.is_nan_spec(),
    {
        self.magnitude_bits() > INFINITY_BITS
    }

    /// Numeric `>=`.
    pub fn ge(self, other: Binary64) -> (r: bool)
        ensures
            r == self.ge_spec(other),
    {
        let a: u64 = self.magnitude_bits();
        let b: u64 = other.magnitude_bits();
        if a > INFINITY_BITS || b > INFINITY_BITS {
            return false;
        }
        let a_negative = self.bits >= SIGN_BIT;
        let b_negative = other.bits >= SIGN_BIT;
        if a_negative {
            if b_negative {
                a <= b
            } else {
                a == 0 && b == 0
            }
        } else {
            if b_negative {
                true
            } else {
                a >= b
            }
        }
    }

    /// Numeric `>= 0`.
    pub fn is_non_negative(self) -> (r: bool)
        ensures
            r == self.is_non_negative_spec(),
    {
        self.ge(Binary64::zero())
    }
}

} // verus!
