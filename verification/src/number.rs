//! CSS numbers.  A number is held by the bit pattern of its IEEE-754
//! binary32 encoding; the comparisons below are those of binary32 values,
//! stated over their encodings.

use vstd::prelude::*;

verus! {

/// The encoding of 0.1 in binary32.
pub const TENTH_BITS: u32 = 0x3dcc_cccd;
/// The encoding of 0.25 in binary32.
pub const QUARTER_BITS: u32 = 0x3e80_0000;
/// The encoding of 0.42 in binary32.
pub const POINT_42_BITS: u32 = 0x3ed7_0a3d;
/// The encoding of 0.58 in binary32.
pub const POINT_58_BITS: u32 = 0x3f14_7ae1;
/// The encoding of 1.0 in binary32.
pub const ONE_BITS: u32 = 0x3f80_0000;
/// The encoding of 100.0 in binary32.
pub const HUNDRED_BITS: u32 = 0x42c8_0000;
/// The encoding of positive infinity in binary32.
pub const INFINITY_BITS: u32 = 0x7f80_0000;

/// A CSS `<number>`, held as the binary32 encoding of its value.
#[derive(Clone, Copy, Debug)]
pub struct CssNumber {
    pub bits: u32,
}

/// The encoding with the sign bit cleared.
pub open spec fn magnitude(bits: u32) -> int {
    if bits >= 0x8000_0000 {
        bits - 0x8000_0000
    } else {
        bits as int
    }
}

/// The encoding is that of a NaN.
pub open spec fn is_nan(bits: u32) -> bool {
    magnitude(bits) > INFINITY_BITS
}

/// The encoding is that of +0.0 or -0.0.
pub open spec fn is_zero(bits: u32) -> bool {
    magnitude(bits) == 0
}

/// `a == b` on binary32 values: NaN equals nothing, and the two zeros are equal.
pub open spec fn num_eq(a: u32, b: u32) -> bool {
    !is_nan(a) && !is_nan(b) && (a == b || (is_zero(a) && is_zero(b)))
}

/// `x < 0.0` on binary32 values: the sign bit is set, and the value is
/// neither -0.0 nor a NaN.
pub open spec fn is_negative(bits: u32) -> bool {
    0x8000_0000 < bits && bits <= 0xff80_0000
}

/// `0.0 < x && x < 0.1` on binary32 values.
pub open spec fn between_zero_and_tenth(bits: u32) -> bool {
    0 < bits && bits < TENTH_BITS
}

/// `x >= 100.0` on binary32 values.
pub open spec fn at_least_hundred(bits: u32) -> bool {
    HUNDRED_BITS <= bits && bits <= INFINITY_BITS
}

fn magnitude_of(bits: u32) -> (m: u32)
    ensures
        m == magnitude(bits),
{
    if bits >= 0x8000_0000 {
        bits - 0x8000_0000
    } else {
        bits
    }
}

impl CssNumber {
    /// The number whose binary32 encoding is `bits`.
    pub fn from_bits(bits: u32) -> (n: CssNumber)
        ensures
            n.bits == bits,
    {
        CssNumber { bits }
    }

    /// Whether the number is zero (either sign).
    pub fn is_zero(&self) -> (r: bool)
        ensures
            r == is_zero(self.bits),
    {
        magnitude_of(self.bits) == 0
    }

    /// Whether the number is below zero.
    pub fn is_negative(&self) -> (r: bool)
        ensures
            r == is_negative(self.bits),
    {
        0x8000_0000 < self.bits && self.bits <= 0xff80_0000
    }

    /// `self == other` as binary32 values.
    pub fn num_eq(&self, other: &CssNumber) -> (r: bool)
        ensures
            r == num_eq(self.bits, other.bits),
    {
        let a = magnitude_of(self.bits);
        let b = magnitude_of(other.bits);
        if a > INFINITY_BITS || b > INFINITY_BITS {
            false
        } else {
            self.bits == other.bits || (a == 0 && b == 0)
        }
    }

    /// `self == c` where `c` is the binary32 value encoded by `bits`.
    pub fn equals_bits(&self, bits: u32) -> (r: bool)
        ensures
            r == num_eq(self.bits, bits),
    {
        self.num_eq(&CssNumber { bits })
    }
}

} // verus!
