//! Scalar numbers as IEEE 754 binary64 bit patterns.
//!
//! The decoder reports every scalar as a 64-bit float. The records keep the
//! bit pattern, so that a value passes through unchanged, and the only
//! operation the mapping needs, the comparison `<`, is defined on the bits.

use vstd::prelude::*;

verus! {

/// The sign bit of a binary64 pattern.
pub const SIGN_BIT: u64 = 0x8000_0000_0000_0000;

/// The pattern of positive infinity: every pattern whose magnitude is larger
/// is not a number.
pub const INFINITY_BITS: u64 = 0x7FF0_0000_0000_0000;

/// The pattern of `1.0`.
pub const ONE_BITS: u64 = 0x3FF0_0000_0000_0000;

/// A binary64 value, held as its bit pattern.
#[derive(Clone, Copy, PartialEq, Eq, Structural, Debug)]
pub struct Scalar {
    pub bits: u64,
}

impl Scalar {
    /// The pattern without its sign bit.
    pub open spec fn magnitude(self) -> int {
        self.bits as int % (SIGN_BIT as int)
    }

    /// True when the sign bit is set.
    pub open spec fn negative(self) -> bool {
        self.bits >= SIGN_BIT
    }

    /// True when the pattern encodes no number.
    pub open spec fn is_nan(self) -> bool {
        self.magnitude() > INFINITY_BITS as int
    }

    /// An integer that orders the patterns that encode numbers as the numbers
    /// themselves are ordered. Both zeros have rank 0.
    pub open spec fn rank(self) -> int {
        if self.negative() {
            -self.magnitude()
        } else {
            self.magnitude()
        }
    }

    /// The comparison `<` of binary64: false when either side is not a
    /// number, otherwise the order of the encoded numbers.
    pub open spec fn lt(self, other: Scalar) -> bool {
        !self.is_nan() && !other.is_nan() && self.rank() < other.rank()
    }

    /// The comparison `<=` of binary64: false when either side is not a
    /// number, otherwise the order of the encoded numbers.
    pub open spec fn le(self, other: Scalar) -> bool {
        !self.is_nan() && !other.is_nan() && self.rank() <= other.rank()
    }

    /// The value with the given bit pattern.
    pub fn from_bits(bits: u64) -> (r: Scalar)
        ensures
            r.bits == bits,
    {
        Scalar { bits }
    }

    /// The value `1.0`.
    pub fn one() -> (r: Scalar)
        ensures
            r.bits == ONE_BITS,
    {
        Scalar { bits: ONE_BITS }
    }

    /// Whether the pattern encodes no number.
    pub fn not_a_number(self) -> (r: bool)
        ensures
            r == self.is_nan(),
    {
        self.bits % SIGN_BIT > INFINITY_BITS
    }

    /// Whether `self < other` as binary64 values.
    pub fn less_than(self, other: Scalar) -> (r: bool)
        ensures
            r == self.lt(other),
    {
        if self.not_a_number() || other.not_a_number() {
            return false;
        }
        let a: u64 = self.bits % SIGN_BIT;
        let b: u64 = other.bits % SIGN_BIT;
        let a_negative: bool = self.bits >= SIGN_BIT;
        let b_negative: bool = other.bits >= SIGN_BIT;
        if a_negative {
            if b_negative {
                b < a
            } else {
                a > 0 || b > 0
            }
        } else {
            if b_negative {
                false
            } else {
                a < b
            }
        }
    }
}

/// `<` never holds of a value and itself.
pub proof fn lemma_lt_irreflexive(a: Scalar)
    ensures
        !a.lt(a),
{
}

/// `<` is transitive.
pub proof fn lemma_lt_transitive(a: Scalar, b: Scalar, c: Scalar)
    requires
        a.lt(b),
        b.lt(c),
    ensures
        a.lt(c),
{
}

} // verus!
