//! Single and double precision numbers as they cross the native boundary.
//!
//! The engine exchanges IEEE-754 numbers. This layer only moves them between
//! layouts and, in the hit collectors, orders them, so it holds each number as
//! its bit pattern: moving a pattern is exact by construction, and the order of
//! two numbers that are not NaN can be read off their patterns.

use vstd::prelude::*;

verus! {

/// The pattern of the sign bit of a single precision number.
pub const SIGN_BIT: u32 = 0x8000_0000;

/// The pattern of positive infinity: every larger magnitude is a NaN.
pub const INFINITY_BITS: u32 = 0x7F80_0000;

/// The pattern of `1.0` in single precision.
pub const ONE_BITS: u32 = 0x3F80_0000;

/// The pattern of `1.0` in double precision.
pub const DOUBLE_ONE_BITS: u64 = 0x3FF0_0000_0000_0000;

/// An IEEE-754 binary32 number, held as its bit pattern.
#[derive(Debug, Clone, Copy, PartialEq, Eq, Structural)]
pub struct Float {
    pub bits: u32,
}

/// The type of world space values. The engine is used in single precision.
pub type Real = Float;

impl Float {
    /// The pattern without its sign bit.
    pub open spec fn magnitude(self) -> int {
        if self.bits >= SIGN_BIT {
            self.bits - SIGN_BIT
        } else {
            self.bits as int
        }
    }

    /// Whether the sign bit is set. Negative zero and some NaNs have it set.
    pub open spec fn sign(self) -> bool {
        self.bits >= SIGN_BIT
    }

    /// Whether the pattern is one of the NaNs: all exponent bits set and a
    /// mantissa that is not zero.
    pub open spec fn nan(self) -> bool {
        self.magnitude() > INFINITY_BITS
    }

    /// An integer that orders the numbers that are not NaN as IEEE-754 does:
    /// for such `a` and `b`, `a < b` exactly when `a.key() < b.key()`, and both
    /// zeros have key 0.
    pub open spec fn key(self) -> int {
        if self.sign() {
            -self.magnitude()
        } else {
            self.magnitude()
        }
    }

    /// What `self < other` computes on the two numbers.
    pub open spec fn less_than(self, other: Float) -> bool {
        !self.nan() && !other.nan() && self.key() < other.key()
    }

    /// What `self > 0.0` computes.
    pub open spec fn positive(self) -> bool {
        !self.nan() && self.key() > 0
    }

    /// What `-self` computes: the same pattern with the sign bit flipped.
    pub open spec fn negated(self) -> Float {
        if self.bits >= SIGN_BIT {
            Float { bits: (self.bits - SIGN_BIT) as u32 }
        } else {
            Float { bits: (self.bits + SIGN_BIT) as u32 }
        }
    }

    pub fn from_bits(bits: u32) -> (x: Float)
        ensures
            x.bits == bits,
    {
        Float { bits }
    }

    pub fn to_bits(self) -> (bits: u32)
        ensures
            bits == self.bits,
    {
        self.bits
    }

    /// Positive zero.
    pub fn zero() -> (x: Float)
        ensures
            x.bits == 0,
    {
        Float { bits: 0 }
    }

    /// The number one.
    pub fn one() -> (x: Float)
        ensures
            x.bits == ONE_BITS,
    {
        Float { bits: ONE_BITS }
    }

    pub fn is_nan(self) -> (b: bool)
        ensures
            b == self.nan(),
    {
        let magnitude: u32 = if self.bits >= SIGN_BIT {
            self.bits - SIGN_BIT
        } else {
            self.bits
        };
        magnitude > INFINITY_BITS
    }

    /// `-self`.
    pub fn neg(self) -> (x: Float)
        ensures
            x == self.negated(),
    {
        if self.bits >= SIGN_BIT {
            Float { bits: self.bits - SIGN_BIT }
        } else {
            Float { bits: self.bits + SIGN_BIT }
        }
    }

    /// `self > 0.0`.
    pub fn is_positive(self) -> (b: bool)
        ensures
            b == self.positive(),
    {
        0 < self.bits && self.bits <= INFINITY_BITS
    }

    /// `self < other`.
    pub fn lt(self, other: Float) -> (b: bool)
        ensures
            b == self.less_than(other),
    {
        if self.is_nan() || other.is_nan() {
            return false;
        }
        if self.bits >= SIGN_BIT {
            if other.bits >= SIGN_BIT {
                // both carry the sign: the larger magnitude is the smaller number
                other.bits < self.bits
            } else {
                // a negative number is below every number without the sign,
                // except that the two zeros are equal
                self.bits > SIGN_BIT || other.bits > 0
            }
        } else {
            other.bits < SIGN_BIT && self.bits < other.bits
        }
    }
}

/// Negation mirrors the order: a number that is not NaN has the opposite key,
/// and a NaN stays a NaN. So of two depths, the negated deeper one is the
/// smaller number.
pub proof fn lemma_neg_mirrors_order(x: Float)
    ensures
        x.negated().nan() == x.nan(),
        x.negated().magnitude() == x.magnitude(),
        x.magnitude() != 0 ==> x.negated().key() == -x.key(),
        x.magnitude() == 0 ==> x.negated().key() == 0 && x.key() == 0,
{
}

/// `<` on numbers is irreflexive and transitive, and no NaN is below or above
/// anything.
pub proof fn lemma_less_than_strict_order(a: Float, b: Float, c: Float)
    ensures
        !a.less_than(a),
        a.less_than(b) && b.less_than(c) ==> a.less_than(c),
        a.less_than(b) ==> !b.less_than(a),
        a.nan() ==> !a.less_than(b) && !b.less_than(a),
{
}

/// An IEEE-754 binary64 number, held as its bit pattern.
#[derive(Debug, Clone, Copy, PartialEq, Eq, Structural)]
pub struct Double {
    pub bits: u64,
}

impl Double {
    pub fn from_bits(bits: u64) -> (x: Double)
        ensures
            x.bits == bits,
    {
        Double { bits }
    }

    pub fn to_bits(self) -> (bits: u64)
        ensures
            bits == self.bits,
    {
        self.bits
    }

    /// Positive zero.
    pub fn zero() -> (x: Double)
        ensures
            x.bits == 0,
    {
        Double { bits: 0 }
    }

    /// The number one.
    pub fn one() -> (x: Double)
        ensures
            x.bits == DOUBLE_ONE_BITS,
    {
        Double { bits: DOUBLE_ONE_BITS }
    }
}

} // verus!
