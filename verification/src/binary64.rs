//! IEEE-754 binary64 numbers held as their bit patterns.
//!
//! Every coordinate, radius and bulge of the library is a binary64 number.
//! The library keeps such a number as the 64 bits of its encoding and states
//! the few operations it performs on them (sign flip, equality, ordering,
//! classification) exactly as the IEEE-754 standard defines them.
use vstd::prelude::*;
use vstd::std_specs::cmp::PartialEqSpecImpl;

verus! {

/// The sign bit of a binary64 encoding.
pub const SIGN_BIT: u64 = 0x8000_0000_0000_0000;

/// The encoding of positive infinity: all exponent bits set, zero fraction.
/// A magnitude above it is a NaN.
pub const INFINITY_BITS: u64 = 0x7ff0_0000_0000_0000;

/// A binary64 number, held as its encoding.
#[derive(Clone, Copy, Debug)]
pub struct Binary64 {
    pub bits: u64,
}

impl Binary64 {
    /// Whether the sign bit is set.
    pub open spec fn sign_bit(self) -> bool {
        self.bits >= SIGN_BIT
    }

    /// The encoding without its sign bit.
    pub open spec fn magnitude(self) -> int {
        if self.sign_bit() {
            self.bits - SIGN_BIT
        } else {
            self.bits as int
        }
    }

    pub open spec fn spec_is_nan(self) -> bool {
        self.magnitude() > INFINITY_BITS
    }

    pub open spec fn spec_is_infinite(self) -> bool {
        self.magnitude() == INFINITY_BITS
    }

    pub open spec fn spec_is_finite(self) -> bool {
        self.magnitude() < INFINITY_BITS
    }

    /// The number with the sign bit flipped: IEEE-754 negation.
    pub open spec fn spec_neg(self) -> Binary64 {
        if self.sign_bit() {
            Binary64 { bits: (self.bits - SIGN_BIT) as u64 }
        } else {
            Binary64 { bits: (self.bits + SIGN_BIT) as u64 }
        }
    }

    /// An integer whose order is the order of the values that the encodings
    /// stand for (for non-NaN encodings): the magnitude of a non-negative
    /// number grows with its value, that of a negative one shrinks.  Both
    /// zeros get 0.
    pub open spec fn order_key(self) -> int {
        if self.sign_bit() {
            -self.magnitude()
        } else {
            self.magnitude()
        }
    }

    /// Makes a number from its encoding.
    pub fn from_bits(bits: u64) -> (res: Binary64)
        ensures
            res.bits == bits,
    {
        Binary64 { bits }
    }

    /// The encoding of the number.
    pub fn to_bits(self) -> (res: u64)
        ensures
            res == self.bits,
    {
        self.bits
    }

    /// Positive infinity.
    pub fn infinity() -> (res: Binary64)
        ensures
            res.bits == INFINITY_BITS,
            res.spec_is_infinite(),
            !res.sign_bit(),
    {
        Binary64 { bits: INFINITY_BITS }
    }

    /// Positive zero.
    pub fn zero() -> (res: Binary64)
        ensures
            res.bits == 0,
    {
        Binary64 { bits: 0 }
    }

    fn magnitude_bits(self) -> (res: u64)
        ensures
            res == self.magnitude(),
    {
        if self.bits >= SIGN_BIT {
            self.bits - SIGN_BIT
        } else {
            self.bits
        }
    }

    /// Whether the number is a NaN.
    pub fn is_nan(self) -> (res: bool)
        ensures
            res == self.spec_is_nan(),
    {
        self.magnitude_bits() > INFINITY_BITS
    }

    /// Whether the number is an infinity of either sign.
    pub fn is_infinite(self) -> (res: bool)
        ensures
            res == self.spec_is_infinite(),
    {
        self.magnitude_bits() == INFINITY_BITS
    }

    /// Whether the number is neither infinite nor NaN.
    pub fn is_finite(self) -> (res: bool)
        ensures
            res == self.spec_is_finite(),
    {
        self.magnitude_bits() < INFINITY_BITS
    }

    /// IEEE-754 negation: the sign bit flipped, every other bit kept.
    pub fn neg(self) -> (res: Binary64)
        ensures
            res == self.spec_neg(),
    {
        if self.bits >= SIGN_BIT {
            Binary64 { bits: self.bits - SIGN_BIT }
        } else {
            Binary64 { bits: self.bits + SIGN_BIT }
        }
    }

    fn key_parts(self) -> (res: (bool, u64))
        ensures
            res.0 == (self.sign_bit() && self.magnitude() != 0),
            res.1 == self.magnitude(),
    {
        let m = self.magnitude_bits();
        (self.bits >= SIGN_BIT && m != 0, m)
    }

    /// IEEE-754 `<`: false whenever either side is a NaN.
    pub fn lt(self, other: Binary64) -> (res: bool)
        ensures
            res == ieee_lt(self, other),
    {
        if self.is_nan() || other.is_nan() {
            return false;
        }
        let (sn, sm) = self.key_parts();
        let (on, om) = other.key_parts();
        if sn && on {
            sm > om
        } else if sn {
            true
        } else if on {
            false
        } else {
            sm < om
        }
    }

    /// IEEE-754 `<=`: false whenever either side is a NaN.
    pub fn le(self, other: Binary64) -> (res: bool)
        ensures
            res == ieee_le(self, other),
    {
        self.lt(other) || self.ieee_equal(other)
    }

    /// IEEE-754 `>`.
    pub fn gt(self, other: Binary64) -> (res: bool)
        ensures
            res == ieee_lt(other, self),
    {
        other.lt(self)
    }

    /// IEEE-754 `>=`.
    pub fn ge(self, other: Binary64) -> (res: bool)
        ensures
            res == ieee_le(other, self),
    {
        other.le(self)
    }

    /// IEEE-754 `==`: both zeros are equal, a NaN equals nothing.
    pub fn ieee_equal(self, other: Binary64) -> (res: bool)
        ensures
            res == ieee_eq(self, other),
    {
        if self.is_nan() || other.is_nan() {
            return false;
        }
        self.bits == other.bits || (self.magnitude_bits() == 0 && other.magnitude_bits() == 0)
    }
}

/// The number with the given encoding.
pub open spec fn encoded(bits: u64) -> Binary64 {
    Binary64 { bits }
}

/// IEEE-754 equality of two binary64 numbers.
pub open spec fn ieee_eq(a: Binary64, b: Binary64) -> bool {
    !a.spec_is_nan() && !b.spec_is_nan() && a.order_key() == b.order_key()
}

/// IEEE-754 `<` on two binary64 numbers.
pub open spec fn ieee_lt(a: Binary64, b: Binary64) -> bool {
    !a.spec_is_nan() && !b.spec_is_nan() && a.order_key() < b.order_key()
}

/// IEEE-754 `<=` on two binary64 numbers.
pub open spec fn ieee_le(a: Binary64, b: Binary64) -> bool {
    !a.spec_is_nan() && !b.spec_is_nan() && a.order_key() <= b.order_key()
}

/// The two numbers are at most `ulps` representable numbers apart: both
/// are numbers (not NaN) and, with the same sign, their encodings differ by
/// at most `ulps`; with opposite signs they must be equal (the two zeros).
pub open spec fn spec_almost_equal(a: Binary64, b: Binary64, ulps: i64) -> bool {
    if a.spec_is_nan() || b.spec_is_nan() {
        false
    } else if a.sign_bit() != b.sign_bit() {
        ieee_eq(a, b)
    } else {
        let d = a.magnitude() - b.magnitude();
        (if d >= 0 {
            d
        } else {
            -d
        }) <= ulps
    }
}

/// Compares two numbers by their distance in representable numbers (see
/// the spec).
pub fn almost_equal_as_int(a: Binary64, b: Binary64, ulps: i64) -> (res: bool)
    ensures
        res == spec_almost_equal(a, b, ulps),
{
    if a.is_nan() || b.is_nan() {
        return false;
    }
    if (a.bits >= SIGN_BIT) != (b.bits >= SIGN_BIT) {
        return a.ieee_equal(b);
    }
    let ma = a.magnitude_bits();
    let mb = b.magnitude_bits();
    let d: u64 = if ma >= mb {
        ma - mb
    } else {
        mb - ma
    };
    ulps >= 0 && d <= ulps as u64
}

impl PartialEq for Binary64 {
    fn eq(&self, other: &Self) -> (res: bool) {
        self.ieee_equal(*other)
    }
}

impl PartialEqSpecImpl for Binary64 {
    open spec fn obeys_eq_spec() -> bool {
        true
    }

    open spec fn eq_spec(&self, other: &Self) -> bool {
        ieee_eq(*self, *other)
    }
}

/// Negation is an involution: flipping the sign twice gives back the same
/// encoding.
pub proof fn lemma_neg_involutive(a: Binary64)
    ensures
        a.spec_neg().spec_neg() == a,
{
}

/// Negation keeps the class of a number (NaN, infinite, finite) and flips
/// the order: `a < b` exactly when `-b < -a`.
pub proof fn lemma_neg_reverses_order(a: Binary64, b: Binary64)
    ensures
        a.spec_neg().spec_is_nan() == a.spec_is_nan(),
        a.spec_neg().spec_is_finite() == a.spec_is_finite(),
        ieee_lt(a, b) == ieee_lt(b.spec_neg(), a.spec_neg()),
        ieee_eq(a, b) == ieee_eq(a.spec_neg(), b.spec_neg()),
{
}

/// IEEE equality is symmetric and transitive, and reflexive exactly on the
/// non-NaN numbers.
pub proof fn lemma_eq_properties(a: Binary64, b: Binary64, c: Binary64)
    ensures
        ieee_eq(a, b) == ieee_eq(b, a),
        ieee_eq(a, a) == !a.spec_is_nan(),
        ieee_eq(a, b) && ieee_eq(b, c) ==> ieee_eq(a, c),
{
}

/// Two encodings are IEEE-equal exactly when they are the same bits or both
/// zeros.
pub proof fn lemma_eq_bits(a: Binary64, b: Binary64)
    ensures
        ieee_eq(a, b) == (!a.spec_is_nan() && !b.spec_is_nan() && (a.bits == b.bits || (
        a.magnitude() == 0 && b.magnitude() == 0))),
{
}

/// IEEE `<` is a strict order on the non-NaN numbers, and any two of them
/// are ordered one way, the other way, or equal.
pub proof fn lemma_lt_properties(a: Binary64, b: Binary64, c: Binary64)
    ensures
        !ieee_lt(a, a),
        ieee_lt(a, b) ==> !ieee_lt(b, a),
        ieee_lt(a, b) && ieee_lt(b, c) ==> ieee_lt(a, c),
        !a.spec_is_nan() && !b.spec_is_nan() ==> (ieee_lt(a, b) || ieee_lt(b, a) || ieee_eq(a, b)),
        ieee_le(a, b) == (ieee_lt(a, b) || ieee_eq(a, b)),
{
}

/// Nearness in representable numbers is symmetric, holds of every number
/// with itself for any tolerance of at least 0, implies IEEE equality at
/// tolerance 0, and is kept when the tolerance grows.
pub proof fn lemma_almost_equal_properties(a: Binary64, b: Binary64, u: i64, v: i64)
    ensures
        spec_almost_equal(a, b, u) == spec_almost_equal(b, a, u),
        !a.spec_is_nan() && u >= 0 ==> spec_almost_equal(a, a, u),
        spec_almost_equal(a, b, 0) ==> ieee_eq(a, b),
        spec_almost_equal(a, b, u) && u <= v ==> spec_almost_equal(a, b, v),
{
}

/// A NaN compares false with everything.
pub proof fn lemma_nan_unordered(a: Binary64, b: Binary64)
    requires
        a.spec_is_nan(),
    ensures
        !ieee_eq(a, b),
        !ieee_eq(b, a),
        !ieee_lt(a, b),
        !ieee_lt(b, a),
        !ieee_le(a, b),
        !ieee_le(b, a),
{
}

} // verus!
