//! Double-precision numbers by their bits: how they compare.
//!
//! Comparing is all that is done with them here; what has to be added up or
//! scaled is added up and scaled by the caller.

use vstd::prelude::*;

verus! {

/// The sign bit.
pub const SIGN_BIT: u64 = 0x8000_0000_0000_0000;

/// The bits of infinity; a larger magnitude is not a number.
pub const INFINITY_BITS: u64 = 0x7FF0_0000_0000_0000;

/// A double-precision number, as its IEEE 754 bits.
#[derive(Debug, Clone, Copy)]
pub struct Real {
    pub bits: u64,
}

impl PartialEq for Real {
    fn eq(&self, other: &Self) -> (equal: bool) {
        self.equals_number(*other)
    }
}

impl vstd::std_specs::cmp::PartialEqSpecImpl for Real {
    open spec fn obeys_eq_spec() -> bool {
        true
    }

    open spec fn eq_spec(&self, other: &Self) -> bool {
        self.equals(*other)
    }
}

impl Real {
    /// The bits without the sign. Magnitudes are ordered as their bits are.
    pub open spec fn magnitude(self) -> int {
        if self.bits >= SIGN_BIT {
            self.bits - SIGN_BIT
        } else {
            self.bits as int
        }
    }

    /// Whether the sign bit is set.
    pub open spec fn signed(self) -> bool {
        self.bits >= SIGN_BIT
    }

    /// Whether this is a number at all.
    pub open spec fn is_number(self) -> bool {
        self.magnitude() <= INFINITY_BITS
    }

    /// Whether this is the same number as `other`: both zeros are, and what is not
    /// a number is the same as nothing.
    pub open spec fn equals(self, other: Real) -> bool {
        &&& self.is_number()
        &&& other.is_number()
        &&& self.bits == other.bits || (self.magnitude() == 0 && other.magnitude() == 0)
    }

    /// Whether this is further from zero than `other`.
    pub open spec fn outweighs(self, other: Real) -> bool {
        &&& self.is_number()
        &&& other.is_number()
        &&& self.magnitude() > other.magnitude()
    }

    /// Whether this is at least as far from zero as the number of bits `limit`.
    pub open spec fn reaches(self, limit: u64) -> bool {
        &&& self.is_number()
        &&& self.magnitude() >= limit
    }

    /// Whether this is greater than zero.
    pub open spec fn above_zero(self) -> bool {
        &&& self.is_number()
        &&& !self.signed()
        &&& self.magnitude() > 0
    }

    /// Whether this is less than zero.
    pub open spec fn below_zero(self) -> bool {
        &&& self.is_number()
        &&& self.signed()
        &&& self.magnitude() > 0
    }

    /// Zero.
    pub fn zero() -> (zero: Real)
        ensures
            zero.bits == 0,
    {
        Real { bits: 0 }
    }

    fn unsigned_bits(self) -> (bits: u64)
        ensures
            bits == self.magnitude(),
    {
        if self.bits >= SIGN_BIT {
            self.bits - SIGN_BIT
        } else {
            self.bits
        }
    }

    fn equals_number(self, other: Real) -> (equal: bool)
        ensures
            equal == self.equals(other),
    {
        let own: u64 = self.unsigned_bits();
        let others: u64 = other.unsigned_bits();
        own <= INFINITY_BITS && others <= INFINITY_BITS && (self.bits == other.bits || (own == 0
            && others == 0))
    }

    /// Whether this is further from zero than `other`; false if either is not a
    /// number.
    pub fn is_larger_than(self, other: Real) -> (larger: bool)
        ensures
            larger == self.outweighs(other),
    {
        let own: u64 = self.unsigned_bits();
        let others: u64 = other.unsigned_bits();
        own <= INFINITY_BITS && others <= INFINITY_BITS && own > others
    }

    /// Whether this is at least as far from zero as the positive number of bits
    /// `limit`; false if it is not a number.
    pub fn is_at_least(self, limit: u64) -> (reached: bool)
        ensures
            reached == self.reaches(limit),
    {
        let own: u64 = self.unsigned_bits();
        own <= INFINITY_BITS && own >= limit
    }

    /// Whether this is greater than zero.
    pub fn is_positive(self) -> (positive: bool)
        ensures
            positive == self.above_zero(),
    {
        let own: u64 = self.unsigned_bits();
        own <= INFINITY_BITS && self.bits < SIGN_BIT && own > 0
    }

    /// Whether this is less than zero.
    pub fn is_negative(self) -> (negative: bool)
        ensures
            negative == self.below_zero(),
    {
        let own: u64 = self.unsigned_bits();
        own <= INFINITY_BITS && self.bits >= SIGN_BIT && own > 0
    }
}

/// The number of magnitude bits `bits`, with or without a sign.
pub open spec fn signed_number(bits: u64, sign: bool) -> Real {
    if sign {
        Real { bits: (bits + 0x8000_0000_0000_0000) as u64 }
    } else {
        Real { bits }
    }
}

/// Numbers compare as their magnitudes and signs do: a sign makes no difference
/// to how far a number is from zero, and zero has none that counts.
pub proof fn numbers_compare_by_magnitude(a: u64, sign_a: bool, b: u64, sign_b: bool, limit: u64)
    requires
        a <= 0x7FF0_0000_0000_0000,
        b <= 0x7FF0_0000_0000_0000,
    ensures
        ({
            let x = signed_number(a, sign_a);
            let y = signed_number(b, sign_b);
            &&& x.outweighs(y) <==> a > b
            &&& x.reaches(limit) <==> a >= limit
            &&& x.above_zero() <==> a > 0 && !sign_a
            &&& x.below_zero() <==> a > 0 && sign_a
            &&& x.equals(y) <==> a == b && (a == 0 || sign_a == sign_b)
        }),
{
}

/// What is not a number compares with nothing, itself included.
pub proof fn nothing_compares_with_what_is_no_number(
    a: u64,
    sign_a: bool,
    other: Real,
    limit: u64,
)
    requires
        0x7FF0_0000_0000_0000 < a < 0x8000_0000_0000_0000,
    ensures
        ({
            let x = signed_number(a, sign_a);
            &&& !x.outweighs(other)
            &&& !other.outweighs(x)
            &&& !x.reaches(limit)
            &&& !x.above_zero()
            &&& !x.below_zero()
            &&& !x.equals(other)
            &&& !other.equals(x)
        }),
{
}

} // verus!
