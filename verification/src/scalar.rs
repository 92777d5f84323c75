//! Single-precision numbers as bit patterns.
//!
//! The host hands every number over as an IEEE-754 binary32 value. This
//! library never computes with such a number: it only asks whether it is
//! finite, drops its sign, or replaces it by a fallback. All three are
//! decided by the bit pattern alone, so a number is held here as the 32 bits
//! that encode it: one sign bit, eight exponent bits, twenty-three fraction
//! bits.

use vstd::prelude::*;

verus! {

/// The weight of the sign bit.
pub const SIGN_BIT: u32 = 0x8000_0000;

/// The bits of the exponent field.
pub const EXPONENT_MASK: u32 = 0x7F80_0000;

/// Everything but the sign bit.
pub const MAGNITUDE_MASK: u32 = 0x7FFF_FFFF;

/// A binary32 number, held by its bit pattern.
#[derive(Clone, Copy, Debug, PartialEq, Eq, Structural)]
pub struct Scalar {
    pub bits: u32,
}

impl Scalar {
    /// The sign field: `true` for a set sign bit.
    pub open spec fn sign(self) -> bool {
        self.bits >= 0x8000_0000
    }

    /// The biased exponent field, `0..=255`.
    pub open spec fn exponent(self) -> int {
        (self.bits as int / 0x80_0000) % 0x100
    }

    /// The fraction field, `0..2^23`.
    pub open spec fn fraction(self) -> int {
        self.bits as int % 0x80_0000
    }

    /// Neither an infinity nor a NaN: the exponent field is not all ones.
    pub open spec fn is_finite_spec(self) -> bool {
        self.exponent() != 0xFF
    }

    /// Either zero: exponent and fraction are both zero.
    pub open spec fn is_zero_spec(self) -> bool {
        self.exponent() == 0 && self.fraction() == 0
    }

    /// Finite, not zero, and with a clear sign bit.
    pub open spec fn is_positive(self) -> bool {
        self.is_finite_spec() && !self.is_zero_spec() && !self.sign()
    }

    /// The same number with a clear sign bit.
    pub open spec fn magnitude(self) -> Scalar {
        if self.sign() {
            Scalar { bits: (self.bits - 0x8000_0000) as u32 }
        } else {
            self
        }
    }

    /// The magnitude of a finite number, the fallback for any other.
    pub open spec fn sanitized_spec(self, fallback: Scalar) -> Scalar {
        if self.is_finite_spec() {
            self.magnitude()
        } else {
            fallback
        }
    }

    /// The magnitude of a finite number that is not zero, the fallback for
    /// any other.
    pub open spec fn positive_or_spec(self, fallback: Scalar) -> Scalar {
        if self.is_finite_spec() && !self.is_zero_spec() {
            self.magnitude()
        } else {
            fallback
        }
    }

    /// The number with the given bit pattern.
    pub fn from_bits(bits: u32) -> (s: Scalar)
        ensures
            s.bits == bits,
    {
        Scalar { bits }
    }

    /// The bit pattern of the number.
    pub fn to_bits(&self) -> (bits: u32)
        ensures
            bits == self.bits,
    {
        self.bits
    }

    /// Positive zero.
    pub fn zero() -> (s: Scalar)
        ensures
            s.bits == 0,
            s.is_zero_spec(),
            s.is_finite_spec(),
    {
        Scalar { bits: 0 }
    }

    /// Whether the number is neither infinite nor NaN.
    pub fn is_finite(&self) -> (finite: bool)
        ensures
            finite == self.is_finite_spec(),
    {
        let bits: u32 = self.bits;
        assert((bits & 0x7F80_0000u32 != 0x7F80_0000u32) == ((bits / 0x80_0000u32) % 0x100u32
            != 0xFFu32)) by (bit_vector);
        bits & EXPONENT_MASK != EXPONENT_MASK
    }

    /// Whether the number is positive or negative zero.
    pub fn is_zero(&self) -> (zero: bool)
        ensures
            zero == self.is_zero_spec(),
    {
        let bits: u32 = self.bits;
        assert((bits & 0x7FFF_FFFFu32 == 0u32) == ((bits / 0x80_0000u32) % 0x100u32 == 0u32 && bits
            % 0x80_0000u32 == 0u32)) by (bit_vector);
        bits & MAGNITUDE_MASK == 0
    }

    /// The number without its sign.
    pub fn abs(&self) -> (m: Scalar)
        ensures
            m == self.magnitude(),
            !m.sign(),
            m.exponent() == self.exponent(),
            m.fraction() == self.fraction(),
    {
        let bits: u32 = self.bits;
        assert(bits & 0x7FFF_FFFFu32 == (if bits >= 0x8000_0000u32 {
            (bits - 0x8000_0000u32) as u32
        } else {
            bits
        })) by (bit_vector);
        Scalar { bits: bits & MAGNITUDE_MASK }
    }

    /// The magnitude of a finite number; the fallback where the number is
    /// infinite or NaN.
    pub fn sanitized(&self, fallback: Scalar) -> (s: Scalar)
        ensures
            s == self.sanitized_spec(fallback),
    {
        if self.is_finite() {
            self.abs()
        } else {
            fallback
        }
    }

    /// The magnitude of a finite number that is not zero; the fallback where
    /// the number is zero, infinite or NaN.
    pub fn positive_or(&self, fallback: Scalar) -> (s: Scalar)
        ensures
            s == self.positive_or_spec(fallback),
    {
        if self.is_finite() && !self.is_zero() {
            self.abs()
        } else {
            fallback
        }
    }
}

/// Dropping the sign keeps a number finite, or not finite, as it was, and
/// makes any number but a zero or a NaN-or-infinity positive; doing it twice
/// is doing it once.
pub proof fn lemma_magnitude(s: Scalar)
    ensures
        !s.magnitude().sign(),
        s.magnitude().exponent() == s.exponent(),
        s.magnitude().fraction() == s.fraction(),
        s.magnitude().is_finite_spec() == s.is_finite_spec(),
        s.magnitude().is_zero_spec() == s.is_zero_spec(),
        s.magnitude().magnitude() == s.magnitude(),
        !s.sign() ==> s.magnitude() == s,
{
}

/// With a fallback that is finite and unsigned, the sanitized number is
/// finite and unsigned whatever the input was, and sanitizing it again
/// changes nothing.
pub proof fn lemma_sanitized(s: Scalar, fallback: Scalar)
    requires
        fallback.is_finite_spec(),
        !fallback.sign(),
    ensures
        s.sanitized_spec(fallback).is_finite_spec(),
        !s.sanitized_spec(fallback).sign(),
        s.sanitized_spec(fallback).sanitized_spec(fallback) == s.sanitized_spec(fallback),
        s.is_finite_spec() && !s.sign() ==> s.sanitized_spec(fallback) == s,
{
    lemma_magnitude(s);
}

/// With a positive fallback, the result of `positive_or` is positive
/// whatever the input was, a positive input is kept as it is, and applying
/// it again changes nothing.
pub proof fn lemma_positive_or(s: Scalar, fallback: Scalar)
    requires
        fallback.is_positive(),
    ensures
        s.positive_or_spec(fallback).is_positive(),
        s.positive_or_spec(fallback).positive_or_spec(fallback) == s.positive_or_spec(fallback),
        s.is_positive() ==> s.positive_or_spec(fallback) == s,
{
    lemma_magnitude(s);
}

} // verus!
