//! The signed-magnitude accumulator.
//!
//! [`SignedU64`] represents a quantity that can go negative while storing
//! a full `u64` magnitude and a sign flag separately, which a native
//! signed 64-bit integer could not hold without loss. A magnitude of zero
//! is semantically signless: equality and ordering treat a negative zero
//! and a positive zero as the same value. Every operation's contract is
//! stated over [`SignedU64::value`], the integer a pair of fields denotes.

use core::cmp::Ordering;

use crate::decimal::frac_nonzero;
use crate::decimal::is_negative_value;
use crate::decimal::lemma_zero_value;
use crate::decimal::mag_and_frac;
use crate::decimal::mag_floor;
use crate::decimal::exceeds_u64;
use crate::decimal::WireDecimal;
use crate::error::NumericU64Error;
use vstd::prelude::*;

verus! {

/// A signed-magnitude 64-bit accumulator: a magnitude and a sign flag.
/// The fields may literally encode a negative zero; equality and ordering
/// collapse it with positive zero.
#[derive(Debug, Copy, Clone, Hash)]
pub struct SignedU64 {
    /// The magnitude.
    pub total: u64,
    /// The sign flag; irrelevant when `total` is zero.
    pub is_negative: bool,
}

impl SignedU64 {
    /// The integer this pair of fields denotes.
    pub open spec fn value(self) -> int {
        if self.is_negative {
            -(self.total as int)
        } else {
            self.total as int
        }
    }

    /// The negation: the sign flag flipped, the magnitude kept.
    pub open spec fn neg_spec(self) -> SignedU64 {
        SignedU64 { total: self.total, is_negative: !self.is_negative }
    }

    /// How two values order: by the integers they denote, which collapses
    /// signed zero.
    pub open spec fn cmp_spec(a: SignedU64, b: SignedU64) -> Ordering {
        if a.value() < b.value() {
            Ordering::Less
        } else if a.value() == b.value() {
            Ordering::Equal
        } else {
            Ordering::Greater
        }
    }

    /// The zero value, positively signed.
    pub fn zero() -> (r: Self)
        ensures
            r.total == 0,
            !r.is_negative,
            r.value() == 0,
    {
        SignedU64 { total: 0, is_negative: false }
    }

    /// Whether this value denotes zero, whatever its sign flag.
    pub fn is_zero(&self) -> (r: bool)
        ensures
            r == (self.value() == 0),
    {
        self.total == 0
    }

    /// Negation: flips the sign flag only; negating a zero changes nothing
    /// observable.
    pub fn neg(self) -> (r: Self)
        ensures
            r == self.neg_spec(),
            r.value() == -self.value(),
    {
        SignedU64 { total: self.total, is_negative: !self.is_negative }
    }

    /// Add `other` into `self`. Matching signs add the magnitudes; opposed
    /// signs subtract the smaller magnitude from the larger, which then
    /// lends its sign. The magnitude of the sum must fit.
    pub fn add_assign(&mut self, other: Self)
        requires
            -(u64::MAX as int) <= old(self).value() + other.value() <= u64::MAX as int,
        ensures
            final(self).value() == old(self).value() + other.value(),
    {
        if self.is_negative == other.is_negative {
            self.total = self.total + other.total;
        } else {
            if self.total >= other.total {
                self.total = self.total - other.total;
            } else {
                self.total = other.total - self.total;
                self.is_negative = other.is_negative;
            }
        }
    }

    /// Addition; the magnitude of the sum must fit.
    pub fn add(self, other: Self) -> (r: Self)
        requires
            -(u64::MAX as int) <= self.value() + other.value() <= u64::MAX as int,
        ensures
            r.value() == self.value() + other.value(),
    {
        let mut cloned = self;
        cloned.add_assign(other);
        cloned
    }

    /// Subtract `other` from `self`: addition of the negation.
    pub fn sub_assign(&mut self, other: Self)
        requires
            -(u64::MAX as int) <= old(self).value() - other.value() <= u64::MAX as int,
        ensures
            final(self).value() == old(self).value() - other.value(),
    {
        self.add_assign(other.neg());
    }

    /// Subtraction: addition of the negation; the magnitude of the
    /// difference must fit.
    pub fn sub(self, other: Self) -> (r: Self)
        requires
            -(u64::MAX as int) <= self.value() - other.value() <= u64::MAX as int,
        ensures
            r.value() == self.value() - other.value(),
    {
        self.add(other.neg())
    }

    /// Multiplication: the magnitudes multiply, the signs combine by
    /// exclusive or. The product of the magnitudes must fit; a caller that
    /// cannot establish that must check beforehand, as the operation
    /// neither saturates nor wraps.
    pub fn mul(self, other: Self) -> (r: Self)
        requires
            self.total * other.total <= u64::MAX,
        ensures
            r.value() == self.value() * other.value(),
            r.total == self.total * other.total,
            r.is_negative == (self.is_negative != other.is_negative),
    {
        proof {
            let a = self.total as int;
            let b = other.total as int;
            assert((-a) * b == -(a * b) && a * (-b) == -(a * b) && (-a) * (-b) == a * b)
                by (nonlinear_arith);
        }
        let is_negative = self.is_negative != other.is_negative;
        let total = self.total * other.total;
        SignedU64 { total, is_negative }
    }

    /// Scaling by a plain unsigned factor: the magnitude scales, the sign
    /// is kept. The scaled magnitude must fit.
    pub fn mul_u64(self, other: u64) -> (r: Self)
        requires
            self.total * other <= u64::MAX,
        ensures
            r.value() == self.value() * other,
            r.total == self.total * other,
            r.is_negative == self.is_negative,
    {
        proof {
            let a = self.total as int;
            let b = other as int;
            assert((-a) * b == -(a * b)) by (nonlinear_arith);
        }
        let total = self.total * other;
        SignedU64 { total, is_negative: self.is_negative }
    }

    /// Total comparison by denoted value: any zero equals any zero; a
    /// negative non-zero value sits below every zero and every positive
    /// value; magnitudes order negatives descending and positives
    /// ascending.
    pub fn cmp(&self, other: &Self) -> (r: Ordering)
        ensures
            r == Self::cmp_spec(*self, *other),
    {
        if self.total == 0 && other.total == 0 {
            return Ordering::Equal;
        }
        match (self.is_negative, other.is_negative) {
            (true, false) => Ordering::Less,
            (true, true) => {
                if other.total < self.total {
                    Ordering::Less
                } else if other.total == self.total {
                    Ordering::Equal
                } else {
                    Ordering::Greater
                }
            },
            (false, true) => Ordering::Greater,
            (false, false) => {
                if self.total < other.total {
                    Ordering::Less
                } else if self.total == other.total {
                    Ordering::Equal
                } else {
                    Ordering::Greater
                }
            },
        }
    }

    /// What decoding a decimal wire value yields: the sign is captured
    /// from the wire value, a magnitude beyond `u64::MAX` is `Overflow`, a
    /// non-integral value is `Decimal`. The checks are exhaustive: no
    /// input reaches the defensive `Unknown` reason.
    pub open spec fn decode_spec(d: WireDecimal) -> Result<SignedU64, NumericU64Error> {
        if exceeds_u64(d) {
            Err(NumericU64Error::Overflow)
        } else if frac_nonzero(d) {
            Err(NumericU64Error::Decimal)
        } else {
            Ok(
                SignedU64 {
                    total: mag_floor(d) as u64,
                    is_negative: is_negative_value(d),
                },
            )
        }
    }

    /// Decode a decimal wire value, capturing its sign.
    pub fn decode_wire(d: &WireDecimal) -> (r: Result<SignedU64, NumericU64Error>)
        requires
            d.wf(),
        ensures
            r == Self::decode_spec(*d),
    {
        let (mag, frac) = mag_and_frac(d);
        proof {
            lemma_zero_value(*d);
        }
        match mag {
            None => Err(NumericU64Error::Overflow),
            Some(m) => {
                if m == u64::MAX && frac {
                    Err(NumericU64Error::Overflow)
                } else if frac {
                    Err(NumericU64Error::Decimal)
                } else {
                    Ok(SignedU64 { total: m, is_negative: d.negative && m != 0 })
                }
            },
        }
    }

    /// Encode as an exact integral decimal wire value, re-signed from the
    /// sign flag; always lossless up to the zero-collapsing equality:
    /// decoding the result restores the denoted value.
    pub fn encode_wire(&self) -> (r: WireDecimal)
        ensures
            r.wf(),
            mag_floor(r) == self.total as nat,
            !frac_nonzero(r),
            is_negative_value(r) == (self.is_negative && self.total != 0),
            Self::decode_spec(r) matches Ok(v) && v.value() == self.value(),
    {
        WireDecimal::from_u64_signed(self.total, self.is_negative)
    }
}

impl PartialEq for SignedU64 {
    /// Equality of the denoted values: collapses signed zero.
    fn eq(&self, other: &Self) -> (r: bool) {
        if self.total == 0 && other.total == 0 {
            true
        } else {
            self.is_negative == other.is_negative && self.total == other.total
        }
    }
}

impl vstd::std_specs::cmp::PartialEqSpecImpl for SignedU64 {
    open spec fn obeys_eq_spec() -> bool {
        true
    }

    open spec fn eq_spec(&self, other: &Self) -> bool {
        self.value() == other.value()
    }
}

impl Eq for SignedU64 {

}

impl PartialOrd for SignedU64 {
    /// Ordering of the denoted values; always defined.
    fn partial_cmp(&self, other: &Self) -> (r: Option<Ordering>) {
        Some(self.cmp(other))
    }
}

impl vstd::std_specs::cmp::PartialOrdSpecImpl for SignedU64 {
    open spec fn obeys_partial_cmp_spec() -> bool {
        true
    }

    open spec fn partial_cmp_spec(&self, other: &Self) -> Option<Ordering> {
        Some(SignedU64::cmp_spec(*self, *other))
    }
}

impl Default for SignedU64 {
    /// The zero value, positively signed.
    fn default() -> (r: Self)
        ensures
            r.total == 0,
            !r.is_negative,
            r.value() == 0,
    {
        SignedU64 { total: 0, is_negative: false }
    }
}

impl From<u64> for SignedU64 {
    /// Lift an unsigned integer; the sign is positive.
    fn from(v: u64) -> (r: Self) {
        SignedU64 { total: v, is_negative: false }
    }
}

impl vstd::std_specs::convert::FromSpecImpl<u64> for SignedU64 {
    open spec fn obeys_from_spec() -> bool {
        true
    }

    open spec fn from_spec(v: u64) -> Self {
        SignedU64 { total: v, is_negative: false }
    }
}

/// Law: a value denotes zero exactly when its magnitude is zero, whatever
/// its sign flag.
pub proof fn theorem_zero_is_signless(a: SignedU64)
    ensures
        a.value() == 0 <==> a.total == 0,
{
}

/// Law: subtraction is addition of the negation — the denoted results
/// agree for all operands.
pub proof fn theorem_sub_is_add_of_neg(a: SignedU64, b: SignedU64)
    ensures
        a.value() - b.value() == a.value() + b.neg_spec().value(),
{
}

/// Law: adding a value's negation cancels to magnitude zero.
pub proof fn theorem_add_neg_cancels(a: SignedU64)
    ensures
        a.value() + a.neg_spec().value() == 0,
{
}

/// Law: negation is an involution — magnitude and sign flag both restored
/// exactly.
pub proof fn theorem_neg_involution(a: SignedU64)
    ensures
        a.neg_spec().neg_spec() == a,
{
}

/// Law: any exact integral decimal wire value carrying a magnitude that
/// fits decodes to that magnitude under the captured sign.
pub proof fn theorem_signed_decode_encode(s: SignedU64, d: WireDecimal)
    requires
        d.wf(),
        mag_floor(d) == s.total as nat,
        !frac_nonzero(d),
        is_negative_value(d) == (s.is_negative && s.total != 0),
    ensures
        SignedU64::decode_spec(d) matches Ok(v) && v.value() == s.value(),
{
}

} // verus!
