//! The unsigned-over-signed wire codecs.
//!
//! The wire format's native integer columns are signed, while the domain
//! wants unsigned identifiers. [`PgU32`] stores a `u32` in a signed 64-bit
//! column; [`PgU64`] stores a `u64` in an arbitrary-precision decimal
//! column. Decoding validates the wire value and reports a typed reason on
//! failure; encoding is always lossless, and a left inverse of decoding.

use crate::decimal::frac_nonzero;
use crate::decimal::is_negative_value;
use crate::decimal::lemma_zero_value;
use crate::decimal::mag_and_frac;
use crate::decimal::mag_floor;
use crate::decimal::exceeds_u64;
use crate::decimal::WireDecimal;
use crate::error::NumericU32Error;
use crate::error::NumericU64Error;
use vstd::prelude::*;

verus! {

/// A `u32` carried by a signed 64-bit wire column.
#[derive(Debug, Copy, Clone, Default, PartialOrd, Ord, PartialEq, Eq, Hash, Structural)]
pub struct PgU32(pub u32);

/// A `u64` carried by an arbitrary-precision decimal wire column.
#[derive(Debug, Copy, Clone, Default, PartialOrd, Ord, PartialEq, Eq, Hash, Structural)]
pub struct PgU64(pub u64);

impl PgU32 {
    /// What decoding a signed 64-bit wire value yields: the value narrowed
    /// to `u32` when it is in range, and the first applicable reason
    /// (overflow before negativity) otherwise.
    pub open spec fn decode_spec(wire: i64) -> Result<PgU32, NumericU32Error> {
        if wire > u32::MAX as i64 {
            Err(NumericU32Error::Overflow)
        } else if wire < 0 {
            Err(NumericU32Error::Negative)
        } else {
            Ok(PgU32(wire as u32))
        }
    }

    /// The signed 64-bit wire value this `u32` is stored as.
    pub open spec fn encode_spec(self) -> i64 {
        self.0 as i64
    }

    /// Decode a signed 64-bit wire value, rejecting values above
    /// `u32::MAX` as `Overflow` and negative values as `Negative`.
    pub fn decode_wire(wire: i64) -> (r: Result<PgU32, NumericU32Error>)
        ensures
            r == Self::decode_spec(wire),
    {
        if wire > u32::MAX as i64 {
            Err(NumericU32Error::Overflow)
        } else if wire < 0 {
            Err(NumericU32Error::Negative)
        } else {
            Ok(PgU32(wire as u32))
        }
    }

    /// Widen back to the signed 64-bit wire value; always lossless.
    pub fn encode_wire(&self) -> (r: i64)
        ensures
            r == self.encode_spec(),
    {
        self.0 as i64
    }

    /// Wrap a value that is already known valid; no wire decoding happens.
    pub fn assume_valid(f: u32) -> (r: Self)
        ensures
            r == PgU32(f),
    {
        PgU32(f)
    }

    /// The wrapped value.
    pub fn inner(&self) -> (r: &u32)
        ensures
            *r == self.0,
    {
        &self.0
    }
}

impl From<u32> for PgU32 {
    /// The direct lift from the native unsigned primitive.
    fn from(u: u32) -> (r: Self) {
        PgU32(u)
    }
}

impl vstd::std_specs::convert::FromSpecImpl<u32> for PgU32 {
    open spec fn obeys_from_spec() -> bool {
        true
    }

    open spec fn from_spec(u: u32) -> Self {
        PgU32(u)
    }
}

impl From<PgU32> for u32 {
    /// Unwrap back to the native unsigned primitive.
    fn from(w: PgU32) -> (r: u32) {
        w.0
    }
}

impl vstd::std_specs::convert::FromSpecImpl<PgU32> for u32 {
    open spec fn obeys_from_spec() -> bool {
        true
    }

    open spec fn from_spec(w: PgU32) -> u32 {
        w.0
    }
}

/// Law: decoding what was encoded restores every `u32`.
pub proof fn theorem_pgu32_decode_encode(v: PgU32)
    ensures
        PgU32::decode_spec(v.encode_spec()) == Ok::<PgU32, NumericU32Error>(v),
{
}

/// Law: every signed 64-bit wire value above `u32::MAX` is rejected as
/// `Overflow`.
pub proof fn theorem_pgu32_overflow(wire: i64)
    requires
        wire > u32::MAX as i64,
    ensures
        PgU32::decode_spec(wire) == Err::<PgU32, NumericU32Error>(NumericU32Error::Overflow),
{
}

/// Law: every negative signed 64-bit wire value is rejected as `Negative`.
pub proof fn theorem_pgu32_negative(wire: i64)
    requires
        wire < 0,
    ensures
        PgU32::decode_spec(wire) == Err::<PgU32, NumericU32Error>(NumericU32Error::Negative),
{
}

impl PgU64 {
    /// What decoding a decimal wire value yields, by the first applicable
    /// reason: a value above `u64::MAX` is `Overflow`, a negative value is
    /// `Negative`, a non-integral value is `Decimal`; what remains is a
    /// `u64` and decodes to it. No input is ever `Unknown`.
    pub open spec fn decode_spec(d: WireDecimal) -> Result<PgU64, NumericU64Error> {
        if !is_negative_value(d) && exceeds_u64(d) {
            Err(NumericU64Error::Overflow)
        } else if is_negative_value(d) {
            Err(NumericU64Error::Negative)
        } else if frac_nonzero(d) {
            Err(NumericU64Error::Decimal)
        } else {
            Ok(PgU64(mag_floor(d) as u64))
        }
    }

    /// Decode a decimal wire value.
    pub fn decode_wire(d: &WireDecimal) -> (r: Result<PgU64, NumericU64Error>)
        requires
            d.wf(),
        ensures
            r == Self::decode_spec(*d),
    {
        let (mag, frac) = mag_and_frac(d);
        proof {
            lemma_zero_value(*d);
        }
        match mag {
            None => {
                if d.negative {
                    Err(NumericU64Error::Negative)
                } else {
                    Err(NumericU64Error::Overflow)
                }
            },
            Some(m) => {
                let zero = m == 0 && !frac;
                let neg = d.negative && !zero;
                if !neg && m == u64::MAX && frac {
                    Err(NumericU64Error::Overflow)
                } else if neg {
                    Err(NumericU64Error::Negative)
                } else if frac {
                    Err(NumericU64Error::Decimal)
                } else {
                    Ok(PgU64(m))
                }
            },
        }
    }

    /// Encode as an exact, integral, non-negative decimal wire value;
    /// always lossless: decoding the result restores `self`.
    pub fn encode_wire(&self) -> (r: WireDecimal)
        ensures
            r.wf(),
            mag_floor(r) == self.0 as nat,
            !frac_nonzero(r),
            !is_negative_value(r),
            Self::decode_spec(r) == Ok::<PgU64, NumericU64Error>(*self),
    {
        WireDecimal::from_u64(self.0)
    }

    /// Wrap a value that is already known valid; no wire decoding happens.
    pub fn assume_valid(f: u64) -> (r: Self)
        ensures
            r == PgU64(f),
    {
        PgU64(f)
    }

    /// The wrapped value.
    pub fn inner(&self) -> (r: &u64)
        ensures
            *r == self.0,
    {
        &self.0
    }
}

impl From<u64> for PgU64 {
    /// The direct lift from the native unsigned primitive.
    fn from(u: u64) -> (r: Self) {
        PgU64(u)
    }
}

impl vstd::std_specs::convert::FromSpecImpl<u64> for PgU64 {
    open spec fn obeys_from_spec() -> bool {
        true
    }

    open spec fn from_spec(u: u64) -> Self {
        PgU64(u)
    }
}

impl From<PgU64> for u64 {
    /// Unwrap back to the native unsigned primitive.
    fn from(w: PgU64) -> (r: u64) {
        w.0
    }
}

impl vstd::std_specs::convert::FromSpecImpl<PgU64> for u64 {
    open spec fn obeys_from_spec() -> bool {
        true
    }

    open spec fn from_spec(w: PgU64) -> u64 {
        w.0
    }
}

/// Law: any decimal wire value carrying exactly the integer `v` — integral,
/// non-negative, of magnitude `v` — decodes to `v`. Together with the
/// contract of `encode_wire`, decoding what was encoded restores every
/// `u64`.
pub proof fn theorem_pgu64_decode_encode(v: u64, d: WireDecimal)
    requires
        d.wf(),
        !is_negative_value(d),
        !frac_nonzero(d),
        mag_floor(d) == v as nat,
    ensures
        PgU64::decode_spec(d) == Ok::<PgU64, NumericU64Error>(PgU64(v)),
{
}

/// Law: a non-negative decimal wire value with a non-zero fractional part
/// whose integer part stays below `u64::MAX` is rejected as `Decimal`.
/// (A negative such value is rejected as `Negative` instead, and one lying
/// strictly between `u64::MAX` and `u64::MAX + 1` as `Overflow`.)
pub proof fn theorem_pgu64_fractional_rejected(d: WireDecimal)
    requires
        d.wf(),
        frac_nonzero(d),
        !is_negative_value(d),
        mag_floor(d) < u64::MAX,
    ensures
        PgU64::decode_spec(d) == Err::<PgU64, NumericU64Error>(NumericU64Error::Decimal),
{
}

/// Law: the defensive `Unknown` reason is unreachable: no decimal wire
/// value decodes to it.
pub proof fn theorem_pgu64_no_unknown(d: WireDecimal)
    ensures
        PgU64::decode_spec(d) != Err::<PgU64, NumericU64Error>(NumericU64Error::Unknown),
{
}

} // verus!
