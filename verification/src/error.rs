//! Typed reasons for conversion failures.
//!
//! Every decode failure reports a domain-specific reason, never a bare
//! boolean. The variants follow the detection order of the codecs: a value
//! beyond the target range is `Overflow`, a negative value aimed at an
//! unsigned target is `Negative`, a fractional value aimed at an integral
//! target is `Decimal`, and `Unknown` is a defensive catch-all that the
//! verified decoders never produce.

use vstd::prelude::*;

verus! {

/// Failure reasons when decoding a numeric wire value into a `u64` domain.
#[derive(Debug, Copy, Clone, PartialEq, Eq, Hash, Structural)]
pub enum NumericU64Error {
    /// The value exceeds `u64::MAX`.
    Overflow,
    /// The value is negative but the target is unsigned.
    Negative,
    /// The value has a non-zero fractional part but the target is integral.
    Decimal,
    /// Defensive catch-all; unreachable from the decoders of this crate.
    Unknown,
}

/// Failure reasons when decoding a signed 64-bit wire value into a `u32`.
#[derive(Debug, Copy, Clone, PartialEq, Eq, Hash, Structural)]
pub enum NumericU32Error {
    /// The value exceeds `u32::MAX`.
    Overflow,
    /// The value is negative but the target is unsigned.
    Negative,
}

/// Failure reasons when constructing a level from a signed integer.
#[derive(Debug, Copy, Clone, PartialEq, Eq, Hash, Structural)]
pub enum LevelError {
    /// The value exceeds the representable range.
    Overflow,
    /// The value is negative.
    Negative,
}

/// Failure reason when decoding an enumerated domain code.
#[derive(Debug, Copy, Clone, PartialEq, Eq, Hash, Structural)]
pub enum EncodingError {
    /// The wire token is outside the enumeration's recognized set.
    InvalidEncoding,
}

} // verus!
