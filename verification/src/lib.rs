//! Strongly typed wrappers for database column values.
//!
//! The crate centres on three pieces:
//! - the unsigned-over-signed codecs [`PgU32`] and [`PgU64`], which bridge a
//!   wire format whose native integers are signed to unsigned domain values;
//! - the signed-magnitude accumulator [`SignedU64`], which stores a `u64`
//!   magnitude together with a sign flag and collapses signed zero in its
//!   equality and ordering;
//! - a family of enumerated domain codes with closed-set string or integer
//!   wire encodings.
//!
//! Every conversion is a pure function with an exact contract: decoding
//! either yields a valid value or reports a typed reason, and encoding is a
//! left inverse of decoding on all legal values.

pub mod codec;
pub mod decimal;
pub mod error;
pub mod ext;
pub mod id;
pub mod journey;
pub mod signed;
pub mod text;
pub mod values;

pub use codec::PgU32;
pub use codec::PgU64;
pub use decimal::WireDecimal;
pub use error::EncodingError;
pub use error::LevelError;
pub use error::NumericU32Error;
pub use error::NumericU64Error;
pub use journey::UserJourneyKind;
pub use signed::SignedU64;
