//! Identifier newtypes.
//!
//! Every entity identifier is its own type instead of a bare integer, so
//! that ids of different entities cannot be interchanged by accident. The
//! types carry no behaviour of their own: each one instantiates the scalar
//! conversion protocol over a single primitive. The chat-platform ids are
//! unsigned 64-bit values stored through the [`PgU64`] codec; the
//! remaining ids are native signed wire integers stored as they are.

use crate::codec::PgU64;
use crate::decimal::WireDecimal;
use crate::error::NumericU64Error;
use vstd::prelude::*;

verus! {

/// Identifies a chat-platform user; an unsigned 64-bit value stored through the
/// [`PgU64`] codec.
#[derive(Debug, Copy, Clone, PartialOrd, Ord, PartialEq, Eq, Hash, Structural)]
pub struct DiscordUserId(pub u64);

impl DiscordUserId {
    /// Wrap a value that is already known valid.
    pub fn assume_valid(f: u64) -> (r: Self)
        ensures
            r == DiscordUserId(f),
    {
        DiscordUserId(f)
    }

    /// The wrapped value.
    pub fn inner(&self) -> (r: &u64)
        ensures
            *r == self.0,
    {
        &self.0
    }

    /// Decode a decimal wire value through the [`PgU64`] codec.
    pub fn decode_wire(d: &WireDecimal) -> (r: Result<DiscordUserId, NumericU64Error>)
        requires
            d.wf(),
        ensures
            r matches Ok(v) ==> PgU64::decode_spec(*d) == Ok::<PgU64, NumericU64Error>(
                PgU64(v.0),
            ),
            r matches Err(e) ==> PgU64::decode_spec(*d) == Err::<PgU64, NumericU64Error>(e),
    {
        match PgU64::decode_wire(d) {
            Ok(p) => Ok(DiscordUserId(*p.inner())),
            Err(e) => Err(e),
        }
    }

    /// Encode as an exact decimal wire value; always lossless.
    pub fn encode_wire(&self) -> (r: WireDecimal)
        ensures
            r.wf(),
            PgU64::decode_spec(r) == Ok::<PgU64, NumericU64Error>(PgU64(self.0)),
    {
        PgU64::assume_valid(self.0).encode_wire()
    }
}

/// Identifies a chat-platform message; an unsigned 64-bit value stored through the
/// [`PgU64`] codec.
#[derive(Debug, Copy, Clone, PartialOrd, Ord, PartialEq, Eq, Hash, Structural)]
pub struct DiscordMessageId(pub u64);

impl DiscordMessageId {
    /// Wrap a value that is already known valid.
    pub fn assume_valid(f: u64) -> (r: Self)
        ensures
            r == DiscordMessageId(f),
    {
        DiscordMessageId(f)
    }

    /// The wrapped value.
    pub fn inner(&self) -> (r: &u64)
        ensures
            *r == self.0,
    {
        &self.0
    }

    /// Decode a decimal wire value through the [`PgU64`] codec.
    pub fn decode_wire(d: &WireDecimal) -> (r: Result<DiscordMessageId, NumericU64Error>)
        requires
            d.wf(),
        ensures
            r matches Ok(v) ==> PgU64::decode_spec(*d) == Ok::<PgU64, NumericU64Error>(
                PgU64(v.0),
            ),
            r matches Err(e) ==> PgU64::decode_spec(*d) == Err::<PgU64, NumericU64Error>(e),
    {
        match PgU64::decode_wire(d) {
            Ok(p) => Ok(DiscordMessageId(*p.inner())),
            Err(e) => Err(e),
        }
    }

    /// Encode as an exact decimal wire value; always lossless.
    pub fn encode_wire(&self) -> (r: WireDecimal)
        ensures
            r.wf(),
            PgU64::decode_spec(r) == Ok::<PgU64, NumericU64Error>(PgU64(self.0)),
    {
        PgU64::assume_valid(self.0).encode_wire()
    }
}

/// Identifies a chat-platform interaction; an unsigned 64-bit value stored through the
/// [`PgU64`] codec.
#[derive(Debug, Copy, Clone, PartialOrd, Ord, PartialEq, Eq, Hash, Structural)]
pub struct DiscordInteractionId(pub u64);

impl DiscordInteractionId {
    /// Wrap a value that is already known valid.
    pub fn assume_valid(f: u64) -> (r: Self)
        ensures
            r == DiscordInteractionId(f),
    {
        DiscordInteractionId(f)
    }

    /// The wrapped value.
    pub fn inner(&self) -> (r: &u64)
        ensures
            *r == self.0,
    {
        &self.0
    }

    /// Decode a decimal wire value through the [`PgU64`] codec.
    pub fn decode_wire(d: &WireDecimal) -> (r: Result<DiscordInteractionId, NumericU64Error>)
        requires
            d.wf(),
        ensures
            r matches Ok(v) ==> PgU64::decode_spec(*d) == Ok::<PgU64, NumericU64Error>(
                PgU64(v.0),
            ),
            r matches Err(e) ==> PgU64::decode_spec(*d) == Err::<PgU64, NumericU64Error>(e),
    {
        match PgU64::decode_wire(d) {
            Ok(p) => Ok(DiscordInteractionId(*p.inner())),
            Err(e) => Err(e),
        }
    }

    /// Encode as an exact decimal wire value; always lossless.
    pub fn encode_wire(&self) -> (r: WireDecimal)
        ensures
            r.wf(),
            PgU64::decode_spec(r) == Ok::<PgU64, NumericU64Error>(PgU64(self.0)),
    {
        PgU64::assume_valid(self.0).encode_wire()
    }
}

/// Identifies a chat-platform channel; an unsigned 64-bit value stored through the
/// [`PgU64`] codec.
#[derive(Debug, Copy, Clone, PartialOrd, Ord, PartialEq, Eq, Hash, Structural)]
pub struct DiscordChannelId(pub u64);

impl DiscordChannelId {
    /// Wrap a value that is already known valid.
    pub fn assume_valid(f: u64) -> (r: Self)
        ensures
            r == DiscordChannelId(f),
    {
        DiscordChannelId(f)
    }

    /// The wrapped value.
    pub fn inner(&self) -> (r: &u64)
        ensures
            *r == self.0,
    {
        &self.0
    }

    /// Decode a decimal wire value through the [`PgU64`] codec.
    pub fn decode_wire(d: &WireDecimal) -> (r: Result<DiscordChannelId, NumericU64Error>)
        requires
            d.wf(),
        ensures
            r matches Ok(v) ==> PgU64::decode_spec(*d) == Ok::<PgU64, NumericU64Error>(
                PgU64(v.0),
            ),
            r matches Err(e) ==> PgU64::decode_spec(*d) == Err::<PgU64, NumericU64Error>(e),
    {
        match PgU64::decode_wire(d) {
            Ok(p) => Ok(DiscordChannelId(*p.inner())),
            Err(e) => Err(e),
        }
    }

    /// Encode as an exact decimal wire value; always lossless.
    pub fn encode_wire(&self) -> (r: WireDecimal)
        ensures
            r.wf(),
            PgU64::decode_spec(r) == Ok::<PgU64, NumericU64Error>(PgU64(self.0)),
    {
        PgU64::assume_valid(self.0).encode_wire()
    }
}

/// Identifies a chat-platform guild; an unsigned 64-bit value stored through the
/// [`PgU64`] codec.
#[derive(Debug, Copy, Clone, PartialOrd, Ord, PartialEq, Eq, Hash, Structural)]
pub struct DiscordGuildId(pub u64);

impl DiscordGuildId {
    /// Wrap a value that is already known valid.
    pub fn assume_valid(f: u64) -> (r: Self)
        ensures
            r == DiscordGuildId(f),
    {
        DiscordGuildId(f)
    }

    /// The wrapped value.
    pub fn inner(&self) -> (r: &u64)
        ensures
            *r == self.0,
    {
        &self.0
    }

    /// Decode a decimal wire value through the [`PgU64`] codec.
    pub fn decode_wire(d: &WireDecimal) -> (r: Result<DiscordGuildId, NumericU64Error>)
        requires
            d.wf(),
        ensures
            r matches Ok(v) ==> PgU64::decode_spec(*d) == Ok::<PgU64, NumericU64Error>(
                PgU64(v.0),
            ),
            r matches Err(e) ==> PgU64::decode_spec(*d) == Err::<PgU64, NumericU64Error>(e),
    {
        match PgU64::decode_wire(d) {
            Ok(p) => Ok(DiscordGuildId(*p.inner())),
            Err(e) => Err(e),
        }
    }

    /// Encode as an exact decimal wire value; always lossless.
    pub fn encode_wire(&self) -> (r: WireDecimal)
        ensures
            r.wf(),
            PgU64::decode_spec(r) == Ok::<PgU64, NumericU64Error>(PgU64(self.0)),
    {
        PgU64::assume_valid(self.0).encode_wire()
    }
}

/// Identifies a chat-platform role; an unsigned 64-bit value stored through the
/// [`PgU64`] codec.
#[derive(Debug, Copy, Clone, PartialOrd, Ord, PartialEq, Eq, Hash, Structural)]
pub struct DiscordRoleId(pub u64);

impl DiscordRoleId {
    /// Wrap a value that is already known valid.
    pub fn assume_valid(f: u64) -> (r: Self)
        ensures
            r == DiscordRoleId(f),
    {
        DiscordRoleId(f)
    }

    /// The wrapped value.
    pub fn inner(&self) -> (r: &u64)
        ensures
            *r == self.0,
    {
        &self.0
    }

    /// Decode a decimal wire value through the [`PgU64`] codec.
    pub fn decode_wire(d: &WireDecimal) -> (r: Result<DiscordRoleId, NumericU64Error>)
        requires
            d.wf(),
        ensures
            r matches Ok(v) ==> PgU64::decode_spec(*d) == Ok::<PgU64, NumericU64Error>(
                PgU64(v.0),
            ),
            r matches Err(e) ==> PgU64::decode_spec(*d) == Err::<PgU64, NumericU64Error>(e),
    {
        match PgU64::decode_wire(d) {
            Ok(p) => Ok(DiscordRoleId(*p.inner())),
            Err(e) => Err(e),
        }
    }

    /// Encode as an exact decimal wire value; always lossless.
    pub fn encode_wire(&self) -> (r: WireDecimal)
        ensures
            r.wf(),
            PgU64::decode_spec(r) == Ok::<PgU64, NumericU64Error>(PgU64(self.0)),
    {
        PgU64::assume_valid(self.0).encode_wire()
    }
}

/// An identifier stored as a native signed wire integer.
#[derive(Debug, Copy, Clone, PartialOrd, Ord, PartialEq, Eq, Hash, Structural)]
pub struct UserJourneyId(pub i64);

impl UserJourneyId {
    /// Wrap a value that is already known valid.
    pub fn assume_valid(f: i64) -> (r: Self)
        ensures
            r == UserJourneyId(f),
    {
        UserJourneyId(f)
    }

    /// The wrapped value.
    pub fn inner(&self) -> (r: &i64)
        ensures
            *r == self.0,
    {
        &self.0
    }
}

/// An identifier stored as a native signed wire integer.
#[derive(Debug, Copy, Clone, PartialOrd, Ord, PartialEq, Eq, Hash, Structural)]
pub struct UserJourneyUIId(pub i64);

impl UserJourneyUIId {
    /// Wrap a value that is already known valid.
    pub fn assume_valid(f: i64) -> (r: Self)
        ensures
            r == UserJourneyUIId(f),
    {
        UserJourneyUIId(f)
    }

    /// The wrapped value.
    pub fn inner(&self) -> (r: &i64)
        ensures
            *r == self.0,
    {
        &self.0
    }
}

/// An identifier stored as a native signed wire integer.
#[derive(Debug, Copy, Clone, PartialOrd, Ord, PartialEq, Eq, Hash, Structural)]
pub struct UIMessageId(pub i64);

impl UIMessageId {
    /// Wrap a value that is already known valid.
    pub fn assume_valid(f: i64) -> (r: Self)
        ensures
            r == UIMessageId(f),
    {
        UIMessageId(f)
    }

    /// The wrapped value.
    pub fn inner(&self) -> (r: &i64)
        ensures
            *r == self.0,
    {
        &self.0
    }
}

/// An identifier stored as a native signed wire integer.
#[derive(Debug, Copy, Clone, PartialOrd, Ord, PartialEq, Eq, Hash, Structural)]
pub struct ActionId(pub i64);

impl ActionId {
    /// Wrap a value that is already known valid.
    pub fn assume_valid(f: i64) -> (r: Self)
        ensures
            r == ActionId(f),
    {
        ActionId(f)
    }

    /// The wrapped value.
    pub fn inner(&self) -> (r: &i64)
        ensures
            *r == self.0,
    {
        &self.0
    }
}

/// An identifier stored as a native signed wire integer.
#[derive(Debug, Copy, Clone, PartialOrd, Ord, PartialEq, Eq, Hash, Structural)]
pub struct ClassChangeCommandId(pub i64);

impl ClassChangeCommandId {
    /// Wrap a value that is already known valid.
    pub fn assume_valid(f: i64) -> (r: Self)
        ensures
            r == ClassChangeCommandId(f),
    {
        ClassChangeCommandId(f)
    }

    /// The wrapped value.
    pub fn inner(&self) -> (r: &i64)
        ensures
            *r == self.0,
    {
        &self.0
    }
}

/// An identifier stored as a native signed wire integer.
#[derive(Debug, Copy, Clone, PartialOrd, Ord, PartialEq, Eq, Hash, Structural)]
pub struct DepositCommandId(pub i64);

impl DepositCommandId {
    /// Wrap a value that is already known valid.
    pub fn assume_valid(f: i64) -> (r: Self)
        ensures
            r == DepositCommandId(f),
    {
        DepositCommandId(f)
    }

    /// The wrapped value.
    pub fn inner(&self) -> (r: &i64)
        ensures
            *r == self.0,
    {
        &self.0
    }
}

/// An identifier stored as a native signed wire integer.
#[derive(Debug, Copy, Clone, PartialOrd, Ord, PartialEq, Eq, Hash, Structural)]
pub struct TrainCommandId(pub i64);

impl TrainCommandId {
    /// Wrap a value that is already known valid.
    pub fn assume_valid(f: i64) -> (r: Self)
        ensures
            r == TrainCommandId(f),
    {
        TrainCommandId(f)
    }

    /// The wrapped value.
    pub fn inner(&self) -> (r: &i64)
        ensures
            *r == self.0,
    {
        &self.0
    }
}

/// An identifier stored as a native signed wire integer.
#[derive(Debug, Copy, Clone, PartialOrd, Ord, PartialEq, Eq, Hash, Structural)]
pub struct TrainTargetId(pub i64);

impl TrainTargetId {
    /// Wrap a value that is already known valid.
    pub fn assume_valid(f: i64) -> (r: Self)
        ensures
            r == TrainTargetId(f),
    {
        TrainTargetId(f)
    }

    /// The wrapped value.
    pub fn inner(&self) -> (r: &i64)
        ensures
            *r == self.0,
    {
        &self.0
    }
}

/// An identifier stored as a native signed wire integer.
#[derive(Debug, Copy, Clone, PartialOrd, Ord, PartialEq, Eq, Hash, Structural)]
pub struct SoloCommandId(pub i64);

impl SoloCommandId {
    /// Wrap a value that is already known valid.
    pub fn assume_valid(f: i64) -> (r: Self)
        ensures
            r == SoloCommandId(f),
    {
        SoloCommandId(f)
    }

    /// The wrapped value.
    pub fn inner(&self) -> (r: &i64)
        ensures
            *r == self.0,
    {
        &self.0
    }
}

/// An identifier stored as a native signed wire integer.
#[derive(Debug, Copy, Clone, PartialOrd, Ord, PartialEq, Eq, Hash, Structural)]
pub struct BuyCommandId(pub i64);

impl BuyCommandId {
    /// Wrap a value that is already known valid.
    pub fn assume_valid(f: i64) -> (r: Self)
        ensures
            r == BuyCommandId(f),
    {
        BuyCommandId(f)
    }

    /// The wrapped value.
    pub fn inner(&self) -> (r: &i64)
        ensures
            *r == self.0,
    {
        &self.0
    }
}

/// An identifier stored as a native signed wire integer.
#[derive(Debug, Copy, Clone, PartialOrd, Ord, PartialEq, Eq, Hash, Structural)]
pub struct TravelCommandId(pub i64);

impl TravelCommandId {
    /// Wrap a value that is already known valid.
    pub fn assume_valid(f: i64) -> (r: Self)
        ensures
            r == TravelCommandId(f),
    {
        TravelCommandId(f)
    }

    /// The wrapped value.
    pub fn inner(&self) -> (r: &i64)
        ensures
            *r == self.0,
    {
        &self.0
    }
}

/// An identifier stored as a native signed wire integer.
#[derive(Debug, Copy, Clone, PartialOrd, Ord, PartialEq, Eq, Hash, Structural)]
pub struct ItemUseCommandId(pub i64);

impl ItemUseCommandId {
    /// Wrap a value that is already known valid.
    pub fn assume_valid(f: i64) -> (r: Self)
        ensures
            r == ItemUseCommandId(f),
    {
        ItemUseCommandId(f)
    }

    /// The wrapped value.
    pub fn inner(&self) -> (r: &i64)
        ensures
            *r == self.0,
    {
        &self.0
    }
}

/// An identifier stored as a native signed wire integer.
#[derive(Debug, Copy, Clone, PartialOrd, Ord, PartialEq, Eq, Hash, Structural)]
pub struct InventoryCommandId(pub i64);

impl InventoryCommandId {
    /// Wrap a value that is already known valid.
    pub fn assume_valid(f: i64) -> (r: Self)
        ensures
            r == InventoryCommandId(f),
    {
        InventoryCommandId(f)
    }

    /// The wrapped value.
    pub fn inner(&self) -> (r: &i64)
        ensures
            *r == self.0,
    {
        &self.0
    }
}

/// An identifier stored as a native signed wire integer.
#[derive(Debug, Copy, Clone, PartialOrd, Ord, PartialEq, Eq, Hash, Structural)]
pub struct SendCommandId(pub i64);

impl SendCommandId {
    /// Wrap a value that is already known valid.
    pub fn assume_valid(f: i64) -> (r: Self)
        ensures
            r == SendCommandId(f),
    {
        SendCommandId(f)
    }

    /// The wrapped value.
    pub fn inner(&self) -> (r: &i64)
        ensures
            *r == self.0,
    {
        &self.0
    }
}

/// An identifier stored as a native signed wire integer.
#[derive(Debug, Copy, Clone, PartialOrd, Ord, PartialEq, Eq, Hash, Structural)]
pub struct TradeCommandId(pub i64);

impl TradeCommandId {
    /// Wrap a value that is already known valid.
    pub fn assume_valid(f: i64) -> (r: Self)
        ensures
            r == TradeCommandId(f),
    {
        TradeCommandId(f)
    }

    /// The wrapped value.
    pub fn inner(&self) -> (r: &i64)
        ensures
            *r == self.0,
    {
        &self.0
    }
}

/// An identifier stored as a native signed wire integer.
#[derive(Debug, Copy, Clone, PartialOrd, Ord, PartialEq, Eq, Hash, Structural)]
pub struct BotDescriptionId(pub i64);

impl BotDescriptionId {
    /// Wrap a value that is already known valid.
    pub fn assume_valid(f: i64) -> (r: Self)
        ensures
            r == BotDescriptionId(f),
    {
        BotDescriptionId(f)
    }

    /// The wrapped value.
    pub fn inner(&self) -> (r: &i64)
        ensures
            *r == self.0,
    {
        &self.0
    }
}

/// An identifier stored as a native signed wire integer.
#[derive(Debug, Copy, Clone, PartialOrd, Ord, PartialEq, Eq, Hash, Structural)]
pub struct RoleId(pub i32);

impl RoleId {
    /// Wrap a value that is already known valid.
    pub fn assume_valid(f: i32) -> (r: Self)
        ensures
            r == RoleId(f),
    {
        RoleId(f)
    }

    /// The wrapped value.
    pub fn inner(&self) -> (r: &i32)
        ensures
            *r == self.0,
    {
        &self.0
    }
}

/// An identifier stored as a native signed wire integer.
#[derive(Debug, Copy, Clone, PartialOrd, Ord, PartialEq, Eq, Hash, Structural)]
pub struct RoleUserJunctionId(pub i32);

impl RoleUserJunctionId {
    /// Wrap a value that is already known valid.
    pub fn assume_valid(f: i32) -> (r: Self)
        ensures
            r == RoleUserJunctionId(f),
    {
        RoleUserJunctionId(f)
    }

    /// The wrapped value.
    pub fn inner(&self) -> (r: &i32)
        ensures
            *r == self.0,
    {
        &self.0
    }
}

/// An identifier stored as a native signed wire integer.
#[derive(Debug, Copy, Clone, PartialOrd, Ord, PartialEq, Eq, Hash, Structural)]
pub struct DiscordRoleRoleJunctionId(pub i32);

impl DiscordRoleRoleJunctionId {
    /// Wrap a value that is already known valid.
    pub fn assume_valid(f: i32) -> (r: Self)
        ensures
            r == DiscordRoleRoleJunctionId(f),
    {
        DiscordRoleRoleJunctionId(f)
    }

    /// The wrapped value.
    pub fn inner(&self) -> (r: &i32)
        ensures
            *r == self.0,
    {
        &self.0
    }
}

/// An identifier stored as a native signed wire integer.
#[derive(Debug, Copy, Clone, PartialOrd, Ord, PartialEq, Eq, Hash, Structural)]
pub struct RoleRestrictedCommandId(pub i32);

impl RoleRestrictedCommandId {
    /// Wrap a value that is already known valid.
    pub fn assume_valid(f: i32) -> (r: Self)
        ensures
            r == RoleRestrictedCommandId(f),
    {
        RoleRestrictedCommandId(f)
    }

    /// The wrapped value.
    pub fn inner(&self) -> (r: &i32)
        ensures
            *r == self.0,
    {
        &self.0
    }
}

} // verus!
