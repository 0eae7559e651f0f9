//! Enumerated domain codes and small value wrappers.
//!
//! Each enumeration is a closed set of variants with a canonical string or
//! integer wire encoding. Decoding matches tokens case-insensitively and
//! rejects anything outside the recognized set; encoding always produces
//! the canonical token. The value wrappers at the end of the module are
//! instances of the scalar conversion protocol over one primitive each.

use core::cmp::Ordering;

use crate::codec::PgU32;
use crate::codec::PgU64;
use crate::decimal::WireDecimal;
use crate::error::EncodingError;
use crate::error::LevelError;
use crate::error::NumericU32Error;
use crate::error::NumericU64Error;
use crate::text::eq_fold;
use crate::text::fold;
use crate::text::lemma_fold_ne_at;
use crate::text::lemma_fold_ne_len;
use vstd::prelude::*;

verus! {

/// Whether an inventory listing covers only the bot's own items or all
/// items.
#[derive(Debug, Copy, Clone, PartialEq, Eq, Hash, Structural)]
pub enum InventoryScope {
    Bot,
    All,
}

impl InventoryScope {
    /// The canonical wire token of this variant.
    pub open spec fn token(self) -> Seq<char> {
        match self {
            InventoryScope::Bot => "bot"@,
            InventoryScope::All => "all"@,
        }
    }

    /// What decoding a wire token yields: the variant whose token matches
    /// up to ASCII case, or `InvalidEncoding` for anything else.
    pub open spec fn decode_spec(s: Seq<char>) -> Result<InventoryScope, EncodingError> {
        if fold(s) == fold("bot"@) {
            Ok(InventoryScope::Bot)
        } else if fold(s) == fold("all"@) {
            Ok(InventoryScope::All)
        } else {
            Err(EncodingError::InvalidEncoding)
        }
    }

    /// Decode a wire token, case-insensitively.
    pub fn from_str(s: &str) -> (r: Result<InventoryScope, EncodingError>)
        ensures
            r == Self::decode_spec(s@),
    {
        if eq_fold(s, "bot") {
            Ok(InventoryScope::Bot)
        } else if eq_fold(s, "all") {
            Ok(InventoryScope::All)
        } else {
            Err(EncodingError::InvalidEncoding)
        }
    }

    /// The canonical wire token.
    pub fn as_str(self) -> (r: &'static str)
        ensures
            r@ == self.token(),
    {
        match self {
            InventoryScope::Bot => "bot",
            InventoryScope::All => "all",
        }
    }
}

/// Law: decoding an encoded inventory scope restores the variant.
pub proof fn theorem_inventory_scope_round_trip(x: InventoryScope)
    ensures
        InventoryScope::decode_spec(x.token()) == Ok::<InventoryScope, EncodingError>(x),
{
    reveal_strlit("bot");
    reveal_strlit("all");
    if x is All {
        lemma_fold_ne_at("all"@, "bot"@, 0);
    }
}

/// Law: a token matching no inventory scope is rejected as
/// `InvalidEncoding`.
pub proof fn theorem_inventory_scope_rejects(s: Seq<char>)
    requires
        forall|x: InventoryScope| fold(s) != fold(#[trigger] x.token()),
    ensures
        InventoryScope::decode_spec(s) == Err::<InventoryScope, EncodingError>(
            EncodingError::InvalidEncoding,
        ),
{
    assert(fold(s) != fold(InventoryScope::Bot.token()));
    assert(fold(s) != fold(InventoryScope::All.token()));
}

/// Why a currency transaction was recorded.
#[derive(Debug, Copy, Clone, PartialEq, Eq, Hash, Structural)]
pub enum TransactionPurpose {
    Withdrawal,
    Deposit,
    Trade,
    ClaimBounced,
}

impl TransactionPurpose {
    /// The canonical wire token of this variant.
    pub open spec fn token(self) -> Seq<char> {
        match self {
            TransactionPurpose::Deposit => "deposit"@,
            TransactionPurpose::Withdrawal => "withdrawal"@,
            TransactionPurpose::Trade => "trade"@,
            TransactionPurpose::ClaimBounced => "claimbounced"@,
        }
    }

    /// What decoding a wire token yields: the variant whose token matches
    /// up to ASCII case, or `InvalidEncoding` for anything else.
    pub open spec fn decode_spec(s: Seq<char>) -> Result<TransactionPurpose, EncodingError> {
        if fold(s) == fold("deposit"@) {
            Ok(TransactionPurpose::Deposit)
        } else if fold(s) == fold("withdrawal"@) {
            Ok(TransactionPurpose::Withdrawal)
        } else if fold(s) == fold("trade"@) {
            Ok(TransactionPurpose::Trade)
        } else if fold(s) == fold("claimbounced"@) {
            Ok(TransactionPurpose::ClaimBounced)
        } else {
            Err(EncodingError::InvalidEncoding)
        }
    }

    /// Decode a wire token, case-insensitively.
    pub fn from_str(s: &str) -> (r: Result<TransactionPurpose, EncodingError>)
        ensures
            r == Self::decode_spec(s@),
    {
        if eq_fold(s, "deposit") {
            Ok(TransactionPurpose::Deposit)
        } else if eq_fold(s, "withdrawal") {
            Ok(TransactionPurpose::Withdrawal)
        } else if eq_fold(s, "trade") {
            Ok(TransactionPurpose::Trade)
        } else if eq_fold(s, "claimbounced") {
            Ok(TransactionPurpose::ClaimBounced)
        } else {
            Err(EncodingError::InvalidEncoding)
        }
    }

    /// The canonical wire token.
    pub fn as_str(self) -> (r: &'static str)
        ensures
            r@ == self.token(),
    {
        match self {
            TransactionPurpose::Deposit => "deposit",
            TransactionPurpose::Withdrawal => "withdrawal",
            TransactionPurpose::Trade => "trade",
            TransactionPurpose::ClaimBounced => "claimbounced",
        }
    }
}

/// Law: decoding an encoded transaction purpose restores the variant.
pub proof fn theorem_transaction_purpose_round_trip(x: TransactionPurpose)
    ensures
        TransactionPurpose::decode_spec(x.token()) == Ok::<TransactionPurpose, EncodingError>(x),
{
    reveal_strlit("deposit");
    reveal_strlit("withdrawal");
    reveal_strlit("trade");
    reveal_strlit("claimbounced");
    match x {
        TransactionPurpose::Deposit => {
        },
        TransactionPurpose::Withdrawal => {
            lemma_fold_ne_len("withdrawal"@, "deposit"@);
        },
        TransactionPurpose::Trade => {
            lemma_fold_ne_len("trade"@, "deposit"@);
            lemma_fold_ne_len("trade"@, "withdrawal"@);
        },
        TransactionPurpose::ClaimBounced => {
            lemma_fold_ne_len("claimbounced"@, "deposit"@);
            lemma_fold_ne_len("claimbounced"@, "withdrawal"@);
            lemma_fold_ne_len("claimbounced"@, "trade"@);
        },
    }
}

/// Law: a token matching no transaction purpose is rejected as
/// `InvalidEncoding`.
pub proof fn theorem_transaction_purpose_rejects(s: Seq<char>)
    requires
        forall|x: TransactionPurpose| fold(s) != fold(#[trigger] x.token()),
    ensures
        TransactionPurpose::decode_spec(s) == Err::<TransactionPurpose, EncodingError>(
            EncodingError::InvalidEncoding,
        ),
{
    assert(fold(s) != fold(TransactionPurpose::Deposit.token()));
    assert(fold(s) != fold(TransactionPurpose::Withdrawal.token()));
    assert(fold(s) != fold(TransactionPurpose::Trade.token()));
    assert(fold(s) != fold(TransactionPurpose::ClaimBounced.token()));
}

/// How rewarding a solo expedition turned out; tiers are totally ordered
/// from worst to best.
#[derive(Debug, Copy, Clone, PartialEq, Eq, Hash, Structural, Ord)]
pub enum SoloExpeditionRewardTier {
    Bad,
    Okay,
    Good,
    Bonus,
}

impl SoloExpeditionRewardTier {
    /// The canonical wire token of this variant.
    pub open spec fn token(self) -> Seq<char> {
        match self {
            SoloExpeditionRewardTier::Bad => "bad"@,
            SoloExpeditionRewardTier::Okay => "okay"@,
            SoloExpeditionRewardTier::Good => "good"@,
            SoloExpeditionRewardTier::Bonus => "bonus"@,
        }
    }

    /// The rank used for ordering: tiers order `Bad < Okay < Good <
    /// Bonus`.
    pub open spec fn rank_spec(self) -> int {
        match self {
            SoloExpeditionRewardTier::Bad => 0,
            SoloExpeditionRewardTier::Okay => 1,
            SoloExpeditionRewardTier::Good => 2,
            SoloExpeditionRewardTier::Bonus => 3,
        }
    }

    /// What decoding a wire token yields: the variant whose token matches
    /// up to ASCII case, or `InvalidEncoding` for anything else.
    pub open spec fn decode_spec(s: Seq<char>) -> Result<SoloExpeditionRewardTier, EncodingError> {
        if fold(s) == fold("bad"@) {
            Ok(SoloExpeditionRewardTier::Bad)
        } else if fold(s) == fold("okay"@) {
            Ok(SoloExpeditionRewardTier::Okay)
        } else if fold(s) == fold("good"@) {
            Ok(SoloExpeditionRewardTier::Good)
        } else if fold(s) == fold("bonus"@) {
            Ok(SoloExpeditionRewardTier::Bonus)
        } else {
            Err(EncodingError::InvalidEncoding)
        }
    }

    /// Decode a wire token, case-insensitively.
    pub fn from_str(s: &str) -> (r: Result<SoloExpeditionRewardTier, EncodingError>)
        ensures
            r == Self::decode_spec(s@),
    {
        if eq_fold(s, "bad") {
            Ok(SoloExpeditionRewardTier::Bad)
        } else if eq_fold(s, "okay") {
            Ok(SoloExpeditionRewardTier::Okay)
        } else if eq_fold(s, "good") {
            Ok(SoloExpeditionRewardTier::Good)
        } else if eq_fold(s, "bonus") {
            Ok(SoloExpeditionRewardTier::Bonus)
        } else {
            Err(EncodingError::InvalidEncoding)
        }
    }

    /// The canonical wire token.
    pub fn as_str(self) -> (r: &'static str)
        ensures
            r@ == self.token(),
    {
        match self {
            SoloExpeditionRewardTier::Bad => "bad",
            SoloExpeditionRewardTier::Okay => "okay",
            SoloExpeditionRewardTier::Good => "good",
            SoloExpeditionRewardTier::Bonus => "bonus",
        }
    }
}

impl PartialOrd for SoloExpeditionRewardTier {
    /// Ordering by rank; always defined.
    fn partial_cmp(&self, other: &Self) -> (r: Option<Ordering>) {
        Some(
            match (self, other) {
                (SoloExpeditionRewardTier::Bad, SoloExpeditionRewardTier::Bad) => Ordering::Equal,
                (SoloExpeditionRewardTier::Bad, SoloExpeditionRewardTier::Okay) => Ordering::Less,
                (SoloExpeditionRewardTier::Bad, SoloExpeditionRewardTier::Good) => Ordering::Less,
                (SoloExpeditionRewardTier::Bad, SoloExpeditionRewardTier::Bonus) => Ordering::Less,
                (SoloExpeditionRewardTier::Okay, SoloExpeditionRewardTier::Bad) => Ordering::Greater,
                (SoloExpeditionRewardTier::Okay, SoloExpeditionRewardTier::Okay) => Ordering::Equal,
                (SoloExpeditionRewardTier::Okay, SoloExpeditionRewardTier::Good) => Ordering::Less,
                (SoloExpeditionRewardTier::Okay, SoloExpeditionRewardTier::Bonus) => Ordering::Less,
                (SoloExpeditionRewardTier::Good, SoloExpeditionRewardTier::Bad) => Ordering::Greater,
                (SoloExpeditionRewardTier::Good, SoloExpeditionRewardTier::Okay) => Ordering::Greater,
                (SoloExpeditionRewardTier::Good, SoloExpeditionRewardTier::Good) => Ordering::Equal,
                (SoloExpeditionRewardTier::Good, SoloExpeditionRewardTier::Bonus) => Ordering::Less,
                (SoloExpeditionRewardTier::Bonus, SoloExpeditionRewardTier::Bad) => Ordering::Greater,
                (SoloExpeditionRewardTier::Bonus, SoloExpeditionRewardTier::Okay) => Ordering::Greater,
                (SoloExpeditionRewardTier::Bonus, SoloExpeditionRewardTier::Good) => Ordering::Greater,
                (SoloExpeditionRewardTier::Bonus, SoloExpeditionRewardTier::Bonus) => Ordering::Equal,
            },
        )
    }
}

impl vstd::std_specs::cmp::PartialOrdSpecImpl for SoloExpeditionRewardTier {
    open spec fn obeys_partial_cmp_spec() -> bool {
        true
    }

    open spec fn partial_cmp_spec(&self, other: &Self) -> Option<Ordering> {
        Some(
            if self.rank_spec() < other.rank_spec() {
                Ordering::Less
            } else if self.rank_spec() == other.rank_spec() {
                Ordering::Equal
            } else {
                Ordering::Greater
            },
        )
    }
}

/// Law: decoding an encoded reward tier restores the variant.
pub proof fn theorem_reward_tier_round_trip(x: SoloExpeditionRewardTier)
    ensures
        SoloExpeditionRewardTier::decode_spec(x.token()) == Ok::<
            SoloExpeditionRewardTier,
            EncodingError,
        >(x),
{
    reveal_strlit("bad");
    reveal_strlit("okay");
    reveal_strlit("good");
    reveal_strlit("bonus");
    match x {
        SoloExpeditionRewardTier::Bad => {
        },
        SoloExpeditionRewardTier::Okay => {
            lemma_fold_ne_len("okay"@, "bad"@);
        },
        SoloExpeditionRewardTier::Good => {
            lemma_fold_ne_len("good"@, "bad"@);
            lemma_fold_ne_at("good"@, "okay"@, 0);
        },
        SoloExpeditionRewardTier::Bonus => {
            lemma_fold_ne_len("bonus"@, "bad"@);
            lemma_fold_ne_len("bonus"@, "okay"@);
            lemma_fold_ne_len("bonus"@, "good"@);
        },
    }
}

/// Law: a token matching no tier's token is rejected as
/// `InvalidEncoding`.
pub proof fn theorem_reward_tier_rejects(s: Seq<char>)
    requires
        forall|x: SoloExpeditionRewardTier| fold(s) != fold(#[trigger] x.token()),
    ensures
        SoloExpeditionRewardTier::decode_spec(s) == Err::<SoloExpeditionRewardTier, EncodingError>(
            EncodingError::InvalidEncoding,
        ),
{
    assert(fold(s) != fold(SoloExpeditionRewardTier::Bad.token()));
    assert(fold(s) != fold(SoloExpeditionRewardTier::Okay.token()));
    assert(fold(s) != fold(SoloExpeditionRewardTier::Good.token()));
    assert(fold(s) != fold(SoloExpeditionRewardTier::Bonus.token()));
}

/// How often a shop purchase limit resets.
#[derive(Debug, Copy, Clone, PartialEq, Eq, Hash, Structural)]
pub enum ShopLimitBoundary {
    Daily,
    Weekly,
    Never,
}

impl ShopLimitBoundary {
    /// The canonical wire token of this variant.
    pub open spec fn token(self) -> Seq<char> {
        match self {
            ShopLimitBoundary::Never => "never"@,
            ShopLimitBoundary::Weekly => "weekly"@,
            ShopLimitBoundary::Daily => "daily"@,
        }
    }

    /// What decoding a wire token yields: the variant whose token matches
    /// up to ASCII case, or `InvalidEncoding` for anything else.
    pub open spec fn decode_spec(s: Seq<char>) -> Result<ShopLimitBoundary, EncodingError> {
        if fold(s) == fold("never"@) {
            Ok(ShopLimitBoundary::Never)
        } else if fold(s) == fold("weekly"@) {
            Ok(ShopLimitBoundary::Weekly)
        } else if fold(s) == fold("daily"@) {
            Ok(ShopLimitBoundary::Daily)
        } else {
            Err(EncodingError::InvalidEncoding)
        }
    }

    /// Decode a wire token, case-insensitively.
    pub fn from_str(s: &str) -> (r: Result<ShopLimitBoundary, EncodingError>)
        ensures
            r == Self::decode_spec(s@),
    {
        if eq_fold(s, "never") {
            Ok(ShopLimitBoundary::Never)
        } else if eq_fold(s, "weekly") {
            Ok(ShopLimitBoundary::Weekly)
        } else if eq_fold(s, "daily") {
            Ok(ShopLimitBoundary::Daily)
        } else {
            Err(EncodingError::InvalidEncoding)
        }
    }

    /// The canonical wire token.
    pub fn to_str(&self) -> (r: &'static str)
        ensures
            r@ == self.token(),
    {
        match self {
            ShopLimitBoundary::Never => "never",
            ShopLimitBoundary::Weekly => "weekly",
            ShopLimitBoundary::Daily => "daily",
        }
    }
}

/// Law: decoding an encoded shop limit boundary restores the variant.
pub proof fn theorem_shop_limit_round_trip(x: ShopLimitBoundary)
    ensures
        ShopLimitBoundary::decode_spec(x.token()) == Ok::<ShopLimitBoundary, EncodingError>(x),
{
    reveal_strlit("never");
    reveal_strlit("weekly");
    reveal_strlit("daily");
    match x {
        ShopLimitBoundary::Never => {
        },
        ShopLimitBoundary::Weekly => {
            lemma_fold_ne_len("weekly"@, "never"@);
        },
        ShopLimitBoundary::Daily => {
            lemma_fold_ne_at("daily"@, "never"@, 0);
            lemma_fold_ne_len("daily"@, "weekly"@);
        },
    }
}

/// Law: a token matching no shop limit boundary is rejected as
/// `InvalidEncoding`.
pub proof fn theorem_shop_limit_rejects(s: Seq<char>)
    requires
        forall|x: ShopLimitBoundary| fold(s) != fold(#[trigger] x.token()),
    ensures
        ShopLimitBoundary::decode_spec(s) == Err::<ShopLimitBoundary, EncodingError>(
            EncodingError::InvalidEncoding,
        ),
{
    assert(fold(s) != fold(ShopLimitBoundary::Never.token()));
    assert(fold(s) != fold(ShopLimitBoundary::Weekly.token()));
    assert(fold(s) != fold(ShopLimitBoundary::Daily.token()));
}

/// A compass direction, decoded from a word, an initial, or a digit.
#[derive(Debug, Copy, Clone, PartialEq, Eq, Hash, Structural)]
pub enum Direction {
    North,
    South,
    East,
    West,
}

impl Direction {
    /// The canonical wire token of this variant.
    pub open spec fn token(self) -> Seq<char> {
        match self {
            Direction::North => "north"@,
            Direction::East => "east"@,
            Direction::South => "south"@,
            Direction::West => "west"@,
        }
    }

    /// What decoding a wire token yields. Each direction is also accepted
    /// as its initial, as a digit in compass order, and — a legacy of old
    /// stored data — as its word with a trailing space for east and west.
    pub open spec fn decode_spec(s: Seq<char>) -> Result<Direction, EncodingError> {
        if fold(s) == fold("1"@) || fold(s) == fold("n"@) || fold(s) == fold("north"@) {
            Ok(Direction::North)
        } else if fold(s) == fold("2"@) || fold(s) == fold("e"@) || fold(s) == fold("east"@)
            || fold(s) == fold("east "@) {
            Ok(Direction::East)
        } else if fold(s) == fold("3"@) || fold(s) == fold("s"@) || fold(s) == fold("south"@) {
            Ok(Direction::South)
        } else if fold(s) == fold("4"@) || fold(s) == fold("w"@) || fold(s) == fold("west"@)
            || fold(s) == fold("west "@) {
            Ok(Direction::West)
        } else {
            Err(EncodingError::InvalidEncoding)
        }
    }

    /// Decode a wire token, case-insensitively.
    pub fn from_str(s: &str) -> (r: Result<Direction, EncodingError>)
        ensures
            r == Self::decode_spec(s@),
    {
        if eq_fold(s, "1") || eq_fold(s, "n") || eq_fold(s, "north") {
            Ok(Direction::North)
        } else if eq_fold(s, "2") || eq_fold(s, "e") || eq_fold(s, "east") || eq_fold(s, "east ") {
            Ok(Direction::East)
        } else if eq_fold(s, "3") || eq_fold(s, "s") || eq_fold(s, "south") {
            Ok(Direction::South)
        } else if eq_fold(s, "4") || eq_fold(s, "w") || eq_fold(s, "west") || eq_fold(s, "west ") {
            Ok(Direction::West)
        } else {
            Err(EncodingError::InvalidEncoding)
        }
    }

    /// The canonical wire token.
    pub fn to_str(&self) -> (r: &'static str)
        ensures
            r@ == self.token(),
    {
        match self {
            Direction::North => "north",
            Direction::East => "east",
            Direction::South => "south",
            Direction::West => "west",
        }
    }
}

/// Law: decoding an encoded direction restores the variant.
pub proof fn theorem_direction_round_trip(x: Direction)
    ensures
        Direction::decode_spec(x.token()) == Ok::<Direction, EncodingError>(x),
{
    reveal_strlit("1");
    reveal_strlit("n");
    reveal_strlit("north");
    reveal_strlit("2");
    reveal_strlit("e");
    reveal_strlit("east");
    reveal_strlit("east ");
    reveal_strlit("3");
    reveal_strlit("s");
    reveal_strlit("south");
    reveal_strlit("4");
    reveal_strlit("w");
    reveal_strlit("west");
    reveal_strlit("west ");
    match x {
        Direction::North => {
        },
        Direction::East => {
            lemma_fold_ne_len("east"@, "1"@);
            lemma_fold_ne_len("east"@, "n"@);
            lemma_fold_ne_len("east"@, "north"@);
        },
        Direction::South => {
            lemma_fold_ne_len("south"@, "1"@);
            lemma_fold_ne_len("south"@, "n"@);
            lemma_fold_ne_at("south"@, "north"@, 0);
            lemma_fold_ne_len("south"@, "2"@);
            lemma_fold_ne_len("south"@, "e"@);
            lemma_fold_ne_len("south"@, "east"@);
            lemma_fold_ne_at("south"@, "east "@, 0);
        },
        Direction::West => {
            lemma_fold_ne_len("west"@, "1"@);
            lemma_fold_ne_len("west"@, "n"@);
            lemma_fold_ne_len("west"@, "north"@);
            lemma_fold_ne_len("west"@, "2"@);
            lemma_fold_ne_len("west"@, "e"@);
            lemma_fold_ne_at("west"@, "east"@, 0);
            lemma_fold_ne_len("west"@, "east "@);
            lemma_fold_ne_len("west"@, "3"@);
            lemma_fold_ne_len("west"@, "s"@);
            lemma_fold_ne_len("west"@, "south"@);
        },
    }
}

/// Law: a token matching no direction spelling — canonical, initial,
/// digit, or legacy — is rejected as `InvalidEncoding`.
pub proof fn theorem_direction_rejects(s: Seq<char>)
    requires
        fold(s) != fold("1"@),
        fold(s) != fold("n"@),
        fold(s) != fold("north"@),
        fold(s) != fold("2"@),
        fold(s) != fold("e"@),
        fold(s) != fold("east"@),
        fold(s) != fold("east "@),
        fold(s) != fold("3"@),
        fold(s) != fold("s"@),
        fold(s) != fold("south"@),
        fold(s) != fold("4"@),
        fold(s) != fold("w"@),
        fold(s) != fold("west"@),
        fold(s) != fold("west "@),
    ensures
        Direction::decode_spec(s) == Err::<Direction, EncodingError>(
            EncodingError::InvalidEncoding,
        ),
{
}

/// The kind of user-interface surface an interaction came from, stored as
/// a small integer code.
#[derive(Debug, Copy, Clone, PartialEq, Eq, Hash, Structural)]
pub enum UIKind {
    Message,
    Button,
    Select,
}

impl UIKind {
    /// The integer wire code of this variant.
    pub open spec fn code(self) -> i32 {
        match self {
            UIKind::Message => 0,
            UIKind::Button => 1,
            UIKind::Select => 2,
        }
    }

    /// What decoding an integer wire code yields.
    pub open spec fn decode_spec(i: i32) -> Result<UIKind, EncodingError> {
        if i == 0 {
            Ok(UIKind::Message)
        } else if i == 1 {
            Ok(UIKind::Button)
        } else if i == 2 {
            Ok(UIKind::Select)
        } else {
            Err(EncodingError::InvalidEncoding)
        }
    }

    /// Decode an integer wire code; `None` for an unassigned code.
    pub fn from_i32(i: i32) -> (r: Option<UIKind>)
        ensures
            r == Self::decode_spec(i).ok(),
            r is Some <==> 0 <= i <= 2,
    {
        match i {
            0 => Some(UIKind::Message),
            1 => Some(UIKind::Button),
            2 => Some(UIKind::Select),
            _ => None,
        }
    }

    /// The integer wire code.
    pub fn to_i32(self) -> (r: i32)
        ensures
            r == self.code(),
    {
        match self {
            UIKind::Message => 0,
            UIKind::Button => 1,
            UIKind::Select => 2,
        }
    }

    /// Decode an integer wire code, rejecting an unassigned code as
    /// `InvalidEncoding`.
    pub fn decode_wire(i: i32) -> (r: Result<UIKind, EncodingError>)
        ensures
            r == Self::decode_spec(i),
    {
        match UIKind::from_i32(i) {
            Some(k) => Ok(k),
            None => Err(EncodingError::InvalidEncoding),
        }
    }
}

/// Law: decoding an encoded user-interface kind restores the variant, and
/// every unassigned code is rejected as `InvalidEncoding`.
pub proof fn theorem_ui_kind_round_trip(x: UIKind, i: i32)
    ensures
        UIKind::decode_spec(x.code()) == Ok::<UIKind, EncodingError>(x),
        !(0 <= i <= 2) ==> UIKind::decode_spec(i) == Err::<UIKind, EncodingError>(
            EncodingError::InvalidEncoding,
        ),
{
}

/// Experience points; a `u32` stored through the [`PgU32`] codec.
#[derive(Debug, Copy, Clone, PartialOrd, Ord, PartialEq, Eq, Hash, Structural)]
pub struct XP(pub u32);

impl XP {
    /// Wrap a value that is already known valid.
    pub fn assume_valid(f: u32) -> (r: Self)
        ensures
            r == XP(f),
    {
        XP(f)
    }

    /// The wrapped value.
    pub fn inner(&self) -> (r: &u32)
        ensures
            *r == self.0,
    {
        &self.0
    }

    /// Mutable access to the wrapped value.
    pub fn inner_mut(&mut self) -> (r: &mut u32)
        ensures
            *r == old(self).0,
            *final(self) == XP(*final(r)),
    {
        &mut self.0
    }

    /// Decode a signed 64-bit wire value through the [`PgU32`] codec.
    pub fn decode_wire(wire: i64) -> (r: Result<XP, NumericU32Error>)
        ensures
            r matches Ok(v) ==> PgU32::decode_spec(wire) == Ok::<PgU32, NumericU32Error>(
                PgU32(v.0),
            ),
            r matches Err(e) ==> PgU32::decode_spec(wire) == Err::<PgU32, NumericU32Error>(e),
    {
        match PgU32::decode_wire(wire) {
            Ok(p) => Ok(XP(*p.inner())),
            Err(e) => Err(e),
        }
    }

    /// Encode as a signed 64-bit wire value; always lossless.
    pub fn encode_wire(&self) -> (r: i64)
        ensures
            r == self.0 as i64,
    {
        PgU32::assume_valid(self.0).encode_wire()
    }
}

impl From<u32> for XP {
    /// Lift from the native primitive.
    fn from(xp: u32) -> (r: Self) {
        XP(xp)
    }
}

impl vstd::std_specs::convert::FromSpecImpl<u32> for XP {
    open spec fn obeys_from_spec() -> bool {
        true
    }

    open spec fn from_spec(xp: u32) -> Self {
        XP(xp)
    }
}

/// A protagonist's level; a non-negative `i32` stored in an integer wire
/// column.
#[derive(Debug, Copy, Clone, PartialOrd, Ord, PartialEq, Eq, Hash, Structural)]
pub struct Level(pub i32);

impl Level {
    /// Construct a level, rejecting a negative count as
    /// `LevelError::Negative`; every non-negative count is accepted.
    pub fn new(level: i32) -> (r: Result<Level, LevelError>)
        ensures
            level < 0 ==> r == Err::<Level, LevelError>(LevelError::Negative),
            level >= 0 ==> r == Ok::<Level, LevelError>(Level(level)),
    {
        if level < 0 {
            return Err(LevelError::Negative);
        }
        Ok(Level(level))
    }

    /// The wrapped value.
    pub fn inner(&self) -> (r: &i32)
        ensures
            *r == self.0,
    {
        &self.0
    }
}

/// How many slots a container offers; an `i32` stored in an integer wire
/// column.
#[derive(Debug, Copy, Clone, Default, PartialOrd, Ord, PartialEq, Eq, Hash, Structural)]
pub struct SlotCapacity(pub i32);

impl SlotCapacity {
    /// Wrap a value that is already known valid.
    pub fn assume_valid(f: i32) -> (r: Self)
        ensures
            r == SlotCapacity(f),
    {
        SlotCapacity(f)
    }

    /// The wrapped value.
    pub fn inner(&self) -> (r: &i32)
        ensures
            *r == self.0,
    {
        &self.0
    }

    /// Mutable access to the wrapped value.
    pub fn inner_mut(&mut self) -> (r: &mut i32)
        ensures
            *r == old(self).0,
            *final(self) == SlotCapacity(*final(r)),
    {
        &mut self.0
    }

    /// Add capacities; the sum must fit.
    pub fn add(self, other: Self) -> (r: Self)
        requires
            i32::MIN <= self.0 + other.0 <= i32::MAX,
        ensures
            r.0 == self.0 + other.0,
    {
        SlotCapacity(self.0 + other.0)
    }

    /// Add a capacity in place; the sum must fit.
    pub fn add_assign(&mut self, other: Self)
        requires
            i32::MIN <= old(self).0 + other.0 <= i32::MAX,
        ensures
            final(self).0 == old(self).0 + other.0,
    {
        self.0 = self.0 + other.0;
    }

    /// Subtract capacities; the difference must fit.
    pub fn sub(self, other: Self) -> (r: Self)
        requires
            i32::MIN <= self.0 - other.0 <= i32::MAX,
        ensures
            r.0 == self.0 - other.0,
    {
        SlotCapacity(self.0 - other.0)
    }

    /// Subtract a capacity in place; the difference must fit.
    pub fn sub_assign(&mut self, other: Self)
        requires
            i32::MIN <= old(self).0 - other.0 <= i32::MAX,
        ensures
            final(self).0 == old(self).0 - other.0,
    {
        self.0 = self.0 - other.0;
    }
}

impl From<i32> for SlotCapacity {
    /// Lift from the native primitive.
    fn from(capacity: i32) -> (r: Self) {
        SlotCapacity(capacity)
    }
}

impl vstd::std_specs::convert::FromSpecImpl<i32> for SlotCapacity {
    open spec fn obeys_from_spec() -> bool {
        true
    }

    open spec fn from_spec(capacity: i32) -> Self {
        SlotCapacity(capacity)
    }
}

/// How many decimal places a currency displays; a `u32` stored through
/// the [`PgU32`] codec.
#[derive(Debug, Copy, Clone, PartialOrd, Ord, PartialEq, Eq, Hash, Structural)]
pub struct DecimalPlaces(pub u32);

impl DecimalPlaces {
    /// Wrap a value that is already known valid.
    pub fn assume_valid(f: u32) -> (r: Self)
        ensures
            r == DecimalPlaces(f),
    {
        DecimalPlaces(f)
    }

    /// The wrapped value.
    pub fn inner(&self) -> (r: &u32)
        ensures
            *r == self.0,
    {
        &self.0
    }
}

impl From<u32> for DecimalPlaces {
    /// Lift from the native primitive.
    fn from(places: u32) -> (r: Self) {
        DecimalPlaces(places)
    }
}

impl vstd::std_specs::convert::FromSpecImpl<u32> for DecimalPlaces {
    open spec fn obeys_from_spec() -> bool {
        true
    }

    open spec fn from_spec(places: u32) -> Self {
        DecimalPlaces(places)
    }
}

/// How many of an item a holding records; a `u64` stored through the
/// [`PgU64`] codec.
#[derive(Debug, Copy, Clone, PartialOrd, Ord, PartialEq, Eq, Hash, Structural)]
pub struct ItemAmount(pub u64);

impl ItemAmount {
    /// Wrap a value that is already known valid.
    pub fn assume_valid(f: u64) -> (r: Self)
        ensures
            r == ItemAmount(f),
    {
        ItemAmount(f)
    }

    /// The wrapped value.
    pub fn inner(&self) -> (r: &u64)
        ensures
            *r == self.0,
    {
        &self.0
    }

    /// Mutable access to the wrapped value.
    pub fn inner_mut(&mut self) -> (r: &mut u64)
        ensures
            *r == old(self).0,
            *final(self) == ItemAmount(*final(r)),
    {
        &mut self.0
    }

    /// Add amounts; the sum must fit.
    pub fn add(self, other: Self) -> (r: Self)
        requires
            self.0 + other.0 <= u64::MAX,
        ensures
            r.0 == self.0 + other.0,
    {
        ItemAmount(self.0 + other.0)
    }

    /// Add an amount in place; the sum must fit.
    pub fn add_assign(&mut self, other: Self)
        requires
            old(self).0 + other.0 <= u64::MAX,
        ensures
            final(self).0 == old(self).0 + other.0,
    {
        self.0 = self.0 + other.0;
    }

    /// Subtract amounts; the subtrahend must not exceed the amount.
    pub fn sub(self, other: Self) -> (r: Self)
        requires
            other.0 <= self.0,
        ensures
            r.0 == self.0 - other.0,
    {
        ItemAmount(self.0 - other.0)
    }

    /// Subtract an amount in place; the subtrahend must not exceed the
    /// amount.
    pub fn sub_assign(&mut self, other: Self)
        requires
            other.0 <= old(self).0,
        ensures
            final(self).0 == old(self).0 - other.0,
    {
        self.0 = self.0 - other.0;
    }

    /// Decode a decimal wire value through the [`PgU64`] codec.
    pub fn decode_wire(d: &WireDecimal) -> (r: Result<ItemAmount, NumericU64Error>)
        requires
            d.wf(),
        ensures
            r matches Ok(v) ==> PgU64::decode_spec(*d) == Ok::<PgU64, NumericU64Error>(
                PgU64(v.0),
            ),
            r matches Err(e) ==> PgU64::decode_spec(*d) == Err::<PgU64, NumericU64Error>(e),
    {
        match PgU64::decode_wire(d) {
            Ok(p) => Ok(ItemAmount(*p.inner())),
            Err(e) => Err(e),
        }
    }

    /// Encode as an exact decimal wire value; always lossless.
    pub fn encode_wire(&self) -> (r: WireDecimal)
        ensures
            r.wf(),
            PgU64::decode_spec(r) == Ok::<PgU64, NumericU64Error>(PgU64(self.0)),
    {
        PgU64::assume_valid(self.0).encode_wire()
    }
}

impl From<u64> for ItemAmount {
    /// Lift from the native primitive.
    fn from(amount: u64) -> (r: Self) {
        ItemAmount(amount)
    }
}

impl vstd::std_specs::convert::FromSpecImpl<u64> for ItemAmount {
    open spec fn obeys_from_spec() -> bool {
        true
    }

    open spec fn from_spec(amount: u64) -> Self {
        ItemAmount(amount)
    }
}

} // verus!
