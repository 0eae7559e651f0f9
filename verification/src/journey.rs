//! The user-journey command kind.
//!
//! Each variant names one kind of user journey a command can start. The
//! wire codec accepts only the canonical spelling of each variant,
//! case-insensitively. The command-token parser layered on top of it is a
//! different operation: a lookup table that accepts exactly the listed
//! spellings — the canonical one and a fixed set of aliases per variant —
//! with no case folding. Encoding always produces the canonical spelling.

use crate::error::EncodingError;
use crate::text::eq_exact;
use crate::text::eq_fold;
use crate::text::fold;
use crate::text::fold_char;
use crate::text::lemma_fold_fixed;
use vstd::prelude::*;

verus! {

/// The kind of user journey a command starts.
#[derive(Debug, Copy, Clone, PartialEq, Eq, Hash, Structural)]
pub enum UserJourneyKind {
    AdminGrantItem,
    ExpeditionsSolo,
    ExpeditionsCheckSolo,
    ExpeditionsWander,
    ExpeditionsWeekly,
    ExplorationAtlas,
    ExplorationDestinations,
    ExplorationLocation,
    ExplorationMap,
    ExplorationTravel,
    ExplorationTripPlan,
    GeneralClassInfo,
    GeneralImage,
    GeneralInfo,
    GeneralHelp,
    GeneralPing,
    GeneralRandom,
    ItemInfo,
    ItemUse,
    ProfileDefaultSet,
    ProfileDefaultGet,
    ProfileWalletClear,
    ProfileWalletGet,
    ProfileWalletSet,
    ProfileCooldown,
    ProfileInventory,
    ProfileParty,
    ProfilePreferenceSet,
    ProtagonistStatusCheck,
    ProtagonistClass,
    ProtagonistEquip,
    ProtagonistDisplay,
    ProtagonistInfo,
    ProtagonistNameSet,
    ProtagonistRoll,
    ProtagonistUnequip,
    ProtagonistUnequipAll,
    StatisticsLevels,
    StatisticsPopulations,
    TrainingTrain,
    TransactionClaimBounced,
    TransactionDeposit,
    TransactionWithdraw,
    TransactionSend,
    TransactionTrade,
    ShopShop,
    ShopBuy,
    OregonTrailMinigame,
}

impl UserJourneyKind {
    /// The canonical wire token of this variant.
    pub open spec fn token(self) -> Seq<char> {
        match self {
            UserJourneyKind::AdminGrantItem => "grantitem"@,
            UserJourneyKind::ExpeditionsSolo => "solo"@,
            UserJourneyKind::ExpeditionsCheckSolo => "checksolo"@,
            UserJourneyKind::ExpeditionsWander => "wander"@,
            UserJourneyKind::ExpeditionsWeekly => "weekly"@,
            UserJourneyKind::ExplorationAtlas => "atlas"@,
            UserJourneyKind::ExplorationDestinations => "destinations"@,
            UserJourneyKind::ExplorationLocation => "location"@,
            UserJourneyKind::ExplorationMap => "map"@,
            UserJourneyKind::ExplorationTravel => "travel"@,
            UserJourneyKind::ExplorationTripPlan => "tripplan"@,
            UserJourneyKind::GeneralClassInfo => "classinfo"@,
            UserJourneyKind::GeneralImage => "image"@,
            UserJourneyKind::GeneralInfo => "info"@,
            UserJourneyKind::GeneralHelp => "help"@,
            UserJourneyKind::GeneralPing => "ping"@,
            UserJourneyKind::GeneralRandom => "random"@,
            UserJourneyKind::ItemInfo => "iteminfo"@,
            UserJourneyKind::ItemUse => "itemuse"@,
            UserJourneyKind::ProfileDefaultSet => "setdefault"@,
            UserJourneyKind::ProfileDefaultGet => "getdefault"@,
            UserJourneyKind::ProfileWalletClear => "clearwallet"@,
            UserJourneyKind::ProfileWalletGet => "getwallet"@,
            UserJourneyKind::ProfileWalletSet => "setwallet"@,
            UserJourneyKind::ProfileCooldown => "cooldown"@,
            UserJourneyKind::ProfileInventory => "inventory"@,
            UserJourneyKind::ProfileParty => "party"@,
            UserJourneyKind::ProfilePreferenceSet => "setpreference"@,
            UserJourneyKind::ProtagonistStatusCheck => "status"@,
            UserJourneyKind::ProtagonistClass => "class"@,
            UserJourneyKind::ProtagonistEquip => "equip"@,
            UserJourneyKind::ProtagonistDisplay => "protagonist"@,
            UserJourneyKind::ProtagonistInfo => "protaginfo"@,
            UserJourneyKind::ProtagonistNameSet => "rename"@,
            UserJourneyKind::ProtagonistRoll => "roll"@,
            UserJourneyKind::ProtagonistUnequip => "unequip"@,
            UserJourneyKind::ProtagonistUnequipAll => "unequipall"@,
            UserJourneyKind::StatisticsLevels => "levels"@,
            UserJourneyKind::StatisticsPopulations => "population"@,
            UserJourneyKind::TrainingTrain => "train"@,
            UserJourneyKind::TransactionClaimBounced => "claimbounced"@,
            UserJourneyKind::TransactionDeposit => "deposit"@,
            UserJourneyKind::TransactionWithdraw => "withdraw"@,
            UserJourneyKind::TransactionSend => "send"@,
            UserJourneyKind::TransactionTrade => "trade"@,
            UserJourneyKind::ShopShop => "shop"@,
            UserJourneyKind::ShopBuy => "buy"@,
            UserJourneyKind::OregonTrailMinigame => "oregon"@,
        }
    }

    /// What decoding a wire token yields: the variant whose canonical
    /// spelling matches up to ASCII case, or `InvalidEncoding` for
    /// anything else — alias spellings included, which only the
    /// command-token parser accepts.
    pub open spec fn decode_spec(s: Seq<char>) -> Result<UserJourneyKind, EncodingError> {
        if fold(s) == fold("grantitem"@) {
            Ok(UserJourneyKind::AdminGrantItem)
        } else if fold(s) == fold("solo"@) {
            Ok(UserJourneyKind::ExpeditionsSolo)
        } else if fold(s) == fold("checksolo"@) {
            Ok(UserJourneyKind::ExpeditionsCheckSolo)
        } else if fold(s) == fold("wander"@) {
            Ok(UserJourneyKind::ExpeditionsWander)
        } else if fold(s) == fold("weekly"@) {
            Ok(UserJourneyKind::ExpeditionsWeekly)
        } else if fold(s) == fold("atlas"@) {
            Ok(UserJourneyKind::ExplorationAtlas)
        } else if fold(s) == fold("destinations"@) {
            Ok(UserJourneyKind::ExplorationDestinations)
        } else if fold(s) == fold("location"@) {
            Ok(UserJourneyKind::ExplorationLocation)
        } else if fold(s) == fold("map"@) {
            Ok(UserJourneyKind::ExplorationMap)
        } else if fold(s) == fold("travel"@) {
            Ok(UserJourneyKind::ExplorationTravel)
        } else if fold(s) == fold("tripplan"@) {
            Ok(UserJourneyKind::ExplorationTripPlan)
        } else if fold(s) == fold("classinfo"@) {
            Ok(UserJourneyKind::GeneralClassInfo)
        } else if fold(s) == fold("image"@) {
            Ok(UserJourneyKind::GeneralImage)
        } else if fold(s) == fold("info"@) {
            Ok(UserJourneyKind::GeneralInfo)
        } else if fold(s) == fold("help"@) {
            Ok(UserJourneyKind::GeneralHelp)
        } else if fold(s) == fold("ping"@) {
            Ok(UserJourneyKind::GeneralPing)
        } else if fold(s) == fold("random"@) {
            Ok(UserJourneyKind::GeneralRandom)
        } else if fold(s) == fold("iteminfo"@) {
            Ok(UserJourneyKind::ItemInfo)
        } else if fold(s) == fold("itemuse"@) {
            Ok(UserJourneyKind::ItemUse)
        } else if fold(s) == fold("setdefault"@) {
            Ok(UserJourneyKind::ProfileDefaultSet)
        } else if fold(s) == fold("getdefault"@) {
            Ok(UserJourneyKind::ProfileDefaultGet)
        } else if fold(s) == fold("clearwallet"@) {
            Ok(UserJourneyKind::ProfileWalletClear)
        } else if fold(s) == fold("getwallet"@) {
            Ok(UserJourneyKind::ProfileWalletGet)
        } else if fold(s) == fold("setwallet"@) {
            Ok(UserJourneyKind::ProfileWalletSet)
        } else if fold(s) == fold("cooldown"@) {
            Ok(UserJourneyKind::ProfileCooldown)
        } else if fold(s) == fold("inventory"@) {
            Ok(UserJourneyKind::ProfileInventory)
        } else if fold(s) == fold("party"@) {
            Ok(UserJourneyKind::ProfileParty)
        } else if fold(s) == fold("setpreference"@) {
            Ok(UserJourneyKind::ProfilePreferenceSet)
        } else if fold(s) == fold("status"@) {
            Ok(UserJourneyKind::ProtagonistStatusCheck)
        } else if fold(s) == fold("class"@) {
            Ok(UserJourneyKind::ProtagonistClass)
        } else if fold(s) == fold("equip"@) {
            Ok(UserJourneyKind::ProtagonistEquip)
        } else if fold(s) == fold("protagonist"@) {
            Ok(UserJourneyKind::ProtagonistDisplay)
        } else if fold(s) == fold("protaginfo"@) {
            Ok(UserJourneyKind::ProtagonistInfo)
        } else if fold(s) == fold("rename"@) {
            Ok(UserJourneyKind::ProtagonistNameSet)
        } else if fold(s) == fold("roll"@) {
            Ok(UserJourneyKind::ProtagonistRoll)
        } else if fold(s) == fold("unequip"@) {
            Ok(UserJourneyKind::ProtagonistUnequip)
        } else if fold(s) == fold("unequipall"@) {
            Ok(UserJourneyKind::ProtagonistUnequipAll)
        } else if fold(s) == fold("levels"@) {
            Ok(UserJourneyKind::StatisticsLevels)
        } else if fold(s) == fold("population"@) {
            Ok(UserJourneyKind::StatisticsPopulations)
        } else if fold(s) == fold("train"@) {
            Ok(UserJourneyKind::TrainingTrain)
        } else if fold(s) == fold("claimbounced"@) {
            Ok(UserJourneyKind::TransactionClaimBounced)
        } else if fold(s) == fold("deposit"@) {
            Ok(UserJourneyKind::TransactionDeposit)
        } else if fold(s) == fold("withdraw"@) {
            Ok(UserJourneyKind::TransactionWithdraw)
        } else if fold(s) == fold("send"@) {
            Ok(UserJourneyKind::TransactionSend)
        } else if fold(s) == fold("trade"@) {
            Ok(UserJourneyKind::TransactionTrade)
        } else if fold(s) == fold("shop"@) {
            Ok(UserJourneyKind::ShopShop)
        } else if fold(s) == fold("buy"@) {
            Ok(UserJourneyKind::ShopBuy)
        } else if fold(s) == fold("oregon"@) {
            Ok(UserJourneyKind::OregonTrailMinigame)
        } else {
            Err(EncodingError::InvalidEncoding)
        }
    }

    /// What parsing a user-facing command token yields: the variant
    /// whose listed spelling — canonical or alias — the token equals
    /// exactly; anything else, a case variant included, is `None`.
    pub open spec fn command_spec(s: Seq<char>) -> Option<UserJourneyKind> {
        if s == "grantitem"@ {
            Some(UserJourneyKind::AdminGrantItem)
        } else if s == "solo"@ {
            Some(UserJourneyKind::ExpeditionsSolo)
        } else if s == "checksolo"@ {
            Some(UserJourneyKind::ExpeditionsCheckSolo)
        } else if s == "wander"@ {
            Some(UserJourneyKind::ExpeditionsWander)
        } else if s == "weekly"@ {
            Some(UserJourneyKind::ExpeditionsWeekly)
        } else if s == "atlas"@ {
            Some(UserJourneyKind::ExplorationAtlas)
        } else if s == "destinations"@ {
            Some(UserJourneyKind::ExplorationDestinations)
        } else if s == "location"@ {
            Some(UserJourneyKind::ExplorationLocation)
        } else if s == "map"@ {
            Some(UserJourneyKind::ExplorationMap)
        } else if s == "travel"@ {
            Some(UserJourneyKind::ExplorationTravel)
        } else if s == "tripplan"@ {
            Some(UserJourneyKind::ExplorationTripPlan)
        } else if s == "classinfo"@ {
            Some(UserJourneyKind::GeneralClassInfo)
        } else if s == "image"@ {
            Some(UserJourneyKind::GeneralImage)
        } else if s == "info"@ {
            Some(UserJourneyKind::GeneralInfo)
        } else if s == "help"@ {
            Some(UserJourneyKind::GeneralHelp)
        } else if s == "ping"@ {
            Some(UserJourneyKind::GeneralPing)
        } else if s == "random"@ {
            Some(UserJourneyKind::GeneralRandom)
        } else if s == "iteminfo"@ {
            Some(UserJourneyKind::ItemInfo)
        } else if s == "useitem"@ || s == "use"@ || s == "itemuse"@ {
            Some(UserJourneyKind::ItemUse)
        } else if s == "setdefault"@ {
            Some(UserJourneyKind::ProfileDefaultSet)
        } else if s == "getdefault"@ {
            Some(UserJourneyKind::ProfileDefaultGet)
        } else if s == "clearwallet"@ || s == "clearw"@ || s == "clearaddr"@ || s == "clearaddress"@ {
            Some(UserJourneyKind::ProfileWalletClear)
        } else if s == "getwallet"@ {
            Some(UserJourneyKind::ProfileWalletGet)
        } else if s == "setwallet"@ {
            Some(UserJourneyKind::ProfileWalletSet)
        } else if s == "cd"@ || s == "cooldown"@ {
            Some(UserJourneyKind::ProfileCooldown)
        } else if s == "inventory"@ || s == "inv"@ {
            Some(UserJourneyKind::ProfileInventory)
        } else if s == "party"@ {
            Some(UserJourneyKind::ProfileParty)
        } else if s == "setpreference"@ {
            Some(UserJourneyKind::ProfilePreferenceSet)
        } else if s == "status"@ || s == "checkstatus"@ {
            Some(UserJourneyKind::ProtagonistStatusCheck)
        } else if s == "class"@ {
            Some(UserJourneyKind::ProtagonistClass)
        } else if s == "equip"@ {
            Some(UserJourneyKind::ProtagonistEquip)
        } else if s == "protagonist"@ || s == "protag"@ {
            Some(UserJourneyKind::ProtagonistDisplay)
        } else if s == "protaginfo"@ {
            Some(UserJourneyKind::ProtagonistInfo)
        } else if s == "rename"@ {
            Some(UserJourneyKind::ProtagonistNameSet)
        } else if s == "roll"@ {
            Some(UserJourneyKind::ProtagonistRoll)
        } else if s == "unequip"@ {
            Some(UserJourneyKind::ProtagonistUnequip)
        } else if s == "unequipall"@ {
            Some(UserJourneyKind::ProtagonistUnequipAll)
        } else if s == "levels"@ {
            Some(UserJourneyKind::StatisticsLevels)
        } else if s == "population"@ {
            Some(UserJourneyKind::StatisticsPopulations)
        } else if s == "trainall"@ || s == "train"@ {
            Some(UserJourneyKind::TrainingTrain)
        } else if s == "claimbounced"@ {
            Some(UserJourneyKind::TransactionClaimBounced)
        } else if s == "deposit"@ {
            Some(UserJourneyKind::TransactionDeposit)
        } else if s == "withdraw"@ {
            Some(UserJourneyKind::TransactionWithdraw)
        } else if s == "send"@ {
            Some(UserJourneyKind::TransactionSend)
        } else if s == "trade"@ {
            Some(UserJourneyKind::TransactionTrade)
        } else if s == "shop"@ {
            Some(UserJourneyKind::ShopShop)
        } else if s == "buy"@ {
            Some(UserJourneyKind::ShopBuy)
        } else if s == "oregon"@ {
            Some(UserJourneyKind::OregonTrailMinigame)
        } else {
            None
        }
    }

    /// Decode a wire token: the canonical spellings only,
    /// case-insensitively.
    pub fn from_str(s: &str) -> (r: Result<UserJourneyKind, EncodingError>)
        ensures
            r == Self::decode_spec(s@),
    {
        if eq_fold(s, "grantitem") {
            Ok(UserJourneyKind::AdminGrantItem)
        } else if eq_fold(s, "solo") {
            Ok(UserJourneyKind::ExpeditionsSolo)
        } else if eq_fold(s, "checksolo") {
            Ok(UserJourneyKind::ExpeditionsCheckSolo)
        } else if eq_fold(s, "wander") {
            Ok(UserJourneyKind::ExpeditionsWander)
        } else if eq_fold(s, "weekly") {
            Ok(UserJourneyKind::ExpeditionsWeekly)
        } else if eq_fold(s, "atlas") {
            Ok(UserJourneyKind::ExplorationAtlas)
        } else if eq_fold(s, "destinations") {
            Ok(UserJourneyKind::ExplorationDestinations)
        } else if eq_fold(s, "location") {
            Ok(UserJourneyKind::ExplorationLocation)
        } else if eq_fold(s, "map") {
            Ok(UserJourneyKind::ExplorationMap)
        } else if eq_fold(s, "travel") {
            Ok(UserJourneyKind::ExplorationTravel)
        } else if eq_fold(s, "tripplan") {
            Ok(UserJourneyKind::ExplorationTripPlan)
        } else if eq_fold(s, "classinfo") {
            Ok(UserJourneyKind::GeneralClassInfo)
        } else if eq_fold(s, "image") {
            Ok(UserJourneyKind::GeneralImage)
        } else if eq_fold(s, "info") {
            Ok(UserJourneyKind::GeneralInfo)
        } else if eq_fold(s, "help") {
            Ok(UserJourneyKind::GeneralHelp)
        } else if eq_fold(s, "ping") {
            Ok(UserJourneyKind::GeneralPing)
        } else if eq_fold(s, "random") {
            Ok(UserJourneyKind::GeneralRandom)
        } else if eq_fold(s, "iteminfo") {
            Ok(UserJourneyKind::ItemInfo)
        } else if eq_fold(s, "itemuse") {
            Ok(UserJourneyKind::ItemUse)
        } else if eq_fold(s, "setdefault") {
            Ok(UserJourneyKind::ProfileDefaultSet)
        } else if eq_fold(s, "getdefault") {
            Ok(UserJourneyKind::ProfileDefaultGet)
        } else if eq_fold(s, "clearwallet") {
            Ok(UserJourneyKind::ProfileWalletClear)
        } else if eq_fold(s, "getwallet") {
            Ok(UserJourneyKind::ProfileWalletGet)
        } else if eq_fold(s, "setwallet") {
            Ok(UserJourneyKind::ProfileWalletSet)
        } else if eq_fold(s, "cooldown") {
            Ok(UserJourneyKind::ProfileCooldown)
        } else if eq_fold(s, "inventory") {
            Ok(UserJourneyKind::ProfileInventory)
        } else if eq_fold(s, "party") {
            Ok(UserJourneyKind::ProfileParty)
        } else if eq_fold(s, "setpreference") {
            Ok(UserJourneyKind::ProfilePreferenceSet)
        } else if eq_fold(s, "status") {
            Ok(UserJourneyKind::ProtagonistStatusCheck)
        } else if eq_fold(s, "class") {
            Ok(UserJourneyKind::ProtagonistClass)
        } else if eq_fold(s, "equip") {
            Ok(UserJourneyKind::ProtagonistEquip)
        } else if eq_fold(s, "protagonist") {
            Ok(UserJourneyKind::ProtagonistDisplay)
        } else if eq_fold(s, "protaginfo") {
            Ok(UserJourneyKind::ProtagonistInfo)
        } else if eq_fold(s, "rename") {
            Ok(UserJourneyKind::ProtagonistNameSet)
        } else if eq_fold(s, "roll") {
            Ok(UserJourneyKind::ProtagonistRoll)
        } else if eq_fold(s, "unequip") {
            Ok(UserJourneyKind::ProtagonistUnequip)
        } else if eq_fold(s, "unequipall") {
            Ok(UserJourneyKind::ProtagonistUnequipAll)
        } else if eq_fold(s, "levels") {
            Ok(UserJourneyKind::StatisticsLevels)
        } else if eq_fold(s, "population") {
            Ok(UserJourneyKind::StatisticsPopulations)
        } else if eq_fold(s, "train") {
            Ok(UserJourneyKind::TrainingTrain)
        } else if eq_fold(s, "claimbounced") {
            Ok(UserJourneyKind::TransactionClaimBounced)
        } else if eq_fold(s, "deposit") {
            Ok(UserJourneyKind::TransactionDeposit)
        } else if eq_fold(s, "withdraw") {
            Ok(UserJourneyKind::TransactionWithdraw)
        } else if eq_fold(s, "send") {
            Ok(UserJourneyKind::TransactionSend)
        } else if eq_fold(s, "trade") {
            Ok(UserJourneyKind::TransactionTrade)
        } else if eq_fold(s, "shop") {
            Ok(UserJourneyKind::ShopShop)
        } else if eq_fold(s, "buy") {
            Ok(UserJourneyKind::ShopBuy)
        } else if eq_fold(s, "oregon") {
            Ok(UserJourneyKind::OregonTrailMinigame)
        } else {
            Err(EncodingError::InvalidEncoding)
        }
    }

    /// Parse a user-facing command token: exactly the listed spellings,
    /// canonical and alias alike.
    pub fn from_command_str(s: &str) -> (r: Option<UserJourneyKind>)
        ensures
            r == Self::command_spec(s@),
    {
        if eq_exact(s, "grantitem") {
            Some(UserJourneyKind::AdminGrantItem)
        } else if eq_exact(s, "solo") {
            Some(UserJourneyKind::ExpeditionsSolo)
        } else if eq_exact(s, "checksolo") {
            Some(UserJourneyKind::ExpeditionsCheckSolo)
        } else if eq_exact(s, "wander") {
            Some(UserJourneyKind::ExpeditionsWander)
        } else if eq_exact(s, "weekly") {
            Some(UserJourneyKind::ExpeditionsWeekly)
        } else if eq_exact(s, "atlas") {
            Some(UserJourneyKind::ExplorationAtlas)
        } else if eq_exact(s, "destinations") {
            Some(UserJourneyKind::ExplorationDestinations)
        } else if eq_exact(s, "location") {
            Some(UserJourneyKind::ExplorationLocation)
        } else if eq_exact(s, "map") {
            Some(UserJourneyKind::ExplorationMap)
        } else if eq_exact(s, "travel") {
            Some(UserJourneyKind::ExplorationTravel)
        } else if eq_exact(s, "tripplan") {
            Some(UserJourneyKind::ExplorationTripPlan)
        } else if eq_exact(s, "classinfo") {
            Some(UserJourneyKind::GeneralClassInfo)
        } else if eq_exact(s, "image") {
            Some(UserJourneyKind::GeneralImage)
        } else if eq_exact(s, "info") {
            Some(UserJourneyKind::GeneralInfo)
        } else if eq_exact(s, "help") {
            Some(UserJourneyKind::GeneralHelp)
        } else if eq_exact(s, "ping") {
            Some(UserJourneyKind::GeneralPing)
        } else if eq_exact(s, "random") {
            Some(UserJourneyKind::GeneralRandom)
        } else if eq_exact(s, "iteminfo") {
            Some(UserJourneyKind::ItemInfo)
        } else if eq_exact(s, "useitem") || eq_exact(s, "use") || eq_exact(s, "itemuse") {
            Some(UserJourneyKind::ItemUse)
        } else if eq_exact(s, "setdefault") {
            Some(UserJourneyKind::ProfileDefaultSet)
        } else if eq_exact(s, "getdefault") {
            Some(UserJourneyKind::ProfileDefaultGet)
        } else if eq_exact(s, "clearwallet") || eq_exact(s, "clearw") || eq_exact(s, "clearaddr") || eq_exact(s, "clearaddress") {
            Some(UserJourneyKind::ProfileWalletClear)
        } else if eq_exact(s, "getwallet") {
            Some(UserJourneyKind::ProfileWalletGet)
        } else if eq_exact(s, "setwallet") {
            Some(UserJourneyKind::ProfileWalletSet)
        } else if eq_exact(s, "cd") || eq_exact(s, "cooldown") {
            Some(UserJourneyKind::ProfileCooldown)
        } else if eq_exact(s, "inventory") || eq_exact(s, "inv") {
            Some(UserJourneyKind::ProfileInventory)
        } else if eq_exact(s, "party") {
            Some(UserJourneyKind::ProfileParty)
        } else if eq_exact(s, "setpreference") {
            Some(UserJourneyKind::ProfilePreferenceSet)
        } else if eq_exact(s, "status") || eq_exact(s, "checkstatus") {
            Some(UserJourneyKind::ProtagonistStatusCheck)
        } else if eq_exact(s, "class") {
            Some(UserJourneyKind::ProtagonistClass)
        } else if eq_exact(s, "equip") {
            Some(UserJourneyKind::ProtagonistEquip)
        } else if eq_exact(s, "protagonist") || eq_exact(s, "protag") {
            Some(UserJourneyKind::ProtagonistDisplay)
        } else if eq_exact(s, "protaginfo") {
            Some(UserJourneyKind::ProtagonistInfo)
        } else if eq_exact(s, "rename") {
            Some(UserJourneyKind::ProtagonistNameSet)
        } else if eq_exact(s, "roll") {
            Some(UserJourneyKind::ProtagonistRoll)
        } else if eq_exact(s, "unequip") {
            Some(UserJourneyKind::ProtagonistUnequip)
        } else if eq_exact(s, "unequipall") {
            Some(UserJourneyKind::ProtagonistUnequipAll)
        } else if eq_exact(s, "levels") {
            Some(UserJourneyKind::StatisticsLevels)
        } else if eq_exact(s, "population") {
            Some(UserJourneyKind::StatisticsPopulations)
        } else if eq_exact(s, "trainall") || eq_exact(s, "train") {
            Some(UserJourneyKind::TrainingTrain)
        } else if eq_exact(s, "claimbounced") {
            Some(UserJourneyKind::TransactionClaimBounced)
        } else if eq_exact(s, "deposit") {
            Some(UserJourneyKind::TransactionDeposit)
        } else if eq_exact(s, "withdraw") {
            Some(UserJourneyKind::TransactionWithdraw)
        } else if eq_exact(s, "send") {
            Some(UserJourneyKind::TransactionSend)
        } else if eq_exact(s, "trade") {
            Some(UserJourneyKind::TransactionTrade)
        } else if eq_exact(s, "shop") {
            Some(UserJourneyKind::ShopShop)
        } else if eq_exact(s, "buy") {
            Some(UserJourneyKind::ShopBuy)
        } else if eq_exact(s, "oregon") {
            Some(UserJourneyKind::OregonTrailMinigame)
        } else {
            None
        }
    }

    /// The canonical wire token.
    pub fn to_str(&self) -> (r: &'static str)
        ensures
            r@ == self.token(),
    {
        match self {
            UserJourneyKind::AdminGrantItem => "grantitem",
            UserJourneyKind::ExpeditionsSolo => "solo",
            UserJourneyKind::ExpeditionsCheckSolo => "checksolo",
            UserJourneyKind::ExpeditionsWander => "wander",
            UserJourneyKind::ExpeditionsWeekly => "weekly",
            UserJourneyKind::ExplorationAtlas => "atlas",
            UserJourneyKind::ExplorationDestinations => "destinations",
            UserJourneyKind::ExplorationLocation => "location",
            UserJourneyKind::ExplorationMap => "map",
            UserJourneyKind::ExplorationTravel => "travel",
            UserJourneyKind::ExplorationTripPlan => "tripplan",
            UserJourneyKind::GeneralClassInfo => "classinfo",
            UserJourneyKind::GeneralImage => "image",
            UserJourneyKind::GeneralInfo => "info",
            UserJourneyKind::GeneralHelp => "help",
            UserJourneyKind::GeneralPing => "ping",
            UserJourneyKind::GeneralRandom => "random",
            UserJourneyKind::ItemInfo => "iteminfo",
            UserJourneyKind::ItemUse => "itemuse",
            UserJourneyKind::ProfileDefaultSet => "setdefault",
            UserJourneyKind::ProfileDefaultGet => "getdefault",
            UserJourneyKind::ProfileWalletClear => "clearwallet",
            UserJourneyKind::ProfileWalletGet => "getwallet",
            UserJourneyKind::ProfileWalletSet => "setwallet",
            UserJourneyKind::ProfileCooldown => "cooldown",
            UserJourneyKind::ProfileInventory => "inventory",
            UserJourneyKind::ProfileParty => "party",
            UserJourneyKind::ProfilePreferenceSet => "setpreference",
            UserJourneyKind::ProtagonistStatusCheck => "status",
            UserJourneyKind::ProtagonistClass => "class",
            UserJourneyKind::ProtagonistEquip => "equip",
            UserJourneyKind::ProtagonistDisplay => "protagonist",
            UserJourneyKind::ProtagonistInfo => "protaginfo",
            UserJourneyKind::ProtagonistNameSet => "rename",
            UserJourneyKind::ProtagonistRoll => "roll",
            UserJourneyKind::ProtagonistUnequip => "unequip",
            UserJourneyKind::ProtagonistUnequipAll => "unequipall",
            UserJourneyKind::StatisticsLevels => "levels",
            UserJourneyKind::StatisticsPopulations => "population",
            UserJourneyKind::TrainingTrain => "train",
            UserJourneyKind::TransactionClaimBounced => "claimbounced",
            UserJourneyKind::TransactionDeposit => "deposit",
            UserJourneyKind::TransactionWithdraw => "withdraw",
            UserJourneyKind::TransactionSend => "send",
            UserJourneyKind::TransactionTrade => "trade",
            UserJourneyKind::ShopShop => "shop",
            UserJourneyKind::ShopBuy => "buy",
            UserJourneyKind::OregonTrailMinigame => "oregon",
        }
    }

    /// Every spelling the command-token parser accepts, canonical and
    /// alias alike, in the parser's order.
    pub open spec fn command_tokens() -> Seq<Seq<char>> {
        seq![
            "grantitem"@,
            "solo"@,
            "checksolo"@,
            "wander"@,
            "weekly"@,
            "atlas"@,
            "destinations"@,
            "location"@,
            "map"@,
            "travel"@,
            "tripplan"@,
            "classinfo"@,
            "image"@,
            "info"@,
            "help"@,
            "ping"@,
            "random"@,
            "iteminfo"@,
            "useitem"@,
            "use"@,
            "itemuse"@,
            "setdefault"@,
            "getdefault"@,
            "clearwallet"@,
            "clearw"@,
            "clearaddr"@,
            "clearaddress"@,
            "getwallet"@,
            "setwallet"@,
            "cd"@,
            "cooldown"@,
            "inventory"@,
            "inv"@,
            "party"@,
            "setpreference"@,
            "status"@,
            "checkstatus"@,
            "class"@,
            "equip"@,
            "protagonist"@,
            "protag"@,
            "protaginfo"@,
            "rename"@,
            "roll"@,
            "unequip"@,
            "unequipall"@,
            "levels"@,
            "population"@,
            "trainall"@,
            "train"@,
            "claimbounced"@,
            "deposit"@,
            "withdraw"@,
            "send"@,
            "trade"@,
            "shop"@,
            "buy"@,
            "oregon"@,
        ]
    }

    /// Every spelling the command-token parser accepts, as plain strings.
    pub fn str_forms() -> (r: [&'static str; 58])
        ensures
            r@.len() == 58,
            forall|i: int| 0 <= i < 58 ==> (#[trigger] r@[i])@ == Self::command_tokens()[i],
    {
        let arr = [
            "grantitem",
            "solo",
            "checksolo",
            "wander",
            "weekly",
            "atlas",
            "destinations",
            "location",
            "map",
            "travel",
            "tripplan",
            "classinfo",
            "image",
            "info",
            "help",
            "ping",
            "random",
            "iteminfo",
            "useitem",
            "use",
            "itemuse",
            "setdefault",
            "getdefault",
            "clearwallet",
            "clearw",
            "clearaddr",
            "clearaddress",
            "getwallet",
            "setwallet",
            "cd",
            "cooldown",
            "inventory",
            "inv",
            "party",
            "setpreference",
            "status",
            "checkstatus",
            "class",
            "equip",
            "protagonist",
            "protag",
            "protaginfo",
            "rename",
            "roll",
            "unequip",
            "unequipall",
            "levels",
            "population",
            "trainall",
            "train",
            "claimbounced",
            "deposit",
            "withdraw",
            "send",
            "trade",
            "shop",
            "buy",
            "oregon",
        ];
        proof {
            assert(arr@[0]@ == Self::command_tokens()[0]);
            assert(arr@[1]@ == Self::command_tokens()[1]);
            assert(arr@[2]@ == Self::command_tokens()[2]);
            assert(arr@[3]@ == Self::command_tokens()[3]);
            assert(arr@[4]@ == Self::command_tokens()[4]);
            assert(arr@[5]@ == Self::command_tokens()[5]);
            assert(arr@[6]@ == Self::command_tokens()[6]);
            assert(arr@[7]@ == Self::command_tokens()[7]);
            assert(arr@[8]@ == Self::command_tokens()[8]);
            assert(arr@[9]@ == Self::command_tokens()[9]);
            assert(arr@[10]@ == Self::command_tokens()[10]);
            assert(arr@[11]@ == Self::command_tokens()[11]);
            assert(arr@[12]@ == Self::command_tokens()[12]);
            assert(arr@[13]@ == Self::command_tokens()[13]);
            assert(arr@[14]@ == Self::command_tokens()[14]);
            assert(arr@[15]@ == Self::command_tokens()[15]);
            assert(arr@[16]@ == Self::command_tokens()[16]);
            assert(arr@[17]@ == Self::command_tokens()[17]);
            assert(arr@[18]@ == Self::command_tokens()[18]);
            assert(arr@[19]@ == Self::command_tokens()[19]);
            assert(arr@[20]@ == Self::command_tokens()[20]);
            assert(arr@[21]@ == Self::command_tokens()[21]);
            assert(arr@[22]@ == Self::command_tokens()[22]);
            assert(arr@[23]@ == Self::command_tokens()[23]);
            assert(arr@[24]@ == Self::command_tokens()[24]);
            assert(arr@[25]@ == Self::command_tokens()[25]);
            assert(arr@[26]@ == Self::command_tokens()[26]);
            assert(arr@[27]@ == Self::command_tokens()[27]);
            assert(arr@[28]@ == Self::command_tokens()[28]);
            assert(arr@[29]@ == Self::command_tokens()[29]);
            assert(arr@[30]@ == Self::command_tokens()[30]);
            assert(arr@[31]@ == Self::command_tokens()[31]);
            assert(arr@[32]@ == Self::command_tokens()[32]);
            assert(arr@[33]@ == Self::command_tokens()[33]);
            assert(arr@[34]@ == Self::command_tokens()[34]);
            assert(arr@[35]@ == Self::command_tokens()[35]);
            assert(arr@[36]@ == Self::command_tokens()[36]);
            assert(arr@[37]@ == Self::command_tokens()[37]);
            assert(arr@[38]@ == Self::command_tokens()[38]);
            assert(arr@[39]@ == Self::command_tokens()[39]);
            assert(arr@[40]@ == Self::command_tokens()[40]);
            assert(arr@[41]@ == Self::command_tokens()[41]);
            assert(arr@[42]@ == Self::command_tokens()[42]);
            assert(arr@[43]@ == Self::command_tokens()[43]);
            assert(arr@[44]@ == Self::command_tokens()[44]);
            assert(arr@[45]@ == Self::command_tokens()[45]);
            assert(arr@[46]@ == Self::command_tokens()[46]);
            assert(arr@[47]@ == Self::command_tokens()[47]);
            assert(arr@[48]@ == Self::command_tokens()[48]);
            assert(arr@[49]@ == Self::command_tokens()[49]);
            assert(arr@[50]@ == Self::command_tokens()[50]);
            assert(arr@[51]@ == Self::command_tokens()[51]);
            assert(arr@[52]@ == Self::command_tokens()[52]);
            assert(arr@[53]@ == Self::command_tokens()[53]);
            assert(arr@[54]@ == Self::command_tokens()[54]);
            assert(arr@[55]@ == Self::command_tokens()[55]);
            assert(arr@[56]@ == Self::command_tokens()[56]);
            assert(arr@[57]@ == Self::command_tokens()[57]);
        }
        arr
    }

    /// Whether the command runs in a single step, with no follow-up
    /// interaction to wait for.
    pub open spec fn atomic_spec(self) -> bool {
        match self {
            UserJourneyKind::AdminGrantItem => true,
            UserJourneyKind::ExpeditionsSolo => false,
            UserJourneyKind::ExpeditionsCheckSolo => true,
            UserJourneyKind::ExpeditionsWander => true,
            UserJourneyKind::ExpeditionsWeekly => true,
            UserJourneyKind::ExplorationAtlas => true,
            UserJourneyKind::ExplorationDestinations => true,
            UserJourneyKind::ExplorationLocation => true,
            UserJourneyKind::ExplorationMap => true,
            UserJourneyKind::ExplorationTravel => false,
            UserJourneyKind::ExplorationTripPlan => true,
            UserJourneyKind::GeneralClassInfo => true,
            UserJourneyKind::GeneralImage => true,
            UserJourneyKind::GeneralInfo => true,
            UserJourneyKind::GeneralHelp => true,
            UserJourneyKind::GeneralPing => true,
            UserJourneyKind::GeneralRandom => true,
            UserJourneyKind::ItemInfo => true,
            UserJourneyKind::ItemUse => false,
            UserJourneyKind::ProfileDefaultSet => true,
            UserJourneyKind::ProfileDefaultGet => true,
            UserJourneyKind::ProfileWalletClear => true,
            UserJourneyKind::ProfileWalletGet => true,
            UserJourneyKind::ProfileWalletSet => true,
            UserJourneyKind::ProfileCooldown => true,
            UserJourneyKind::ProfileInventory => true,
            UserJourneyKind::ProfileParty => true,
            UserJourneyKind::ProfilePreferenceSet => true,
            UserJourneyKind::ProtagonistStatusCheck => true,
            UserJourneyKind::ProtagonistClass => false,
            UserJourneyKind::ProtagonistEquip => true,
            UserJourneyKind::ProtagonistDisplay => true,
            UserJourneyKind::ProtagonistInfo => true,
            UserJourneyKind::ProtagonistNameSet => true,
            UserJourneyKind::ProtagonistRoll => true,
            UserJourneyKind::ProtagonistUnequip => true,
            UserJourneyKind::ProtagonistUnequipAll => true,
            UserJourneyKind::StatisticsLevels => true,
            UserJourneyKind::StatisticsPopulations => true,
            UserJourneyKind::TrainingTrain => false,
            UserJourneyKind::TransactionClaimBounced => true,
            UserJourneyKind::TransactionDeposit => false,
            UserJourneyKind::TransactionWithdraw => true,
            UserJourneyKind::TransactionSend => false,
            UserJourneyKind::TransactionTrade => false,
            UserJourneyKind::ShopShop => true,
            UserJourneyKind::ShopBuy => false,
            UserJourneyKind::OregonTrailMinigame => false,
        }
    }

    /// Whether the command runs in a single step.
    pub fn is_atomic_command(&self) -> (r: bool)
        ensures
            r == self.atomic_spec(),
    {
        match self {
            UserJourneyKind::AdminGrantItem => true,
            UserJourneyKind::ExpeditionsSolo => false,
            UserJourneyKind::ExpeditionsCheckSolo => true,
            UserJourneyKind::ExpeditionsWander => true,
            UserJourneyKind::ExpeditionsWeekly => true,
            UserJourneyKind::ExplorationAtlas => true,
            UserJourneyKind::ExplorationDestinations => true,
            UserJourneyKind::ExplorationLocation => true,
            UserJourneyKind::ExplorationMap => true,
            UserJourneyKind::ExplorationTravel => false,
            UserJourneyKind::ExplorationTripPlan => true,
            UserJourneyKind::GeneralClassInfo => true,
            UserJourneyKind::GeneralImage => true,
            UserJourneyKind::GeneralInfo => true,
            UserJourneyKind::GeneralHelp => true,
            UserJourneyKind::GeneralPing => true,
            UserJourneyKind::GeneralRandom => true,
            UserJourneyKind::ItemInfo => true,
            UserJourneyKind::ItemUse => false,
            UserJourneyKind::ProfileDefaultSet => true,
            UserJourneyKind::ProfileDefaultGet => true,
            UserJourneyKind::ProfileWalletClear => true,
            UserJourneyKind::ProfileWalletGet => true,
            UserJourneyKind::ProfileWalletSet => true,
            UserJourneyKind::ProfileCooldown => true,
            UserJourneyKind::ProfileInventory => true,
            UserJourneyKind::ProfileParty => true,
            UserJourneyKind::ProfilePreferenceSet => true,
            UserJourneyKind::ProtagonistStatusCheck => true,
            UserJourneyKind::ProtagonistClass => false,
            UserJourneyKind::ProtagonistEquip => true,
            UserJourneyKind::ProtagonistDisplay => true,
            UserJourneyKind::ProtagonistInfo => true,
            UserJourneyKind::ProtagonistNameSet => true,
            UserJourneyKind::ProtagonistRoll => true,
            UserJourneyKind::ProtagonistUnequip => true,
            UserJourneyKind::ProtagonistUnequipAll => true,
            UserJourneyKind::StatisticsLevels => true,
            UserJourneyKind::StatisticsPopulations => true,
            UserJourneyKind::TrainingTrain => false,
            UserJourneyKind::TransactionClaimBounced => true,
            UserJourneyKind::TransactionDeposit => false,
            UserJourneyKind::TransactionWithdraw => true,
            UserJourneyKind::TransactionSend => false,
            UserJourneyKind::TransactionTrade => false,
            UserJourneyKind::ShopShop => true,
            UserJourneyKind::ShopBuy => false,
            UserJourneyKind::OregonTrailMinigame => false,
        }
    }
}

/// Law: decoding an encoded user-journey kind restores the variant.
#[verifier::rlimit(100)]
#[verifier::spinoff_prover]
pub proof fn theorem_journey_round_trip(x: UserJourneyKind)
    ensures
        UserJourneyKind::decode_spec(x.token()) == Ok::<UserJourneyKind, EncodingError>(x),
{
    reveal_strlit("grantitem");
    reveal_strlit("solo");
    reveal_strlit("checksolo");
    reveal_strlit("wander");
    reveal_strlit("weekly");
    reveal_strlit("atlas");
    reveal_strlit("destinations");
    reveal_strlit("location");
    reveal_strlit("map");
    reveal_strlit("travel");
    reveal_strlit("tripplan");
    reveal_strlit("classinfo");
    reveal_strlit("image");
    reveal_strlit("info");
    reveal_strlit("help");
    reveal_strlit("ping");
    reveal_strlit("random");
    reveal_strlit("iteminfo");
    reveal_strlit("itemuse");
    reveal_strlit("setdefault");
    reveal_strlit("getdefault");
    reveal_strlit("clearwallet");
    reveal_strlit("getwallet");
    reveal_strlit("setwallet");
    reveal_strlit("cooldown");
    reveal_strlit("inventory");
    reveal_strlit("party");
    reveal_strlit("setpreference");
    reveal_strlit("status");
    reveal_strlit("class");
    reveal_strlit("equip");
    reveal_strlit("protagonist");
    reveal_strlit("protaginfo");
    reveal_strlit("rename");
    reveal_strlit("roll");
    reveal_strlit("unequip");
    reveal_strlit("unequipall");
    reveal_strlit("levels");
    reveal_strlit("population");
    reveal_strlit("train");
    reveal_strlit("claimbounced");
    reveal_strlit("deposit");
    reveal_strlit("withdraw");
    reveal_strlit("send");
    reveal_strlit("trade");
    reveal_strlit("shop");
    reveal_strlit("buy");
    reveal_strlit("oregon");
    assert("grantitem"@.len() == 9);
    assert("solo"@.len() == 4);
    assert("checksolo"@.len() == 9);
    assert("wander"@.len() == 6);
    assert("weekly"@.len() == 6);
    assert("atlas"@.len() == 5);
    assert("destinations"@.len() == 12);
    assert("location"@.len() == 8);
    assert("map"@.len() == 3);
    assert("travel"@.len() == 6);
    assert("tripplan"@.len() == 8);
    assert("classinfo"@.len() == 9);
    assert("image"@.len() == 5);
    assert("info"@.len() == 4);
    assert("help"@.len() == 4);
    assert("ping"@.len() == 4);
    assert("random"@.len() == 6);
    assert("iteminfo"@.len() == 8);
    assert("itemuse"@.len() == 7);
    assert("setdefault"@.len() == 10);
    assert("getdefault"@.len() == 10);
    assert("clearwallet"@.len() == 11);
    assert("getwallet"@.len() == 9);
    assert("setwallet"@.len() == 9);
    assert("cooldown"@.len() == 8);
    assert("inventory"@.len() == 9);
    assert("party"@.len() == 5);
    assert("setpreference"@.len() == 13);
    assert("status"@.len() == 6);
    assert("class"@.len() == 5);
    assert("equip"@.len() == 5);
    assert("protagonist"@.len() == 11);
    assert("protaginfo"@.len() == 10);
    assert("rename"@.len() == 6);
    assert("roll"@.len() == 4);
    assert("unequip"@.len() == 7);
    assert("unequipall"@.len() == 10);
    assert("levels"@.len() == 6);
    assert("population"@.len() == 10);
    assert("train"@.len() == 5);
    assert("claimbounced"@.len() == 12);
    assert("deposit"@.len() == 7);
    assert("withdraw"@.len() == 8);
    assert("send"@.len() == 4);
    assert("trade"@.len() == 5);
    assert("shop"@.len() == 4);
    assert("buy"@.len() == 3);
    assert("oregon"@.len() == 6);
    assert forall|i: int| 0 <= i < "grantitem"@.len() implies fold_char(
        #[trigger] "grantitem"@[i],
    ) == "grantitem"@[i] by {}
    lemma_fold_fixed("grantitem"@);
    assert forall|i: int| 0 <= i < "solo"@.len() implies fold_char(
        #[trigger] "solo"@[i],
    ) == "solo"@[i] by {}
    lemma_fold_fixed("solo"@);
    assert forall|i: int| 0 <= i < "checksolo"@.len() implies fold_char(
        #[trigger] "checksolo"@[i],
    ) == "checksolo"@[i] by {}
    lemma_fold_fixed("checksolo"@);
    assert forall|i: int| 0 <= i < "wander"@.len() implies fold_char(
        #[trigger] "wander"@[i],
    ) == "wander"@[i] by {}
    lemma_fold_fixed("wander"@);
    assert forall|i: int| 0 <= i < "weekly"@.len() implies fold_char(
        #[trigger] "weekly"@[i],
    ) == "weekly"@[i] by {}
    lemma_fold_fixed("weekly"@);
    assert forall|i: int| 0 <= i < "atlas"@.len() implies fold_char(
        #[trigger] "atlas"@[i],
    ) == "atlas"@[i] by {}
    lemma_fold_fixed("atlas"@);
    assert forall|i: int| 0 <= i < "destinations"@.len() implies fold_char(
        #[trigger] "destinations"@[i],
    ) == "destinations"@[i] by {}
    lemma_fold_fixed("destinations"@);
    assert forall|i: int| 0 <= i < "location"@.len() implies fold_char(
        #[trigger] "location"@[i],
    ) == "location"@[i] by {}
    lemma_fold_fixed("location"@);
    assert forall|i: int| 0 <= i < "map"@.len() implies fold_char(
        #[trigger] "map"@[i],
    ) == "map"@[i] by {}
    lemma_fold_fixed("map"@);
    assert forall|i: int| 0 <= i < "travel"@.len() implies fold_char(
        #[trigger] "travel"@[i],
    ) == "travel"@[i] by {}
    lemma_fold_fixed("travel"@);
    assert forall|i: int| 0 <= i < "tripplan"@.len() implies fold_char(
        #[trigger] "tripplan"@[i],
    ) == "tripplan"@[i] by {}
    lemma_fold_fixed("tripplan"@);
    assert forall|i: int| 0 <= i < "classinfo"@.len() implies fold_char(
        #[trigger] "classinfo"@[i],
    ) == "classinfo"@[i] by {}
    lemma_fold_fixed("classinfo"@);
    assert forall|i: int| 0 <= i < "image"@.len() implies fold_char(
        #[trigger] "image"@[i],
    ) == "image"@[i] by {}
    lemma_fold_fixed("image"@);
    assert forall|i: int| 0 <= i < "info"@.len() implies fold_char(
        #[trigger] "info"@[i],
    ) == "info"@[i] by {}
    lemma_fold_fixed("info"@);
    assert forall|i: int| 0 <= i < "help"@.len() implies fold_char(
        #[trigger] "help"@[i],
    ) == "help"@[i] by {}
    lemma_fold_fixed("help"@);
    assert forall|i: int| 0 <= i < "ping"@.len() implies fold_char(
        #[trigger] "ping"@[i],
    ) == "ping"@[i] by {}
    lemma_fold_fixed("ping"@);
    assert forall|i: int| 0 <= i < "random"@.len() implies fold_char(
        #[trigger] "random"@[i],
    ) == "random"@[i] by {}
    lemma_fold_fixed("random"@);
    assert forall|i: int| 0 <= i < "iteminfo"@.len() implies fold_char(
        #[trigger] "iteminfo"@[i],
    ) == "iteminfo"@[i] by {}
    lemma_fold_fixed("iteminfo"@);
    assert forall|i: int| 0 <= i < "itemuse"@.len() implies fold_char(
        #[trigger] "itemuse"@[i],
    ) == "itemuse"@[i] by {}
    lemma_fold_fixed("itemuse"@);
    assert forall|i: int| 0 <= i < "setdefault"@.len() implies fold_char(
        #[trigger] "setdefault"@[i],
    ) == "setdefault"@[i] by {}
    lemma_fold_fixed("setdefault"@);
    assert forall|i: int| 0 <= i < "getdefault"@.len() implies fold_char(
        #[trigger] "getdefault"@[i],
    ) == "getdefault"@[i] by {}
    lemma_fold_fixed("getdefault"@);
    assert forall|i: int| 0 <= i < "clearwallet"@.len() implies fold_char(
        #[trigger] "clearwallet"@[i],
    ) == "clearwallet"@[i] by {}
    lemma_fold_fixed("clearwallet"@);
    assert forall|i: int| 0 <= i < "getwallet"@.len() implies fold_char(
        #[trigger] "getwallet"@[i],
    ) == "getwallet"@[i] by {}
    lemma_fold_fixed("getwallet"@);
    assert forall|i: int| 0 <= i < "setwallet"@.len() implies fold_char(
        #[trigger] "setwallet"@[i],
    ) == "setwallet"@[i] by {}
    lemma_fold_fixed("setwallet"@);
    assert forall|i: int| 0 <= i < "cooldown"@.len() implies fold_char(
        #[trigger] "cooldown"@[i],
    ) == "cooldown"@[i] by {}
    lemma_fold_fixed("cooldown"@);
    assert forall|i: int| 0 <= i < "inventory"@.len() implies fold_char(
        #[trigger] "inventory"@[i],
    ) == "inventory"@[i] by {}
    lemma_fold_fixed("inventory"@);
    assert forall|i: int| 0 <= i < "party"@.len() implies fold_char(
        #[trigger] "party"@[i],
    ) == "party"@[i] by {}
    lemma_fold_fixed("party"@);
    assert forall|i: int| 0 <= i < "setpreference"@.len() implies fold_char(
        #[trigger] "setpreference"@[i],
    ) == "setpreference"@[i] by {}
    lemma_fold_fixed("setpreference"@);
    assert forall|i: int| 0 <= i < "status"@.len() implies fold_char(
        #[trigger] "status"@[i],
    ) == "status"@[i] by {}
    lemma_fold_fixed("status"@);
    assert forall|i: int| 0 <= i < "class"@.len() implies fold_char(
        #[trigger] "class"@[i],
    ) == "class"@[i] by {}
    lemma_fold_fixed("class"@);
    assert forall|i: int| 0 <= i < "equip"@.len() implies fold_char(
        #[trigger] "equip"@[i],
    ) == "equip"@[i] by {}
    lemma_fold_fixed("equip"@);
    assert forall|i: int| 0 <= i < "protagonist"@.len() implies fold_char(
        #[trigger] "protagonist"@[i],
    ) == "protagonist"@[i] by {}
    lemma_fold_fixed("protagonist"@);
    assert forall|i: int| 0 <= i < "protaginfo"@.len() implies fold_char(
        #[trigger] "protaginfo"@[i],
    ) == "protaginfo"@[i] by {}
    lemma_fold_fixed("protaginfo"@);
    assert forall|i: int| 0 <= i < "rename"@.len() implies fold_char(
        #[trigger] "rename"@[i],
    ) == "rename"@[i] by {}
    lemma_fold_fixed("rename"@);
    assert forall|i: int| 0 <= i < "roll"@.len() implies fold_char(
        #[trigger] "roll"@[i],
    ) == "roll"@[i] by {}
    lemma_fold_fixed("roll"@);
    assert forall|i: int| 0 <= i < "unequip"@.len() implies fold_char(
        #[trigger] "unequip"@[i],
    ) == "unequip"@[i] by {}
    lemma_fold_fixed("unequip"@);
    assert forall|i: int| 0 <= i < "unequipall"@.len() implies fold_char(
        #[trigger] "unequipall"@[i],
    ) == "unequipall"@[i] by {}
    lemma_fold_fixed("unequipall"@);
    assert forall|i: int| 0 <= i < "levels"@.len() implies fold_char(
        #[trigger] "levels"@[i],
    ) == "levels"@[i] by {}
    lemma_fold_fixed("levels"@);
    assert forall|i: int| 0 <= i < "population"@.len() implies fold_char(
        #[trigger] "population"@[i],
    ) == "population"@[i] by {}
    lemma_fold_fixed("population"@);
    assert forall|i: int| 0 <= i < "train"@.len() implies fold_char(
        #[trigger] "train"@[i],
    ) == "train"@[i] by {}
    lemma_fold_fixed("train"@);
    assert forall|i: int| 0 <= i < "claimbounced"@.len() implies fold_char(
        #[trigger] "claimbounced"@[i],
    ) == "claimbounced"@[i] by {}
    lemma_fold_fixed("claimbounced"@);
    assert forall|i: int| 0 <= i < "deposit"@.len() implies fold_char(
        #[trigger] "deposit"@[i],
    ) == "deposit"@[i] by {}
    lemma_fold_fixed("deposit"@);
    assert forall|i: int| 0 <= i < "withdraw"@.len() implies fold_char(
        #[trigger] "withdraw"@[i],
    ) == "withdraw"@[i] by {}
    lemma_fold_fixed("withdraw"@);
    assert forall|i: int| 0 <= i < "send"@.len() implies fold_char(
        #[trigger] "send"@[i],
    ) == "send"@[i] by {}
    lemma_fold_fixed("send"@);
    assert forall|i: int| 0 <= i < "trade"@.len() implies fold_char(
        #[trigger] "trade"@[i],
    ) == "trade"@[i] by {}
    lemma_fold_fixed("trade"@);
    assert forall|i: int| 0 <= i < "shop"@.len() implies fold_char(
        #[trigger] "shop"@[i],
    ) == "shop"@[i] by {}
    lemma_fold_fixed("shop"@);
    assert forall|i: int| 0 <= i < "buy"@.len() implies fold_char(
        #[trigger] "buy"@[i],
    ) == "buy"@[i] by {}
    lemma_fold_fixed("buy"@);
    assert forall|i: int| 0 <= i < "oregon"@.len() implies fold_char(
        #[trigger] "oregon"@[i],
    ) == "oregon"@[i] by {}
    lemma_fold_fixed("oregon"@);
    match x {
        UserJourneyKind::AdminGrantItem => {
        },
        UserJourneyKind::ExpeditionsSolo => {
        },
        UserJourneyKind::ExpeditionsCheckSolo => {
            assert("checksolo"@[0] != "grantitem"@[0]);
        },
        UserJourneyKind::ExpeditionsWander => {
        },
        UserJourneyKind::ExpeditionsWeekly => {
            assert("weekly"@[1] != "wander"@[1]);
        },
        UserJourneyKind::ExplorationAtlas => {
        },
        UserJourneyKind::ExplorationDestinations => {
        },
        UserJourneyKind::ExplorationLocation => {
        },
        UserJourneyKind::ExplorationMap => {
        },
        UserJourneyKind::ExplorationTravel => {
            assert("travel"@[0] != "wander"@[0]);
            assert("travel"@[0] != "weekly"@[0]);
        },
        UserJourneyKind::ExplorationTripPlan => {
            assert("tripplan"@[0] != "location"@[0]);
        },
        UserJourneyKind::GeneralClassInfo => {
            assert("classinfo"@[0] != "grantitem"@[0]);
            assert("classinfo"@[1] != "checksolo"@[1]);
        },
        UserJourneyKind::GeneralImage => {
            assert("image"@[0] != "atlas"@[0]);
        },
        UserJourneyKind::GeneralInfo => {
            assert("info"@[0] != "solo"@[0]);
        },
        UserJourneyKind::GeneralHelp => {
            assert("help"@[0] != "solo"@[0]);
            assert("help"@[0] != "info"@[0]);
        },
        UserJourneyKind::GeneralPing => {
            assert("ping"@[0] != "solo"@[0]);
            assert("ping"@[0] != "info"@[0]);
            assert("ping"@[0] != "help"@[0]);
        },
        UserJourneyKind::GeneralRandom => {
            assert("random"@[0] != "wander"@[0]);
            assert("random"@[0] != "weekly"@[0]);
            assert("random"@[0] != "travel"@[0]);
        },
        UserJourneyKind::ItemInfo => {
            assert("iteminfo"@[0] != "location"@[0]);
            assert("iteminfo"@[0] != "tripplan"@[0]);
        },
        UserJourneyKind::ItemUse => {
        },
        UserJourneyKind::ProfileDefaultSet => {
        },
        UserJourneyKind::ProfileDefaultGet => {
            assert("getdefault"@[0] != "setdefault"@[0]);
        },
        UserJourneyKind::ProfileWalletClear => {
        },
        UserJourneyKind::ProfileWalletGet => {
            assert("getwallet"@[1] != "grantitem"@[1]);
            assert("getwallet"@[0] != "checksolo"@[0]);
            assert("getwallet"@[0] != "classinfo"@[0]);
        },
        UserJourneyKind::ProfileWalletSet => {
            assert("setwallet"@[0] != "grantitem"@[0]);
            assert("setwallet"@[0] != "checksolo"@[0]);
            assert("setwallet"@[0] != "classinfo"@[0]);
            assert("setwallet"@[0] != "getwallet"@[0]);
        },
        UserJourneyKind::ProfileCooldown => {
            assert("cooldown"@[0] != "location"@[0]);
            assert("cooldown"@[0] != "tripplan"@[0]);
            assert("cooldown"@[0] != "iteminfo"@[0]);
        },
        UserJourneyKind::ProfileInventory => {
            assert("inventory"@[0] != "grantitem"@[0]);
            assert("inventory"@[0] != "checksolo"@[0]);
            assert("inventory"@[0] != "classinfo"@[0]);
            assert("inventory"@[0] != "getwallet"@[0]);
            assert("inventory"@[0] != "setwallet"@[0]);
        },
        UserJourneyKind::ProfileParty => {
            assert("party"@[0] != "atlas"@[0]);
            assert("party"@[0] != "image"@[0]);
        },
        UserJourneyKind::ProfilePreferenceSet => {
        },
        UserJourneyKind::ProtagonistStatusCheck => {
            assert("status"@[0] != "wander"@[0]);
            assert("status"@[0] != "weekly"@[0]);
            assert("status"@[0] != "travel"@[0]);
            assert("status"@[0] != "random"@[0]);
        },
        UserJourneyKind::ProtagonistClass => {
            assert("class"@[0] != "atlas"@[0]);
            assert("class"@[0] != "image"@[0]);
            assert("class"@[0] != "party"@[0]);
        },
        UserJourneyKind::ProtagonistEquip => {
            assert("equip"@[0] != "atlas"@[0]);
            assert("equip"@[0] != "image"@[0]);
            assert("equip"@[0] != "party"@[0]);
            assert("equip"@[0] != "class"@[0]);
        },
        UserJourneyKind::ProtagonistDisplay => {
            assert("protagonist"@[0] != "clearwallet"@[0]);
        },
        UserJourneyKind::ProtagonistInfo => {
            assert("protaginfo"@[0] != "setdefault"@[0]);
            assert("protaginfo"@[0] != "getdefault"@[0]);
        },
        UserJourneyKind::ProtagonistNameSet => {
            assert("rename"@[0] != "wander"@[0]);
            assert("rename"@[0] != "weekly"@[0]);
            assert("rename"@[0] != "travel"@[0]);
            assert("rename"@[1] != "random"@[1]);
            assert("rename"@[0] != "status"@[0]);
        },
        UserJourneyKind::ProtagonistRoll => {
            assert("roll"@[0] != "solo"@[0]);
            assert("roll"@[0] != "info"@[0]);
            assert("roll"@[0] != "help"@[0]);
            assert("roll"@[0] != "ping"@[0]);
        },
        UserJourneyKind::ProtagonistUnequip => {
            assert("unequip"@[0] != "itemuse"@[0]);
        },
        UserJourneyKind::ProtagonistUnequipAll => {
            assert("unequipall"@[0] != "setdefault"@[0]);
            assert("unequipall"@[0] != "getdefault"@[0]);
            assert("unequipall"@[0] != "protaginfo"@[0]);
        },
        UserJourneyKind::StatisticsLevels => {
            assert("levels"@[0] != "wander"@[0]);
            assert("levels"@[0] != "weekly"@[0]);
            assert("levels"@[0] != "travel"@[0]);
            assert("levels"@[0] != "random"@[0]);
            assert("levels"@[0] != "status"@[0]);
            assert("levels"@[0] != "rename"@[0]);
        },
        UserJourneyKind::StatisticsPopulations => {
            assert("population"@[0] != "setdefault"@[0]);
            assert("population"@[0] != "getdefault"@[0]);
            assert("population"@[1] != "protaginfo"@[1]);
            assert("population"@[0] != "unequipall"@[0]);
        },
        UserJourneyKind::TrainingTrain => {
            assert("train"@[0] != "atlas"@[0]);
            assert("train"@[0] != "image"@[0]);
            assert("train"@[0] != "party"@[0]);
            assert("train"@[0] != "class"@[0]);
            assert("train"@[0] != "equip"@[0]);
        },
        UserJourneyKind::TransactionClaimBounced => {
            assert("claimbounced"@[0] != "destinations"@[0]);
        },
        UserJourneyKind::TransactionDeposit => {
            assert("deposit"@[0] != "itemuse"@[0]);
            assert("deposit"@[0] != "unequip"@[0]);
        },
        UserJourneyKind::TransactionWithdraw => {
            assert("withdraw"@[0] != "location"@[0]);
            assert("withdraw"@[0] != "tripplan"@[0]);
            assert("withdraw"@[0] != "iteminfo"@[0]);
            assert("withdraw"@[0] != "cooldown"@[0]);
        },
        UserJourneyKind::TransactionSend => {
            assert("send"@[1] != "solo"@[1]);
            assert("send"@[0] != "info"@[0]);
            assert("send"@[0] != "help"@[0]);
            assert("send"@[0] != "ping"@[0]);
            assert("send"@[0] != "roll"@[0]);
        },
        UserJourneyKind::TransactionTrade => {
            assert("trade"@[0] != "atlas"@[0]);
            assert("trade"@[0] != "image"@[0]);
            assert("trade"@[0] != "party"@[0]);
            assert("trade"@[0] != "class"@[0]);
            assert("trade"@[0] != "equip"@[0]);
            assert("trade"@[3] != "train"@[3]);
        },
        UserJourneyKind::ShopShop => {
            assert("shop"@[1] != "solo"@[1]);
            assert("shop"@[0] != "info"@[0]);
            assert("shop"@[0] != "help"@[0]);
            assert("shop"@[0] != "ping"@[0]);
            assert("shop"@[0] != "roll"@[0]);
            assert("shop"@[1] != "send"@[1]);
        },
        UserJourneyKind::ShopBuy => {
            assert("buy"@[0] != "map"@[0]);
        },
        UserJourneyKind::OregonTrailMinigame => {
            assert("oregon"@[0] != "wander"@[0]);
            assert("oregon"@[0] != "weekly"@[0]);
            assert("oregon"@[0] != "travel"@[0]);
            assert("oregon"@[0] != "random"@[0]);
            assert("oregon"@[0] != "status"@[0]);
            assert("oregon"@[0] != "rename"@[0]);
            assert("oregon"@[0] != "levels"@[0]);
        },
    }
}

/// Law: the canonical spelling of every variant is among the listed
/// command spellings, and parses back to the same variant.
#[verifier::rlimit(100)]
#[verifier::spinoff_prover]
pub proof fn theorem_journey_command_round_trip(x: UserJourneyKind)
    ensures
        UserJourneyKind::command_spec(x.token()) == Some(x),
{
    reveal_strlit("grantitem");
    reveal_strlit("solo");
    reveal_strlit("checksolo");
    reveal_strlit("wander");
    reveal_strlit("weekly");
    reveal_strlit("atlas");
    reveal_strlit("destinations");
    reveal_strlit("location");
    reveal_strlit("map");
    reveal_strlit("travel");
    reveal_strlit("tripplan");
    reveal_strlit("classinfo");
    reveal_strlit("image");
    reveal_strlit("info");
    reveal_strlit("help");
    reveal_strlit("ping");
    reveal_strlit("random");
    reveal_strlit("iteminfo");
    reveal_strlit("useitem");
    reveal_strlit("use");
    reveal_strlit("itemuse");
    reveal_strlit("setdefault");
    reveal_strlit("getdefault");
    reveal_strlit("clearwallet");
    reveal_strlit("clearw");
    reveal_strlit("clearaddr");
    reveal_strlit("clearaddress");
    reveal_strlit("getwallet");
    reveal_strlit("setwallet");
    reveal_strlit("cd");
    reveal_strlit("cooldown");
    reveal_strlit("inventory");
    reveal_strlit("inv");
    reveal_strlit("party");
    reveal_strlit("setpreference");
    reveal_strlit("status");
    reveal_strlit("checkstatus");
    reveal_strlit("class");
    reveal_strlit("equip");
    reveal_strlit("protagonist");
    reveal_strlit("protag");
    reveal_strlit("protaginfo");
    reveal_strlit("rename");
    reveal_strlit("roll");
    reveal_strlit("unequip");
    reveal_strlit("unequipall");
    reveal_strlit("levels");
    reveal_strlit("population");
    reveal_strlit("trainall");
    reveal_strlit("train");
    reveal_strlit("claimbounced");
    reveal_strlit("deposit");
    reveal_strlit("withdraw");
    reveal_strlit("send");
    reveal_strlit("trade");
    reveal_strlit("shop");
    reveal_strlit("buy");
    reveal_strlit("oregon");
    assert("grantitem"@.len() == 9);
    assert("solo"@.len() == 4);
    assert("checksolo"@.len() == 9);
    assert("wander"@.len() == 6);
    assert("weekly"@.len() == 6);
    assert("atlas"@.len() == 5);
    assert("destinations"@.len() == 12);
    assert("location"@.len() == 8);
    assert("map"@.len() == 3);
    assert("travel"@.len() == 6);
    assert("tripplan"@.len() == 8);
    assert("classinfo"@.len() == 9);
    assert("image"@.len() == 5);
    assert("info"@.len() == 4);
    assert("help"@.len() == 4);
    assert("ping"@.len() == 4);
    assert("random"@.len() == 6);
    assert("iteminfo"@.len() == 8);
    assert("useitem"@.len() == 7);
    assert("use"@.len() == 3);
    assert("itemuse"@.len() == 7);
    assert("setdefault"@.len() == 10);
    assert("getdefault"@.len() == 10);
    assert("clearwallet"@.len() == 11);
    assert("clearw"@.len() == 6);
    assert("clearaddr"@.len() == 9);
    assert("clearaddress"@.len() == 12);
    assert("getwallet"@.len() == 9);
    assert("setwallet"@.len() == 9);
    assert("cd"@.len() == 2);
    assert("cooldown"@.len() == 8);
    assert("inventory"@.len() == 9);
    assert("inv"@.len() == 3);
    assert("party"@.len() == 5);
    assert("setpreference"@.len() == 13);
    assert("status"@.len() == 6);
    assert("checkstatus"@.len() == 11);
    assert("class"@.len() == 5);
    assert("equip"@.len() == 5);
    assert("protagonist"@.len() == 11);
    assert("protag"@.len() == 6);
    assert("protaginfo"@.len() == 10);
    assert("rename"@.len() == 6);
    assert("roll"@.len() == 4);
    assert("unequip"@.len() == 7);
    assert("unequipall"@.len() == 10);
    assert("levels"@.len() == 6);
    assert("population"@.len() == 10);
    assert("trainall"@.len() == 8);
    assert("train"@.len() == 5);
    assert("claimbounced"@.len() == 12);
    assert("deposit"@.len() == 7);
    assert("withdraw"@.len() == 8);
    assert("send"@.len() == 4);
    assert("trade"@.len() == 5);
    assert("shop"@.len() == 4);
    assert("buy"@.len() == 3);
    assert("oregon"@.len() == 6);
    match x {
        UserJourneyKind::AdminGrantItem => {
        },
        UserJourneyKind::ExpeditionsSolo => {
        },
        UserJourneyKind::ExpeditionsCheckSolo => {
            assert("checksolo"@[0] != "grantitem"@[0]);
        },
        UserJourneyKind::ExpeditionsWander => {
        },
        UserJourneyKind::ExpeditionsWeekly => {
            assert("weekly"@[1] != "wander"@[1]);
        },
        UserJourneyKind::ExplorationAtlas => {
        },
        UserJourneyKind::ExplorationDestinations => {
        },
        UserJourneyKind::ExplorationLocation => {
        },
        UserJourneyKind::ExplorationMap => {
        },
        UserJourneyKind::ExplorationTravel => {
            assert("travel"@[0] != "wander"@[0]);
            assert("travel"@[0] != "weekly"@[0]);
        },
        UserJourneyKind::ExplorationTripPlan => {
            assert("tripplan"@[0] != "location"@[0]);
        },
        UserJourneyKind::GeneralClassInfo => {
            assert("classinfo"@[0] != "grantitem"@[0]);
            assert("classinfo"@[1] != "checksolo"@[1]);
        },
        UserJourneyKind::GeneralImage => {
            assert("image"@[0] != "atlas"@[0]);
        },
        UserJourneyKind::GeneralInfo => {
            assert("info"@[0] != "solo"@[0]);
        },
        UserJourneyKind::GeneralHelp => {
            assert("help"@[0] != "solo"@[0]);
            assert("help"@[0] != "info"@[0]);
        },
        UserJourneyKind::GeneralPing => {
            assert("ping"@[0] != "solo"@[0]);
            assert("ping"@[0] != "info"@[0]);
            assert("ping"@[0] != "help"@[0]);
        },
        UserJourneyKind::GeneralRandom => {
            assert("random"@[0] != "wander"@[0]);
            assert("random"@[0] != "weekly"@[0]);
            assert("random"@[0] != "travel"@[0]);
        },
        UserJourneyKind::ItemInfo => {
            assert("iteminfo"@[0] != "location"@[0]);
            assert("iteminfo"@[0] != "tripplan"@[0]);
        },
        UserJourneyKind::ItemUse => {
        },
        UserJourneyKind::ProfileDefaultSet => {
        },
        UserJourneyKind::ProfileDefaultGet => {
            assert("getdefault"@[0] != "setdefault"@[0]);
        },
        UserJourneyKind::ProfileWalletClear => {
        },
        UserJourneyKind::ProfileWalletGet => {
            assert("getwallet"@[1] != "grantitem"@[1]);
            assert("getwallet"@[0] != "checksolo"@[0]);
            assert("getwallet"@[0] != "classinfo"@[0]);
            assert("getwallet"@[0] != "clearaddr"@[0]);
        },
        UserJourneyKind::ProfileWalletSet => {
            assert("setwallet"@[0] != "grantitem"@[0]);
            assert("setwallet"@[0] != "checksolo"@[0]);
            assert("setwallet"@[0] != "classinfo"@[0]);
            assert("setwallet"@[0] != "clearaddr"@[0]);
            assert("setwallet"@[0] != "getwallet"@[0]);
        },
        UserJourneyKind::ProfileCooldown => {
            assert("cooldown"@[0] != "location"@[0]);
            assert("cooldown"@[0] != "tripplan"@[0]);
            assert("cooldown"@[0] != "iteminfo"@[0]);
        },
        UserJourneyKind::ProfileInventory => {
            assert("inventory"@[0] != "grantitem"@[0]);
            assert("inventory"@[0] != "checksolo"@[0]);
            assert("inventory"@[0] != "classinfo"@[0]);
            assert("inventory"@[0] != "clearaddr"@[0]);
            assert("inventory"@[0] != "getwallet"@[0]);
            assert("inventory"@[0] != "setwallet"@[0]);
        },
        UserJourneyKind::ProfileParty => {
            assert("party"@[0] != "atlas"@[0]);
            assert("party"@[0] != "image"@[0]);
        },
        UserJourneyKind::ProfilePreferenceSet => {
        },
        UserJourneyKind::ProtagonistStatusCheck => {
            assert("status"@[0] != "wander"@[0]);
            assert("status"@[0] != "weekly"@[0]);
            assert("status"@[0] != "travel"@[0]);
            assert("status"@[0] != "random"@[0]);
            assert("status"@[0] != "clearw"@[0]);
        },
        UserJourneyKind::ProtagonistClass => {
            assert("class"@[0] != "atlas"@[0]);
            assert("class"@[0] != "image"@[0]);
            assert("class"@[0] != "party"@[0]);
        },
        UserJourneyKind::ProtagonistEquip => {
            assert("equip"@[0] != "atlas"@[0]);
            assert("equip"@[0] != "image"@[0]);
            assert("equip"@[0] != "party"@[0]);
            assert("equip"@[0] != "class"@[0]);
        },
        UserJourneyKind::ProtagonistDisplay => {
            assert("protagonist"@[0] != "clearwallet"@[0]);
            assert("protagonist"@[0] != "checkstatus"@[0]);
        },
        UserJourneyKind::ProtagonistInfo => {
            assert("protaginfo"@[0] != "setdefault"@[0]);
            assert("protaginfo"@[0] != "getdefault"@[0]);
        },
        UserJourneyKind::ProtagonistNameSet => {
            assert("rename"@[0] != "wander"@[0]);
            assert("rename"@[0] != "weekly"@[0]);
            assert("rename"@[0] != "travel"@[0]);
            assert("rename"@[1] != "random"@[1]);
            assert("rename"@[0] != "clearw"@[0]);
            assert("rename"@[0] != "status"@[0]);
            assert("rename"@[0] != "protag"@[0]);
        },
        UserJourneyKind::ProtagonistRoll => {
            assert("roll"@[0] != "solo"@[0]);
            assert("roll"@[0] != "info"@[0]);
            assert("roll"@[0] != "help"@[0]);
            assert("roll"@[0] != "ping"@[0]);
        },
        UserJourneyKind::ProtagonistUnequip => {
            assert("unequip"@[1] != "useitem"@[1]);
            assert("unequip"@[0] != "itemuse"@[0]);
        },
        UserJourneyKind::ProtagonistUnequipAll => {
            assert("unequipall"@[0] != "setdefault"@[0]);
            assert("unequipall"@[0] != "getdefault"@[0]);
            assert("unequipall"@[0] != "protaginfo"@[0]);
        },
        UserJourneyKind::StatisticsLevels => {
            assert("levels"@[0] != "wander"@[0]);
            assert("levels"@[0] != "weekly"@[0]);
            assert("levels"@[0] != "travel"@[0]);
            assert("levels"@[0] != "random"@[0]);
            assert("levels"@[0] != "clearw"@[0]);
            assert("levels"@[0] != "status"@[0]);
            assert("levels"@[0] != "protag"@[0]);
            assert("levels"@[0] != "rename"@[0]);
        },
        UserJourneyKind::StatisticsPopulations => {
            assert("population"@[0] != "setdefault"@[0]);
            assert("population"@[0] != "getdefault"@[0]);
            assert("population"@[1] != "protaginfo"@[1]);
            assert("population"@[0] != "unequipall"@[0]);
        },
        UserJourneyKind::TrainingTrain => {
            assert("train"@[0] != "atlas"@[0]);
            assert("train"@[0] != "image"@[0]);
            assert("train"@[0] != "party"@[0]);
            assert("train"@[0] != "class"@[0]);
            assert("train"@[0] != "equip"@[0]);
        },
        UserJourneyKind::TransactionClaimBounced => {
            assert("claimbounced"@[0] != "destinations"@[0]);
            assert("claimbounced"@[2] != "clearaddress"@[2]);
        },
        UserJourneyKind::TransactionDeposit => {
            assert("deposit"@[0] != "useitem"@[0]);
            assert("deposit"@[0] != "itemuse"@[0]);
            assert("deposit"@[0] != "unequip"@[0]);
        },
        UserJourneyKind::TransactionWithdraw => {
            assert("withdraw"@[0] != "location"@[0]);
            assert("withdraw"@[0] != "tripplan"@[0]);
            assert("withdraw"@[0] != "iteminfo"@[0]);
            assert("withdraw"@[0] != "cooldown"@[0]);
            assert("withdraw"@[0] != "trainall"@[0]);
        },
        UserJourneyKind::TransactionSend => {
            assert("send"@[1] != "solo"@[1]);
            assert("send"@[0] != "info"@[0]);
            assert("send"@[0] != "help"@[0]);
            assert("send"@[0] != "ping"@[0]);
            assert("send"@[0] != "roll"@[0]);
        },
        UserJourneyKind::TransactionTrade => {
            assert("trade"@[0] != "atlas"@[0]);
            assert("trade"@[0] != "image"@[0]);
            assert("trade"@[0] != "party"@[0]);
            assert("trade"@[0] != "class"@[0]);
            assert("trade"@[0] != "equip"@[0]);
            assert("trade"@[3] != "train"@[3]);
        },
        UserJourneyKind::ShopShop => {
            assert("shop"@[1] != "solo"@[1]);
            assert("shop"@[0] != "info"@[0]);
            assert("shop"@[0] != "help"@[0]);
            assert("shop"@[0] != "ping"@[0]);
            assert("shop"@[0] != "roll"@[0]);
            assert("shop"@[1] != "send"@[1]);
        },
        UserJourneyKind::ShopBuy => {
            assert("buy"@[0] != "map"@[0]);
            assert("buy"@[0] != "use"@[0]);
            assert("buy"@[0] != "inv"@[0]);
        },
        UserJourneyKind::OregonTrailMinigame => {
            assert("oregon"@[0] != "wander"@[0]);
            assert("oregon"@[0] != "weekly"@[0]);
            assert("oregon"@[0] != "travel"@[0]);
            assert("oregon"@[0] != "random"@[0]);
            assert("oregon"@[0] != "clearw"@[0]);
            assert("oregon"@[0] != "status"@[0]);
            assert("oregon"@[0] != "protag"@[0]);
            assert("oregon"@[0] != "rename"@[0]);
            assert("oregon"@[0] != "levels"@[0]);
        },
    }
}

/// Law: a token matching no canonical spelling is rejected as
/// `InvalidEncoding`.
pub proof fn theorem_journey_rejects(s: Seq<char>)
    requires
        forall|x: UserJourneyKind| fold(s) != fold(#[trigger] x.token()),
    ensures
        UserJourneyKind::decode_spec(s) == Err::<UserJourneyKind, EncodingError>(
            EncodingError::InvalidEncoding,
        ),
{
    assert(fold(s) != fold(UserJourneyKind::AdminGrantItem.token()));
    assert(fold(s) != fold(UserJourneyKind::ExpeditionsSolo.token()));
    assert(fold(s) != fold(UserJourneyKind::ExpeditionsCheckSolo.token()));
    assert(fold(s) != fold(UserJourneyKind::ExpeditionsWander.token()));
    assert(fold(s) != fold(UserJourneyKind::ExpeditionsWeekly.token()));
    assert(fold(s) != fold(UserJourneyKind::ExplorationAtlas.token()));
    assert(fold(s) != fold(UserJourneyKind::ExplorationDestinations.token()));
    assert(fold(s) != fold(UserJourneyKind::ExplorationLocation.token()));
    assert(fold(s) != fold(UserJourneyKind::ExplorationMap.token()));
    assert(fold(s) != fold(UserJourneyKind::ExplorationTravel.token()));
    assert(fold(s) != fold(UserJourneyKind::ExplorationTripPlan.token()));
    assert(fold(s) != fold(UserJourneyKind::GeneralClassInfo.token()));
    assert(fold(s) != fold(UserJourneyKind::GeneralImage.token()));
    assert(fold(s) != fold(UserJourneyKind::GeneralInfo.token()));
    assert(fold(s) != fold(UserJourneyKind::GeneralHelp.token()));
    assert(fold(s) != fold(UserJourneyKind::GeneralPing.token()));
    assert(fold(s) != fold(UserJourneyKind::GeneralRandom.token()));
    assert(fold(s) != fold(UserJourneyKind::ItemInfo.token()));
    assert(fold(s) != fold(UserJourneyKind::ItemUse.token()));
    assert(fold(s) != fold(UserJourneyKind::ProfileDefaultSet.token()));
    assert(fold(s) != fold(UserJourneyKind::ProfileDefaultGet.token()));
    assert(fold(s) != fold(UserJourneyKind::ProfileWalletClear.token()));
    assert(fold(s) != fold(UserJourneyKind::ProfileWalletGet.token()));
    assert(fold(s) != fold(UserJourneyKind::ProfileWalletSet.token()));
    assert(fold(s) != fold(UserJourneyKind::ProfileCooldown.token()));
    assert(fold(s) != fold(UserJourneyKind::ProfileInventory.token()));
    assert(fold(s) != fold(UserJourneyKind::ProfileParty.token()));
    assert(fold(s) != fold(UserJourneyKind::ProfilePreferenceSet.token()));
    assert(fold(s) != fold(UserJourneyKind::ProtagonistStatusCheck.token()));
    assert(fold(s) != fold(UserJourneyKind::ProtagonistClass.token()));
    assert(fold(s) != fold(UserJourneyKind::ProtagonistEquip.token()));
    assert(fold(s) != fold(UserJourneyKind::ProtagonistDisplay.token()));
    assert(fold(s) != fold(UserJourneyKind::ProtagonistInfo.token()));
    assert(fold(s) != fold(UserJourneyKind::ProtagonistNameSet.token()));
    assert(fold(s) != fold(UserJourneyKind::ProtagonistRoll.token()));
    assert(fold(s) != fold(UserJourneyKind::ProtagonistUnequip.token()));
    assert(fold(s) != fold(UserJourneyKind::ProtagonistUnequipAll.token()));
    assert(fold(s) != fold(UserJourneyKind::StatisticsLevels.token()));
    assert(fold(s) != fold(UserJourneyKind::StatisticsPopulations.token()));
    assert(fold(s) != fold(UserJourneyKind::TrainingTrain.token()));
    assert(fold(s) != fold(UserJourneyKind::TransactionClaimBounced.token()));
    assert(fold(s) != fold(UserJourneyKind::TransactionDeposit.token()));
    assert(fold(s) != fold(UserJourneyKind::TransactionWithdraw.token()));
    assert(fold(s) != fold(UserJourneyKind::TransactionSend.token()));
    assert(fold(s) != fold(UserJourneyKind::TransactionTrade.token()));
    assert(fold(s) != fold(UserJourneyKind::ShopShop.token()));
    assert(fold(s) != fold(UserJourneyKind::ShopBuy.token()));
    assert(fold(s) != fold(UserJourneyKind::OregonTrailMinigame.token()));
}

/// Law: a token that equals none of the listed command spellings
/// parses to nothing.
pub proof fn theorem_journey_command_rejects(s: Seq<char>)
    requires
        s != "grantitem"@,
        s != "solo"@,
        s != "checksolo"@,
        s != "wander"@,
        s != "weekly"@,
        s != "atlas"@,
        s != "destinations"@,
        s != "location"@,
        s != "map"@,
        s != "travel"@,
        s != "tripplan"@,
        s != "classinfo"@,
        s != "image"@,
        s != "info"@,
        s != "help"@,
        s != "ping"@,
        s != "random"@,
        s != "iteminfo"@,
        s != "useitem"@,
        s != "use"@,
        s != "itemuse"@,
        s != "setdefault"@,
        s != "getdefault"@,
        s != "clearwallet"@,
        s != "clearw"@,
        s != "clearaddr"@,
        s != "clearaddress"@,
        s != "getwallet"@,
        s != "setwallet"@,
        s != "cd"@,
        s != "cooldown"@,
        s != "inventory"@,
        s != "inv"@,
        s != "party"@,
        s != "setpreference"@,
        s != "status"@,
        s != "checkstatus"@,
        s != "class"@,
        s != "equip"@,
        s != "protagonist"@,
        s != "protag"@,
        s != "protaginfo"@,
        s != "rename"@,
        s != "roll"@,
        s != "unequip"@,
        s != "unequipall"@,
        s != "levels"@,
        s != "population"@,
        s != "trainall"@,
        s != "train"@,
        s != "claimbounced"@,
        s != "deposit"@,
        s != "withdraw"@,
        s != "send"@,
        s != "trade"@,
        s != "shop"@,
        s != "buy"@,
        s != "oregon"@,
    ensures
        UserJourneyKind::command_spec(s) == None::<UserJourneyKind>,
{
}

/// Law: each alias spelling parses as a command token to its variant,
/// while the wire decoder rejects it as `InvalidEncoding`: the wire codec
/// accepts canonical spellings only.
#[verifier::rlimit(100)]
#[verifier::spinoff_prover]
pub proof fn theorem_journey_aliases()
    ensures
        UserJourneyKind::command_spec("useitem"@) == Some(UserJourneyKind::ItemUse),
        UserJourneyKind::decode_spec("useitem"@) == Err::<UserJourneyKind, EncodingError>(
            EncodingError::InvalidEncoding,
        ),
        UserJourneyKind::command_spec("use"@) == Some(UserJourneyKind::ItemUse),
        UserJourneyKind::decode_spec("use"@) == Err::<UserJourneyKind, EncodingError>(
            EncodingError::InvalidEncoding,
        ),
        UserJourneyKind::command_spec("clearw"@) == Some(UserJourneyKind::ProfileWalletClear),
        UserJourneyKind::decode_spec("clearw"@) == Err::<UserJourneyKind, EncodingError>(
            EncodingError::InvalidEncoding,
        ),
        UserJourneyKind::command_spec("clearaddr"@) == Some(UserJourneyKind::ProfileWalletClear),
        UserJourneyKind::decode_spec("clearaddr"@) == Err::<UserJourneyKind, EncodingError>(
            EncodingError::InvalidEncoding,
        ),
        UserJourneyKind::command_spec("clearaddress"@) == Some(UserJourneyKind::ProfileWalletClear),
        UserJourneyKind::decode_spec("clearaddress"@) == Err::<UserJourneyKind, EncodingError>(
            EncodingError::InvalidEncoding,
        ),
        UserJourneyKind::command_spec("cd"@) == Some(UserJourneyKind::ProfileCooldown),
        UserJourneyKind::decode_spec("cd"@) == Err::<UserJourneyKind, EncodingError>(
            EncodingError::InvalidEncoding,
        ),
        UserJourneyKind::command_spec("inv"@) == Some(UserJourneyKind::ProfileInventory),
        UserJourneyKind::decode_spec("inv"@) == Err::<UserJourneyKind, EncodingError>(
            EncodingError::InvalidEncoding,
        ),
        UserJourneyKind::command_spec("checkstatus"@) == Some(UserJourneyKind::ProtagonistStatusCheck),
        UserJourneyKind::decode_spec("checkstatus"@) == Err::<UserJourneyKind, EncodingError>(
            EncodingError::InvalidEncoding,
        ),
        UserJourneyKind::command_spec("protag"@) == Some(UserJourneyKind::ProtagonistDisplay),
        UserJourneyKind::decode_spec("protag"@) == Err::<UserJourneyKind, EncodingError>(
            EncodingError::InvalidEncoding,
        ),
        UserJourneyKind::command_spec("trainall"@) == Some(UserJourneyKind::TrainingTrain),
        UserJourneyKind::decode_spec("trainall"@) == Err::<UserJourneyKind, EncodingError>(
            EncodingError::InvalidEncoding,
        ),
{
    reveal_strlit("grantitem");
    reveal_strlit("solo");
    reveal_strlit("checksolo");
    reveal_strlit("wander");
    reveal_strlit("weekly");
    reveal_strlit("atlas");
    reveal_strlit("destinations");
    reveal_strlit("location");
    reveal_strlit("map");
    reveal_strlit("travel");
    reveal_strlit("tripplan");
    reveal_strlit("classinfo");
    reveal_strlit("image");
    reveal_strlit("info");
    reveal_strlit("help");
    reveal_strlit("ping");
    reveal_strlit("random");
    reveal_strlit("iteminfo");
    reveal_strlit("useitem");
    reveal_strlit("use");
    reveal_strlit("itemuse");
    reveal_strlit("setdefault");
    reveal_strlit("getdefault");
    reveal_strlit("clearwallet");
    reveal_strlit("clearw");
    reveal_strlit("clearaddr");
    reveal_strlit("clearaddress");
    reveal_strlit("getwallet");
    reveal_strlit("setwallet");
    reveal_strlit("cd");
    reveal_strlit("cooldown");
    reveal_strlit("inventory");
    reveal_strlit("inv");
    reveal_strlit("party");
    reveal_strlit("setpreference");
    reveal_strlit("status");
    reveal_strlit("checkstatus");
    reveal_strlit("class");
    reveal_strlit("equip");
    reveal_strlit("protagonist");
    reveal_strlit("protag");
    reveal_strlit("protaginfo");
    reveal_strlit("rename");
    reveal_strlit("roll");
    reveal_strlit("unequip");
    reveal_strlit("unequipall");
    reveal_strlit("levels");
    reveal_strlit("population");
    reveal_strlit("trainall");
    reveal_strlit("train");
    reveal_strlit("claimbounced");
    reveal_strlit("deposit");
    reveal_strlit("withdraw");
    reveal_strlit("send");
    reveal_strlit("trade");
    reveal_strlit("shop");
    reveal_strlit("buy");
    reveal_strlit("oregon");
    assert("grantitem"@.len() == 9);
    assert("solo"@.len() == 4);
    assert("checksolo"@.len() == 9);
    assert("wander"@.len() == 6);
    assert("weekly"@.len() == 6);
    assert("atlas"@.len() == 5);
    assert("destinations"@.len() == 12);
    assert("location"@.len() == 8);
    assert("map"@.len() == 3);
    assert("travel"@.len() == 6);
    assert("tripplan"@.len() == 8);
    assert("classinfo"@.len() == 9);
    assert("image"@.len() == 5);
    assert("info"@.len() == 4);
    assert("help"@.len() == 4);
    assert("ping"@.len() == 4);
    assert("random"@.len() == 6);
    assert("iteminfo"@.len() == 8);
    assert("useitem"@.len() == 7);
    assert("use"@.len() == 3);
    assert("itemuse"@.len() == 7);
    assert("setdefault"@.len() == 10);
    assert("getdefault"@.len() == 10);
    assert("clearwallet"@.len() == 11);
    assert("clearw"@.len() == 6);
    assert("clearaddr"@.len() == 9);
    assert("clearaddress"@.len() == 12);
    assert("getwallet"@.len() == 9);
    assert("setwallet"@.len() == 9);
    assert("cd"@.len() == 2);
    assert("cooldown"@.len() == 8);
    assert("inventory"@.len() == 9);
    assert("inv"@.len() == 3);
    assert("party"@.len() == 5);
    assert("setpreference"@.len() == 13);
    assert("status"@.len() == 6);
    assert("checkstatus"@.len() == 11);
    assert("class"@.len() == 5);
    assert("equip"@.len() == 5);
    assert("protagonist"@.len() == 11);
    assert("protag"@.len() == 6);
    assert("protaginfo"@.len() == 10);
    assert("rename"@.len() == 6);
    assert("roll"@.len() == 4);
    assert("unequip"@.len() == 7);
    assert("unequipall"@.len() == 10);
    assert("levels"@.len() == 6);
    assert("population"@.len() == 10);
    assert("trainall"@.len() == 8);
    assert("train"@.len() == 5);
    assert("claimbounced"@.len() == 12);
    assert("deposit"@.len() == 7);
    assert("withdraw"@.len() == 8);
    assert("send"@.len() == 4);
    assert("trade"@.len() == 5);
    assert("shop"@.len() == 4);
    assert("buy"@.len() == 3);
    assert("oregon"@.len() == 6);
    assert forall|i: int| 0 <= i < "grantitem"@.len() implies fold_char(
        #[trigger] "grantitem"@[i],
    ) == "grantitem"@[i] by {}
    lemma_fold_fixed("grantitem"@);
    assert forall|i: int| 0 <= i < "solo"@.len() implies fold_char(
        #[trigger] "solo"@[i],
    ) == "solo"@[i] by {}
    lemma_fold_fixed("solo"@);
    assert forall|i: int| 0 <= i < "checksolo"@.len() implies fold_char(
        #[trigger] "checksolo"@[i],
    ) == "checksolo"@[i] by {}
    lemma_fold_fixed("checksolo"@);
    assert forall|i: int| 0 <= i < "wander"@.len() implies fold_char(
        #[trigger] "wander"@[i],
    ) == "wander"@[i] by {}
    lemma_fold_fixed("wander"@);
    assert forall|i: int| 0 <= i < "weekly"@.len() implies fold_char(
        #[trigger] "weekly"@[i],
    ) == "weekly"@[i] by {}
    lemma_fold_fixed("weekly"@);
    assert forall|i: int| 0 <= i < "atlas"@.len() implies fold_char(
        #[trigger] "atlas"@[i],
    ) == "atlas"@[i] by {}
    lemma_fold_fixed("atlas"@);
    assert forall|i: int| 0 <= i < "destinations"@.len() implies fold_char(
        #[trigger] "destinations"@[i],
    ) == "destinations"@[i] by {}
    lemma_fold_fixed("destinations"@);
    assert forall|i: int| 0 <= i < "location"@.len() implies fold_char(
        #[trigger] "location"@[i],
    ) == "location"@[i] by {}
    lemma_fold_fixed("location"@);
    assert forall|i: int| 0 <= i < "map"@.len() implies fold_char(
        #[trigger] "map"@[i],
    ) == "map"@[i] by {}
    lemma_fold_fixed("map"@);
    assert forall|i: int| 0 <= i < "travel"@.len() implies fold_char(
        #[trigger] "travel"@[i],
    ) == "travel"@[i] by {}
    lemma_fold_fixed("travel"@);
    assert forall|i: int| 0 <= i < "tripplan"@.len() implies fold_char(
        #[trigger] "tripplan"@[i],
    ) == "tripplan"@[i] by {}
    lemma_fold_fixed("tripplan"@);
    assert forall|i: int| 0 <= i < "classinfo"@.len() implies fold_char(
        #[trigger] "classinfo"@[i],
    ) == "classinfo"@[i] by {}
    lemma_fold_fixed("classinfo"@);
    assert forall|i: int| 0 <= i < "image"@.len() implies fold_char(
        #[trigger] "image"@[i],
    ) == "image"@[i] by {}
    lemma_fold_fixed("image"@);
    assert forall|i: int| 0 <= i < "info"@.len() implies fold_char(
        #[trigger] "info"@[i],
    ) == "info"@[i] by {}
    lemma_fold_fixed("info"@);
    assert forall|i: int| 0 <= i < "help"@.len() implies fold_char(
        #[trigger] "help"@[i],
    ) == "help"@[i] by {}
    lemma_fold_fixed("help"@);
    assert forall|i: int| 0 <= i < "ping"@.len() implies fold_char(
        #[trigger] "ping"@[i],
    ) == "ping"@[i] by {}
    lemma_fold_fixed("ping"@);
    assert forall|i: int| 0 <= i < "random"@.len() implies fold_char(
        #[trigger] "random"@[i],
    ) == "random"@[i] by {}
    lemma_fold_fixed("random"@);
    assert forall|i: int| 0 <= i < "iteminfo"@.len() implies fold_char(
        #[trigger] "iteminfo"@[i],
    ) == "iteminfo"@[i] by {}
    lemma_fold_fixed("iteminfo"@);
    assert forall|i: int| 0 <= i < "useitem"@.len() implies fold_char(
        #[trigger] "useitem"@[i],
    ) == "useitem"@[i] by {}
    lemma_fold_fixed("useitem"@);
    assert forall|i: int| 0 <= i < "use"@.len() implies fold_char(
        #[trigger] "use"@[i],
    ) == "use"@[i] by {}
    lemma_fold_fixed("use"@);
    assert forall|i: int| 0 <= i < "itemuse"@.len() implies fold_char(
        #[trigger] "itemuse"@[i],
    ) == "itemuse"@[i] by {}
    lemma_fold_fixed("itemuse"@);
    assert forall|i: int| 0 <= i < "setdefault"@.len() implies fold_char(
        #[trigger] "setdefault"@[i],
    ) == "setdefault"@[i] by {}
    lemma_fold_fixed("setdefault"@);
    assert forall|i: int| 0 <= i < "getdefault"@.len() implies fold_char(
        #[trigger] "getdefault"@[i],
    ) == "getdefault"@[i] by {}
    lemma_fold_fixed("getdefault"@);
    assert forall|i: int| 0 <= i < "clearwallet"@.len() implies fold_char(
        #[trigger] "clearwallet"@[i],
    ) == "clearwallet"@[i] by {}
    lemma_fold_fixed("clearwallet"@);
    assert forall|i: int| 0 <= i < "clearw"@.len() implies fold_char(
        #[trigger] "clearw"@[i],
    ) == "clearw"@[i] by {}
    lemma_fold_fixed("clearw"@);
    assert forall|i: int| 0 <= i < "clearaddr"@.len() implies fold_char(
        #[trigger] "clearaddr"@[i],
    ) == "clearaddr"@[i] by {}
    lemma_fold_fixed("clearaddr"@);
    assert forall|i: int| 0 <= i < "clearaddress"@.len() implies fold_char(
        #[trigger] "clearaddress"@[i],
    ) == "clearaddress"@[i] by {}
    lemma_fold_fixed("clearaddress"@);
    assert forall|i: int| 0 <= i < "getwallet"@.len() implies fold_char(
        #[trigger] "getwallet"@[i],
    ) == "getwallet"@[i] by {}
    lemma_fold_fixed("getwallet"@);
    assert forall|i: int| 0 <= i < "setwallet"@.len() implies fold_char(
        #[trigger] "setwallet"@[i],
    ) == "setwallet"@[i] by {}
    lemma_fold_fixed("setwallet"@);
    assert forall|i: int| 0 <= i < "cd"@.len() implies fold_char(
        #[trigger] "cd"@[i],
    ) == "cd"@[i] by {}
    lemma_fold_fixed("cd"@);
    assert forall|i: int| 0 <= i < "cooldown"@.len() implies fold_char(
        #[trigger] "cooldown"@[i],
    ) == "cooldown"@[i] by {}
    lemma_fold_fixed("cooldown"@);
    assert forall|i: int| 0 <= i < "inventory"@.len() implies fold_char(
        #[trigger] "inventory"@[i],
    ) == "inventory"@[i] by {}
    lemma_fold_fixed("inventory"@);
    assert forall|i: int| 0 <= i < "inv"@.len() implies fold_char(
        #[trigger] "inv"@[i],
    ) == "inv"@[i] by {}
    lemma_fold_fixed("inv"@);
    assert forall|i: int| 0 <= i < "party"@.len() implies fold_char(
        #[trigger] "party"@[i],
    ) == "party"@[i] by {}
    lemma_fold_fixed("party"@);
    assert forall|i: int| 0 <= i < "setpreference"@.len() implies fold_char(
        #[trigger] "setpreference"@[i],
    ) == "setpreference"@[i] by {}
    lemma_fold_fixed("setpreference"@);
    assert forall|i: int| 0 <= i < "status"@.len() implies fold_char(
        #[trigger] "status"@[i],
    ) == "status"@[i] by {}
    lemma_fold_fixed("status"@);
    assert forall|i: int| 0 <= i < "checkstatus"@.len() implies fold_char(
        #[trigger] "checkstatus"@[i],
    ) == "checkstatus"@[i] by {}
    lemma_fold_fixed("checkstatus"@);
    assert forall|i: int| 0 <= i < "class"@.len() implies fold_char(
        #[trigger] "class"@[i],
    ) == "class"@[i] by {}
    lemma_fold_fixed("class"@);
    assert forall|i: int| 0 <= i < "equip"@.len() implies fold_char(
        #[trigger] "equip"@[i],
    ) == "equip"@[i] by {}
    lemma_fold_fixed("equip"@);
    assert forall|i: int| 0 <= i < "protagonist"@.len() implies fold_char(
        #[trigger] "protagonist"@[i],
    ) == "protagonist"@[i] by {}
    lemma_fold_fixed("protagonist"@);
    assert forall|i: int| 0 <= i < "protag"@.len() implies fold_char(
        #[trigger] "protag"@[i],
    ) == "protag"@[i] by {}
    lemma_fold_fixed("protag"@);
    assert forall|i: int| 0 <= i < "protaginfo"@.len() implies fold_char(
        #[trigger] "protaginfo"@[i],
    ) == "protaginfo"@[i] by {}
    lemma_fold_fixed("protaginfo"@);
    assert forall|i: int| 0 <= i < "rename"@.len() implies fold_char(
        #[trigger] "rename"@[i],
    ) == "rename"@[i] by {}
    lemma_fold_fixed("rename"@);
    assert forall|i: int| 0 <= i < "roll"@.len() implies fold_char(
        #[trigger] "roll"@[i],
    ) == "roll"@[i] by {}
    lemma_fold_fixed("roll"@);
    assert forall|i: int| 0 <= i < "unequip"@.len() implies fold_char(
        #[trigger] "unequip"@[i],
    ) == "unequip"@[i] by {}
    lemma_fold_fixed("unequip"@);
    assert forall|i: int| 0 <= i < "unequipall"@.len() implies fold_char(
        #[trigger] "unequipall"@[i],
    ) == "unequipall"@[i] by {}
    lemma_fold_fixed("unequipall"@);
    assert forall|i: int| 0 <= i < "levels"@.len() implies fold_char(
        #[trigger] "levels"@[i],
    ) == "levels"@[i] by {}
    lemma_fold_fixed("levels"@);
    assert forall|i: int| 0 <= i < "population"@.len() implies fold_char(
        #[trigger] "population"@[i],
    ) == "population"@[i] by {}
    lemma_fold_fixed("population"@);
    assert forall|i: int| 0 <= i < "trainall"@.len() implies fold_char(
        #[trigger] "trainall"@[i],
    ) == "trainall"@[i] by {}
    lemma_fold_fixed("trainall"@);
    assert forall|i: int| 0 <= i < "train"@.len() implies fold_char(
        #[trigger] "train"@[i],
    ) == "train"@[i] by {}
    lemma_fold_fixed("train"@);
    assert forall|i: int| 0 <= i < "claimbounced"@.len() implies fold_char(
        #[trigger] "claimbounced"@[i],
    ) == "claimbounced"@[i] by {}
    lemma_fold_fixed("claimbounced"@);
    assert forall|i: int| 0 <= i < "deposit"@.len() implies fold_char(
        #[trigger] "deposit"@[i],
    ) == "deposit"@[i] by {}
    lemma_fold_fixed("deposit"@);
    assert forall|i: int| 0 <= i < "withdraw"@.len() implies fold_char(
        #[trigger] "withdraw"@[i],
    ) == "withdraw"@[i] by {}
    lemma_fold_fixed("withdraw"@);
    assert forall|i: int| 0 <= i < "send"@.len() implies fold_char(
        #[trigger] "send"@[i],
    ) == "send"@[i] by {}
    lemma_fold_fixed("send"@);
    assert forall|i: int| 0 <= i < "trade"@.len() implies fold_char(
        #[trigger] "trade"@[i],
    ) == "trade"@[i] by {}
    lemma_fold_fixed("trade"@);
    assert forall|i: int| 0 <= i < "shop"@.len() implies fold_char(
        #[trigger] "shop"@[i],
    ) == "shop"@[i] by {}
    lemma_fold_fixed("shop"@);
    assert forall|i: int| 0 <= i < "buy"@.len() implies fold_char(
        #[trigger] "buy"@[i],
    ) == "buy"@[i] by {}
    lemma_fold_fixed("buy"@);
    assert forall|i: int| 0 <= i < "oregon"@.len() implies fold_char(
        #[trigger] "oregon"@[i],
    ) == "oregon"@[i] by {}
    lemma_fold_fixed("oregon"@);
    assert("useitem"@[0] != "itemuse"@[0]);
    assert("useitem"@[1] != "unequip"@[1]);
    assert("useitem"@[0] != "deposit"@[0]);
    assert("use"@[0] != "map"@[0]);
    assert("use"@[0] != "buy"@[0]);
    assert("clearw"@[0] != "wander"@[0]);
    assert("clearw"@[0] != "weekly"@[0]);
    assert("clearw"@[0] != "travel"@[0]);
    assert("clearw"@[0] != "random"@[0]);
    assert("clearw"@[0] != "status"@[0]);
    assert("clearw"@[0] != "rename"@[0]);
    assert("clearw"@[0] != "levels"@[0]);
    assert("clearw"@[0] != "oregon"@[0]);
    assert("clearaddr"@[0] != "grantitem"@[0]);
    assert("clearaddr"@[1] != "checksolo"@[1]);
    assert("clearaddr"@[2] != "classinfo"@[2]);
    assert("clearaddr"@[0] != "getwallet"@[0]);
    assert("clearaddr"@[0] != "setwallet"@[0]);
    assert("clearaddr"@[0] != "inventory"@[0]);
    assert("clearaddress"@[0] != "destinations"@[0]);
    assert("clearaddress"@[2] != "claimbounced"@[2]);
    assert("inv"@[0] != "map"@[0]);
    assert("inv"@[0] != "buy"@[0]);
    assert("inv"@[0] != "use"@[0]);
    assert("checkstatus"@[1] != "clearwallet"@[1]);
    assert("checkstatus"@[0] != "protagonist"@[0]);
    assert("protag"@[0] != "wander"@[0]);
    assert("protag"@[0] != "weekly"@[0]);
    assert("protag"@[0] != "travel"@[0]);
    assert("protag"@[0] != "random"@[0]);
    assert("protag"@[0] != "status"@[0]);
    assert("protag"@[0] != "rename"@[0]);
    assert("protag"@[0] != "levels"@[0]);
    assert("protag"@[0] != "oregon"@[0]);
    assert("protag"@[0] != "clearw"@[0]);
    assert("trainall"@[0] != "location"@[0]);
    assert("trainall"@[2] != "tripplan"@[2]);
    assert("trainall"@[0] != "iteminfo"@[0]);
    assert("trainall"@[0] != "cooldown"@[0]);
    assert("trainall"@[0] != "withdraw"@[0]);
}

/// Law: the listed command spellings are exactly the tokens the
/// command-token parser accepts: a token parses to a variant if and only
/// if it stands in the table.
#[verifier::rlimit(100)]
#[verifier::spinoff_prover]
pub proof fn theorem_journey_command_tokens_exact(s: Seq<char>)
    ensures
        UserJourneyKind::command_spec(s) is Some <==> UserJourneyKind::command_tokens().contains(
            s,
        ),
{
    assert(UserJourneyKind::command_tokens().len() == 58);
    reveal_strlit("grantitem");
    reveal_strlit("solo");
    reveal_strlit("checksolo");
    reveal_strlit("wander");
    reveal_strlit("weekly");
    reveal_strlit("atlas");
    reveal_strlit("destinations");
    reveal_strlit("location");
    reveal_strlit("map");
    reveal_strlit("travel");
    reveal_strlit("tripplan");
    reveal_strlit("classinfo");
    reveal_strlit("image");
    reveal_strlit("info");
    reveal_strlit("help");
    reveal_strlit("ping");
    reveal_strlit("random");
    reveal_strlit("iteminfo");
    reveal_strlit("useitem");
    reveal_strlit("use");
    reveal_strlit("itemuse");
    reveal_strlit("setdefault");
    reveal_strlit("getdefault");
    reveal_strlit("clearwallet");
    reveal_strlit("clearw");
    reveal_strlit("clearaddr");
    reveal_strlit("clearaddress");
    reveal_strlit("getwallet");
    reveal_strlit("setwallet");
    reveal_strlit("cd");
    reveal_strlit("cooldown");
    reveal_strlit("inventory");
    reveal_strlit("inv");
    reveal_strlit("party");
    reveal_strlit("setpreference");
    reveal_strlit("status");
    reveal_strlit("checkstatus");
    reveal_strlit("class");
    reveal_strlit("equip");
    reveal_strlit("protagonist");
    reveal_strlit("protag");
    reveal_strlit("protaginfo");
    reveal_strlit("rename");
    reveal_strlit("roll");
    reveal_strlit("unequip");
    reveal_strlit("unequipall");
    reveal_strlit("levels");
    reveal_strlit("population");
    reveal_strlit("trainall");
    reveal_strlit("train");
    reveal_strlit("claimbounced");
    reveal_strlit("deposit");
    reveal_strlit("withdraw");
    reveal_strlit("send");
    reveal_strlit("trade");
    reveal_strlit("shop");
    reveal_strlit("buy");
    reveal_strlit("oregon");
    assert("grantitem"@.len() == 9);
    assert("solo"@.len() == 4);
    assert("checksolo"@.len() == 9);
    assert("wander"@.len() == 6);
    assert("weekly"@.len() == 6);
    assert("atlas"@.len() == 5);
    assert("destinations"@.len() == 12);
    assert("location"@.len() == 8);
    assert("map"@.len() == 3);
    assert("travel"@.len() == 6);
    assert("tripplan"@.len() == 8);
    assert("classinfo"@.len() == 9);
    assert("image"@.len() == 5);
    assert("info"@.len() == 4);
    assert("help"@.len() == 4);
    assert("ping"@.len() == 4);
    assert("random"@.len() == 6);
    assert("iteminfo"@.len() == 8);
    assert("useitem"@.len() == 7);
    assert("use"@.len() == 3);
    assert("itemuse"@.len() == 7);
    assert("setdefault"@.len() == 10);
    assert("getdefault"@.len() == 10);
    assert("clearwallet"@.len() == 11);
    assert("clearw"@.len() == 6);
    assert("clearaddr"@.len() == 9);
    assert("clearaddress"@.len() == 12);
    assert("getwallet"@.len() == 9);
    assert("setwallet"@.len() == 9);
    assert("cd"@.len() == 2);
    assert("cooldown"@.len() == 8);
    assert("inventory"@.len() == 9);
    assert("inv"@.len() == 3);
    assert("party"@.len() == 5);
    assert("setpreference"@.len() == 13);
    assert("status"@.len() == 6);
    assert("checkstatus"@.len() == 11);
    assert("class"@.len() == 5);
    assert("equip"@.len() == 5);
    assert("protagonist"@.len() == 11);
    assert("protag"@.len() == 6);
    assert("protaginfo"@.len() == 10);
    assert("rename"@.len() == 6);
    assert("roll"@.len() == 4);
    assert("unequip"@.len() == 7);
    assert("unequipall"@.len() == 10);
    assert("levels"@.len() == 6);
    assert("population"@.len() == 10);
    assert("trainall"@.len() == 8);
    assert("train"@.len() == 5);
    assert("claimbounced"@.len() == 12);
    assert("deposit"@.len() == 7);
    assert("withdraw"@.len() == 8);
    assert("send"@.len() == 4);
    assert("trade"@.len() == 5);
    assert("shop"@.len() == 4);
    assert("buy"@.len() == 3);
    assert("oregon"@.len() == 6);
    assert(UserJourneyKind::command_tokens()[0] == "grantitem"@);
    assert(UserJourneyKind::command_tokens()[1] == "solo"@);
    assert(UserJourneyKind::command_tokens()[2] == "checksolo"@);
    assert(UserJourneyKind::command_tokens()[3] == "wander"@);
    assert(UserJourneyKind::command_tokens()[4] == "weekly"@);
    assert(UserJourneyKind::command_tokens()[5] == "atlas"@);
    assert(UserJourneyKind::command_tokens()[6] == "destinations"@);
    assert(UserJourneyKind::command_tokens()[7] == "location"@);
    assert(UserJourneyKind::command_tokens()[8] == "map"@);
    assert(UserJourneyKind::command_tokens()[9] == "travel"@);
    assert(UserJourneyKind::command_tokens()[10] == "tripplan"@);
    assert(UserJourneyKind::command_tokens()[11] == "classinfo"@);
    assert(UserJourneyKind::command_tokens()[12] == "image"@);
    assert(UserJourneyKind::command_tokens()[13] == "info"@);
    assert(UserJourneyKind::command_tokens()[14] == "help"@);
    assert(UserJourneyKind::command_tokens()[15] == "ping"@);
    assert(UserJourneyKind::command_tokens()[16] == "random"@);
    assert(UserJourneyKind::command_tokens()[17] == "iteminfo"@);
    assert(UserJourneyKind::command_tokens()[18] == "useitem"@);
    assert(UserJourneyKind::command_tokens()[19] == "use"@);
    assert(UserJourneyKind::command_tokens()[20] == "itemuse"@);
    assert(UserJourneyKind::command_tokens()[21] == "setdefault"@);
    assert(UserJourneyKind::command_tokens()[22] == "getdefault"@);
    assert(UserJourneyKind::command_tokens()[23] == "clearwallet"@);
    assert(UserJourneyKind::command_tokens()[24] == "clearw"@);
    assert(UserJourneyKind::command_tokens()[25] == "clearaddr"@);
    assert(UserJourneyKind::command_tokens()[26] == "clearaddress"@);
    assert(UserJourneyKind::command_tokens()[27] == "getwallet"@);
    assert(UserJourneyKind::command_tokens()[28] == "setwallet"@);
    assert(UserJourneyKind::command_tokens()[29] == "cd"@);
    assert(UserJourneyKind::command_tokens()[30] == "cooldown"@);
    assert(UserJourneyKind::command_tokens()[31] == "inventory"@);
    assert(UserJourneyKind::command_tokens()[32] == "inv"@);
    assert(UserJourneyKind::command_tokens()[33] == "party"@);
    assert(UserJourneyKind::command_tokens()[34] == "setpreference"@);
    assert(UserJourneyKind::command_tokens()[35] == "status"@);
    assert(UserJourneyKind::command_tokens()[36] == "checkstatus"@);
    assert(UserJourneyKind::command_tokens()[37] == "class"@);
    assert(UserJourneyKind::command_tokens()[38] == "equip"@);
    assert(UserJourneyKind::command_tokens()[39] == "protagonist"@);
    assert(UserJourneyKind::command_tokens()[40] == "protag"@);
    assert(UserJourneyKind::command_tokens()[41] == "protaginfo"@);
    assert(UserJourneyKind::command_tokens()[42] == "rename"@);
    assert(UserJourneyKind::command_tokens()[43] == "roll"@);
    assert(UserJourneyKind::command_tokens()[44] == "unequip"@);
    assert(UserJourneyKind::command_tokens()[45] == "unequipall"@);
    assert(UserJourneyKind::command_tokens()[46] == "levels"@);
    assert(UserJourneyKind::command_tokens()[47] == "population"@);
    assert(UserJourneyKind::command_tokens()[48] == "trainall"@);
    assert(UserJourneyKind::command_tokens()[49] == "train"@);
    assert(UserJourneyKind::command_tokens()[50] == "claimbounced"@);
    assert(UserJourneyKind::command_tokens()[51] == "deposit"@);
    assert(UserJourneyKind::command_tokens()[52] == "withdraw"@);
    assert(UserJourneyKind::command_tokens()[53] == "send"@);
    assert(UserJourneyKind::command_tokens()[54] == "trade"@);
    assert(UserJourneyKind::command_tokens()[55] == "shop"@);
    assert(UserJourneyKind::command_tokens()[56] == "buy"@);
    assert(UserJourneyKind::command_tokens()[57] == "oregon"@);
    assert(UserJourneyKind::command_tokens().contains("grantitem"@)) by {
        assert(UserJourneyKind::command_tokens()[0] == "grantitem"@);
    }
    assert(UserJourneyKind::command_tokens().contains("solo"@)) by {
        assert(UserJourneyKind::command_tokens()[1] == "solo"@);
    }
    assert(UserJourneyKind::command_tokens().contains("checksolo"@)) by {
        assert(UserJourneyKind::command_tokens()[2] == "checksolo"@);
    }
    assert(UserJourneyKind::command_tokens().contains("wander"@)) by {
        assert(UserJourneyKind::command_tokens()[3] == "wander"@);
    }
    assert(UserJourneyKind::command_tokens().contains("weekly"@)) by {
        assert(UserJourneyKind::command_tokens()[4] == "weekly"@);
    }
    assert(UserJourneyKind::command_tokens().contains("atlas"@)) by {
        assert(UserJourneyKind::command_tokens()[5] == "atlas"@);
    }
    assert(UserJourneyKind::command_tokens().contains("destinations"@)) by {
        assert(UserJourneyKind::command_tokens()[6] == "destinations"@);
    }
    assert(UserJourneyKind::command_tokens().contains("location"@)) by {
        assert(UserJourneyKind::command_tokens()[7] == "location"@);
    }
    assert(UserJourneyKind::command_tokens().contains("map"@)) by {
        assert(UserJourneyKind::command_tokens()[8] == "map"@);
    }
    assert(UserJourneyKind::command_tokens().contains("travel"@)) by {
        assert(UserJourneyKind::command_tokens()[9] == "travel"@);
    }
    assert(UserJourneyKind::command_tokens().contains("tripplan"@)) by {
        assert(UserJourneyKind::command_tokens()[10] == "tripplan"@);
    }
    assert(UserJourneyKind::command_tokens().contains("classinfo"@)) by {
        assert(UserJourneyKind::command_tokens()[11] == "classinfo"@);
    }
    assert(UserJourneyKind::command_tokens().contains("image"@)) by {
        assert(UserJourneyKind::command_tokens()[12] == "image"@);
    }
    assert(UserJourneyKind::command_tokens().contains("info"@)) by {
        assert(UserJourneyKind::command_tokens()[13] == "info"@);
    }
    assert(UserJourneyKind::command_tokens().contains("help"@)) by {
        assert(UserJourneyKind::command_tokens()[14] == "help"@);
    }
    assert(UserJourneyKind::command_tokens().contains("ping"@)) by {
        assert(UserJourneyKind::command_tokens()[15] == "ping"@);
    }
    assert(UserJourneyKind::command_tokens().contains("random"@)) by {
        assert(UserJourneyKind::command_tokens()[16] == "random"@);
    }
    assert(UserJourneyKind::command_tokens().contains("iteminfo"@)) by {
        assert(UserJourneyKind::command_tokens()[17] == "iteminfo"@);
    }
    assert(UserJourneyKind::command_tokens().contains("useitem"@)) by {
        assert(UserJourneyKind::command_tokens()[18] == "useitem"@);
    }
    assert(UserJourneyKind::command_tokens().contains("use"@)) by {
        assert(UserJourneyKind::command_tokens()[19] == "use"@);
    }
    assert(UserJourneyKind::command_tokens().contains("itemuse"@)) by {
        assert(UserJourneyKind::command_tokens()[20] == "itemuse"@);
    }
    assert(UserJourneyKind::command_tokens().contains("setdefault"@)) by {
        assert(UserJourneyKind::command_tokens()[21] == "setdefault"@);
    }
    assert(UserJourneyKind::command_tokens().contains("getdefault"@)) by {
        assert(UserJourneyKind::command_tokens()[22] == "getdefault"@);
    }
    assert(UserJourneyKind::command_tokens().contains("clearwallet"@)) by {
        assert(UserJourneyKind::command_tokens()[23] == "clearwallet"@);
    }
    assert(UserJourneyKind::command_tokens().contains("clearw"@)) by {
        assert(UserJourneyKind::command_tokens()[24] == "clearw"@);
    }
    assert(UserJourneyKind::command_tokens().contains("clearaddr"@)) by {
        assert(UserJourneyKind::command_tokens()[25] == "clearaddr"@);
    }
    assert(UserJourneyKind::command_tokens().contains("clearaddress"@)) by {
        assert(UserJourneyKind::command_tokens()[26] == "clearaddress"@);
    }
    assert(UserJourneyKind::command_tokens().contains("getwallet"@)) by {
        assert(UserJourneyKind::command_tokens()[27] == "getwallet"@);
    }
    assert(UserJourneyKind::command_tokens().contains("setwallet"@)) by {
        assert(UserJourneyKind::command_tokens()[28] == "setwallet"@);
    }
    assert(UserJourneyKind::command_tokens().contains("cd"@)) by {
        assert(UserJourneyKind::command_tokens()[29] == "cd"@);
    }
    assert(UserJourneyKind::command_tokens().contains("cooldown"@)) by {
        assert(UserJourneyKind::command_tokens()[30] == "cooldown"@);
    }
    assert(UserJourneyKind::command_tokens().contains("inventory"@)) by {
        assert(UserJourneyKind::command_tokens()[31] == "inventory"@);
    }
    assert(UserJourneyKind::command_tokens().contains("inv"@)) by {
        assert(UserJourneyKind::command_tokens()[32] == "inv"@);
    }
    assert(UserJourneyKind::command_tokens().contains("party"@)) by {
        assert(UserJourneyKind::command_tokens()[33] == "party"@);
    }
    assert(UserJourneyKind::command_tokens().contains("setpreference"@)) by {
        assert(UserJourneyKind::command_tokens()[34] == "setpreference"@);
    }
    assert(UserJourneyKind::command_tokens().contains("status"@)) by {
        assert(UserJourneyKind::command_tokens()[35] == "status"@);
    }
    assert(UserJourneyKind::command_tokens().contains("checkstatus"@)) by {
        assert(UserJourneyKind::command_tokens()[36] == "checkstatus"@);
    }
    assert(UserJourneyKind::command_tokens().contains("class"@)) by {
        assert(UserJourneyKind::command_tokens()[37] == "class"@);
    }
    assert(UserJourneyKind::command_tokens().contains("equip"@)) by {
        assert(UserJourneyKind::command_tokens()[38] == "equip"@);
    }
    assert(UserJourneyKind::command_tokens().contains("protagonist"@)) by {
        assert(UserJourneyKind::command_tokens()[39] == "protagonist"@);
    }
    assert(UserJourneyKind::command_tokens().contains("protag"@)) by {
        assert(UserJourneyKind::command_tokens()[40] == "protag"@);
    }
    assert(UserJourneyKind::command_tokens().contains("protaginfo"@)) by {
        assert(UserJourneyKind::command_tokens()[41] == "protaginfo"@);
    }
    assert(UserJourneyKind::command_tokens().contains("rename"@)) by {
        assert(UserJourneyKind::command_tokens()[42] == "rename"@);
    }
    assert(UserJourneyKind::command_tokens().contains("roll"@)) by {
        assert(UserJourneyKind::command_tokens()[43] == "roll"@);
    }
    assert(UserJourneyKind::command_tokens().contains("unequip"@)) by {
        assert(UserJourneyKind::command_tokens()[44] == "unequip"@);
    }
    assert(UserJourneyKind::command_tokens().contains("unequipall"@)) by {
        assert(UserJourneyKind::command_tokens()[45] == "unequipall"@);
    }
    assert(UserJourneyKind::command_tokens().contains("levels"@)) by {
        assert(UserJourneyKind::command_tokens()[46] == "levels"@);
    }
    assert(UserJourneyKind::command_tokens().contains("population"@)) by {
        assert(UserJourneyKind::command_tokens()[47] == "population"@);
    }
    assert(UserJourneyKind::command_tokens().contains("trainall"@)) by {
        assert(UserJourneyKind::command_tokens()[48] == "trainall"@);
    }
    assert(UserJourneyKind::command_tokens().contains("train"@)) by {
        assert(UserJourneyKind::command_tokens()[49] == "train"@);
    }
    assert(UserJourneyKind::command_tokens().contains("claimbounced"@)) by {
        assert(UserJourneyKind::command_tokens()[50] == "claimbounced"@);
    }
    assert(UserJourneyKind::command_tokens().contains("deposit"@)) by {
        assert(UserJourneyKind::command_tokens()[51] == "deposit"@);
    }
    assert(UserJourneyKind::command_tokens().contains("withdraw"@)) by {
        assert(UserJourneyKind::command_tokens()[52] == "withdraw"@);
    }
    assert(UserJourneyKind::command_tokens().contains("send"@)) by {
        assert(UserJourneyKind::command_tokens()[53] == "send"@);
    }
    assert(UserJourneyKind::command_tokens().contains("trade"@)) by {
        assert(UserJourneyKind::command_tokens()[54] == "trade"@);
    }
    assert(UserJourneyKind::command_tokens().contains("shop"@)) by {
        assert(UserJourneyKind::command_tokens()[55] == "shop"@);
    }
    assert(UserJourneyKind::command_tokens().contains("buy"@)) by {
        assert(UserJourneyKind::command_tokens()[56] == "buy"@);
    }
    assert(UserJourneyKind::command_tokens().contains("oregon"@)) by {
        assert(UserJourneyKind::command_tokens()[57] == "oregon"@);
    }
    theorem_journey_command_round_trip(UserJourneyKind::AdminGrantItem);
    theorem_journey_command_round_trip(UserJourneyKind::ExpeditionsSolo);
    theorem_journey_command_round_trip(UserJourneyKind::ExpeditionsCheckSolo);
    theorem_journey_command_round_trip(UserJourneyKind::ExpeditionsWander);
    theorem_journey_command_round_trip(UserJourneyKind::ExpeditionsWeekly);
    theorem_journey_command_round_trip(UserJourneyKind::ExplorationAtlas);
    theorem_journey_command_round_trip(UserJourneyKind::ExplorationDestinations);
    theorem_journey_command_round_trip(UserJourneyKind::ExplorationLocation);
    theorem_journey_command_round_trip(UserJourneyKind::ExplorationMap);
    theorem_journey_command_round_trip(UserJourneyKind::ExplorationTravel);
    theorem_journey_command_round_trip(UserJourneyKind::ExplorationTripPlan);
    theorem_journey_command_round_trip(UserJourneyKind::GeneralClassInfo);
    theorem_journey_command_round_trip(UserJourneyKind::GeneralImage);
    theorem_journey_command_round_trip(UserJourneyKind::GeneralInfo);
    theorem_journey_command_round_trip(UserJourneyKind::GeneralHelp);
    theorem_journey_command_round_trip(UserJourneyKind::GeneralPing);
    theorem_journey_command_round_trip(UserJourneyKind::GeneralRandom);
    theorem_journey_command_round_trip(UserJourneyKind::ItemInfo);
    theorem_journey_command_round_trip(UserJourneyKind::ItemUse);
    theorem_journey_command_round_trip(UserJourneyKind::ProfileDefaultSet);
    theorem_journey_command_round_trip(UserJourneyKind::ProfileDefaultGet);
    theorem_journey_command_round_trip(UserJourneyKind::ProfileWalletClear);
    theorem_journey_command_round_trip(UserJourneyKind::ProfileWalletGet);
    theorem_journey_command_round_trip(UserJourneyKind::ProfileWalletSet);
    theorem_journey_command_round_trip(UserJourneyKind::ProfileCooldown);
    theorem_journey_command_round_trip(UserJourneyKind::ProfileInventory);
    theorem_journey_command_round_trip(UserJourneyKind::ProfileParty);
    theorem_journey_command_round_trip(UserJourneyKind::ProfilePreferenceSet);
    theorem_journey_command_round_trip(UserJourneyKind::ProtagonistStatusCheck);
    theorem_journey_command_round_trip(UserJourneyKind::ProtagonistClass);
    theorem_journey_command_round_trip(UserJourneyKind::ProtagonistEquip);
    theorem_journey_command_round_trip(UserJourneyKind::ProtagonistDisplay);
    theorem_journey_command_round_trip(UserJourneyKind::ProtagonistInfo);
    theorem_journey_command_round_trip(UserJourneyKind::ProtagonistNameSet);
    theorem_journey_command_round_trip(UserJourneyKind::ProtagonistRoll);
    theorem_journey_command_round_trip(UserJourneyKind::ProtagonistUnequip);
    theorem_journey_command_round_trip(UserJourneyKind::ProtagonistUnequipAll);
    theorem_journey_command_round_trip(UserJourneyKind::StatisticsLevels);
    theorem_journey_command_round_trip(UserJourneyKind::StatisticsPopulations);
    theorem_journey_command_round_trip(UserJourneyKind::TrainingTrain);
    theorem_journey_command_round_trip(UserJourneyKind::TransactionClaimBounced);
    theorem_journey_command_round_trip(UserJourneyKind::TransactionDeposit);
    theorem_journey_command_round_trip(UserJourneyKind::TransactionWithdraw);
    theorem_journey_command_round_trip(UserJourneyKind::TransactionSend);
    theorem_journey_command_round_trip(UserJourneyKind::TransactionTrade);
    theorem_journey_command_round_trip(UserJourneyKind::ShopShop);
    theorem_journey_command_round_trip(UserJourneyKind::ShopBuy);
    theorem_journey_command_round_trip(UserJourneyKind::OregonTrailMinigame);
    theorem_journey_aliases();
    assert forall|j: int| 0 <= j < 58 implies UserJourneyKind::command_spec(
        #[trigger] UserJourneyKind::command_tokens()[j],
    ) is Some by {}
    if UserJourneyKind::command_tokens().contains(s) {
        let j = choose|i: int|
            0 <= i < UserJourneyKind::command_tokens().len()
                && UserJourneyKind::command_tokens()[i] == s;
        assert(UserJourneyKind::command_spec(UserJourneyKind::command_tokens()[j]) is Some);
    }
}

/// Law: the listed command spellings are pairwise distinct: the table
/// holds no duplicate.
#[verifier::rlimit(100)]
#[verifier::spinoff_prover]
pub proof fn theorem_journey_command_tokens_distinct()
    ensures
        forall|i: int, j: int|
            0 <= i < j < UserJourneyKind::command_tokens().len()
                ==> UserJourneyKind::command_tokens()[i] != UserJourneyKind::command_tokens()[j],
{
    assert(UserJourneyKind::command_tokens().len() == 58);
    reveal_strlit("grantitem");
    reveal_strlit("solo");
    reveal_strlit("checksolo");
    reveal_strlit("wander");
    reveal_strlit("weekly");
    reveal_strlit("atlas");
    reveal_strlit("destinations");
    reveal_strlit("location");
    reveal_strlit("map");
    reveal_strlit("travel");
    reveal_strlit("tripplan");
    reveal_strlit("classinfo");
    reveal_strlit("image");
    reveal_strlit("info");
    reveal_strlit("help");
    reveal_strlit("ping");
    reveal_strlit("random");
    reveal_strlit("iteminfo");
    reveal_strlit("useitem");
    reveal_strlit("use");
    reveal_strlit("itemuse");
    reveal_strlit("setdefault");
    reveal_strlit("getdefault");
    reveal_strlit("clearwallet");
    reveal_strlit("clearw");
    reveal_strlit("clearaddr");
    reveal_strlit("clearaddress");
    reveal_strlit("getwallet");
    reveal_strlit("setwallet");
    reveal_strlit("cd");
    reveal_strlit("cooldown");
    reveal_strlit("inventory");
    reveal_strlit("inv");
    reveal_strlit("party");
    reveal_strlit("setpreference");
    reveal_strlit("status");
    reveal_strlit("checkstatus");
    reveal_strlit("class");
    reveal_strlit("equip");
    reveal_strlit("protagonist");
    reveal_strlit("protag");
    reveal_strlit("protaginfo");
    reveal_strlit("rename");
    reveal_strlit("roll");
    reveal_strlit("unequip");
    reveal_strlit("unequipall");
    reveal_strlit("levels");
    reveal_strlit("population");
    reveal_strlit("trainall");
    reveal_strlit("train");
    reveal_strlit("claimbounced");
    reveal_strlit("deposit");
    reveal_strlit("withdraw");
    reveal_strlit("send");
    reveal_strlit("trade");
    reveal_strlit("shop");
    reveal_strlit("buy");
    reveal_strlit("oregon");
    assert("grantitem"@.len() == 9);
    assert("solo"@.len() == 4);
    assert("checksolo"@.len() == 9);
    assert("wander"@.len() == 6);
    assert("weekly"@.len() == 6);
    assert("atlas"@.len() == 5);
    assert("destinations"@.len() == 12);
    assert("location"@.len() == 8);
    assert("map"@.len() == 3);
    assert("travel"@.len() == 6);
    assert("tripplan"@.len() == 8);
    assert("classinfo"@.len() == 9);
    assert("image"@.len() == 5);
    assert("info"@.len() == 4);
    assert("help"@.len() == 4);
    assert("ping"@.len() == 4);
    assert("random"@.len() == 6);
    assert("iteminfo"@.len() == 8);
    assert("useitem"@.len() == 7);
    assert("use"@.len() == 3);
    assert("itemuse"@.len() == 7);
    assert("setdefault"@.len() == 10);
    assert("getdefault"@.len() == 10);
    assert("clearwallet"@.len() == 11);
    assert("clearw"@.len() == 6);
    assert("clearaddr"@.len() == 9);
    assert("clearaddress"@.len() == 12);
    assert("getwallet"@.len() == 9);
    assert("setwallet"@.len() == 9);
    assert("cd"@.len() == 2);
    assert("cooldown"@.len() == 8);
    assert("inventory"@.len() == 9);
    assert("inv"@.len() == 3);
    assert("party"@.len() == 5);
    assert("setpreference"@.len() == 13);
    assert("status"@.len() == 6);
    assert("checkstatus"@.len() == 11);
    assert("class"@.len() == 5);
    assert("equip"@.len() == 5);
    assert("protagonist"@.len() == 11);
    assert("protag"@.len() == 6);
    assert("protaginfo"@.len() == 10);
    assert("rename"@.len() == 6);
    assert("roll"@.len() == 4);
    assert("unequip"@.len() == 7);
    assert("unequipall"@.len() == 10);
    assert("levels"@.len() == 6);
    assert("population"@.len() == 10);
    assert("trainall"@.len() == 8);
    assert("train"@.len() == 5);
    assert("claimbounced"@.len() == 12);
    assert("deposit"@.len() == 7);
    assert("withdraw"@.len() == 8);
    assert("send"@.len() == 4);
    assert("trade"@.len() == 5);
    assert("shop"@.len() == 4);
    assert("buy"@.len() == 3);
    assert("oregon"@.len() == 6);
    assert(UserJourneyKind::command_tokens()[0] == "grantitem"@);
    assert(UserJourneyKind::command_tokens()[1] == "solo"@);
    assert(UserJourneyKind::command_tokens()[2] == "checksolo"@);
    assert(UserJourneyKind::command_tokens()[3] == "wander"@);
    assert(UserJourneyKind::command_tokens()[4] == "weekly"@);
    assert(UserJourneyKind::command_tokens()[5] == "atlas"@);
    assert(UserJourneyKind::command_tokens()[6] == "destinations"@);
    assert(UserJourneyKind::command_tokens()[7] == "location"@);
    assert(UserJourneyKind::command_tokens()[8] == "map"@);
    assert(UserJourneyKind::command_tokens()[9] == "travel"@);
    assert(UserJourneyKind::command_tokens()[10] == "tripplan"@);
    assert(UserJourneyKind::command_tokens()[11] == "classinfo"@);
    assert(UserJourneyKind::command_tokens()[12] == "image"@);
    assert(UserJourneyKind::command_tokens()[13] == "info"@);
    assert(UserJourneyKind::command_tokens()[14] == "help"@);
    assert(UserJourneyKind::command_tokens()[15] == "ping"@);
    assert(UserJourneyKind::command_tokens()[16] == "random"@);
    assert(UserJourneyKind::command_tokens()[17] == "iteminfo"@);
    assert(UserJourneyKind::command_tokens()[18] == "useitem"@);
    assert(UserJourneyKind::command_tokens()[19] == "use"@);
    assert(UserJourneyKind::command_tokens()[20] == "itemuse"@);
    assert(UserJourneyKind::command_tokens()[21] == "setdefault"@);
    assert(UserJourneyKind::command_tokens()[22] == "getdefault"@);
    assert(UserJourneyKind::command_tokens()[23] == "clearwallet"@);
    assert(UserJourneyKind::command_tokens()[24] == "clearw"@);
    assert(UserJourneyKind::command_tokens()[25] == "clearaddr"@);
    assert(UserJourneyKind::command_tokens()[26] == "clearaddress"@);
    assert(UserJourneyKind::command_tokens()[27] == "getwallet"@);
    assert(UserJourneyKind::command_tokens()[28] == "setwallet"@);
    assert(UserJourneyKind::command_tokens()[29] == "cd"@);
    assert(UserJourneyKind::command_tokens()[30] == "cooldown"@);
    assert(UserJourneyKind::command_tokens()[31] == "inventory"@);
    assert(UserJourneyKind::command_tokens()[32] == "inv"@);
    assert(UserJourneyKind::command_tokens()[33] == "party"@);
    assert(UserJourneyKind::command_tokens()[34] == "setpreference"@);
    assert(UserJourneyKind::command_tokens()[35] == "status"@);
    assert(UserJourneyKind::command_tokens()[36] == "checkstatus"@);
    assert(UserJourneyKind::command_tokens()[37] == "class"@);
    assert(UserJourneyKind::command_tokens()[38] == "equip"@);
    assert(UserJourneyKind::command_tokens()[39] == "protagonist"@);
    assert(UserJourneyKind::command_tokens()[40] == "protag"@);
    assert(UserJourneyKind::command_tokens()[41] == "protaginfo"@);
    assert(UserJourneyKind::command_tokens()[42] == "rename"@);
    assert(UserJourneyKind::command_tokens()[43] == "roll"@);
    assert(UserJourneyKind::command_tokens()[44] == "unequip"@);
    assert(UserJourneyKind::command_tokens()[45] == "unequipall"@);
    assert(UserJourneyKind::command_tokens()[46] == "levels"@);
    assert(UserJourneyKind::command_tokens()[47] == "population"@);
    assert(UserJourneyKind::command_tokens()[48] == "trainall"@);
    assert(UserJourneyKind::command_tokens()[49] == "train"@);
    assert(UserJourneyKind::command_tokens()[50] == "claimbounced"@);
    assert(UserJourneyKind::command_tokens()[51] == "deposit"@);
    assert(UserJourneyKind::command_tokens()[52] == "withdraw"@);
    assert(UserJourneyKind::command_tokens()[53] == "send"@);
    assert(UserJourneyKind::command_tokens()[54] == "trade"@);
    assert(UserJourneyKind::command_tokens()[55] == "shop"@);
    assert(UserJourneyKind::command_tokens()[56] == "buy"@);
    assert(UserJourneyKind::command_tokens()[57] == "oregon"@);
    assert("checksolo"@[0] != "grantitem"@[0]);
    assert("weekly"@[1] != "wander"@[1]);
    assert("travel"@[0] != "wander"@[0]);
    assert("travel"@[0] != "weekly"@[0]);
    assert("tripplan"@[0] != "location"@[0]);
    assert("classinfo"@[0] != "grantitem"@[0]);
    assert("classinfo"@[1] != "checksolo"@[1]);
    assert("image"@[0] != "atlas"@[0]);
    assert("info"@[0] != "solo"@[0]);
    assert("help"@[0] != "solo"@[0]);
    assert("help"@[0] != "info"@[0]);
    assert("ping"@[0] != "solo"@[0]);
    assert("ping"@[0] != "info"@[0]);
    assert("ping"@[0] != "help"@[0]);
    assert("random"@[0] != "wander"@[0]);
    assert("random"@[0] != "weekly"@[0]);
    assert("random"@[0] != "travel"@[0]);
    assert("iteminfo"@[0] != "location"@[0]);
    assert("iteminfo"@[0] != "tripplan"@[0]);
    assert("use"@[0] != "map"@[0]);
    assert("itemuse"@[0] != "useitem"@[0]);
    assert("getdefault"@[0] != "setdefault"@[0]);
    assert("clearw"@[0] != "wander"@[0]);
    assert("clearw"@[0] != "weekly"@[0]);
    assert("clearw"@[0] != "travel"@[0]);
    assert("clearw"@[0] != "random"@[0]);
    assert("clearaddr"@[0] != "grantitem"@[0]);
    assert("clearaddr"@[1] != "checksolo"@[1]);
    assert("clearaddr"@[2] != "classinfo"@[2]);
    assert("clearaddress"@[0] != "destinations"@[0]);
    assert("getwallet"@[1] != "grantitem"@[1]);
    assert("getwallet"@[0] != "checksolo"@[0]);
    assert("getwallet"@[0] != "classinfo"@[0]);
    assert("getwallet"@[0] != "clearaddr"@[0]);
    assert("setwallet"@[0] != "grantitem"@[0]);
    assert("setwallet"@[0] != "checksolo"@[0]);
    assert("setwallet"@[0] != "classinfo"@[0]);
    assert("setwallet"@[0] != "clearaddr"@[0]);
    assert("setwallet"@[0] != "getwallet"@[0]);
    assert("cooldown"@[0] != "location"@[0]);
    assert("cooldown"@[0] != "tripplan"@[0]);
    assert("cooldown"@[0] != "iteminfo"@[0]);
    assert("inventory"@[0] != "grantitem"@[0]);
    assert("inventory"@[0] != "checksolo"@[0]);
    assert("inventory"@[0] != "classinfo"@[0]);
    assert("inventory"@[0] != "clearaddr"@[0]);
    assert("inventory"@[0] != "getwallet"@[0]);
    assert("inventory"@[0] != "setwallet"@[0]);
    assert("inv"@[0] != "map"@[0]);
    assert("inv"@[0] != "use"@[0]);
    assert("party"@[0] != "atlas"@[0]);
    assert("party"@[0] != "image"@[0]);
    assert("status"@[0] != "wander"@[0]);
    assert("status"@[0] != "weekly"@[0]);
    assert("status"@[0] != "travel"@[0]);
    assert("status"@[0] != "random"@[0]);
    assert("status"@[0] != "clearw"@[0]);
    assert("checkstatus"@[1] != "clearwallet"@[1]);
    assert("class"@[0] != "atlas"@[0]);
    assert("class"@[0] != "image"@[0]);
    assert("class"@[0] != "party"@[0]);
    assert("equip"@[0] != "atlas"@[0]);
    assert("equip"@[0] != "image"@[0]);
    assert("equip"@[0] != "party"@[0]);
    assert("equip"@[0] != "class"@[0]);
    assert("protagonist"@[0] != "clearwallet"@[0]);
    assert("protagonist"@[0] != "checkstatus"@[0]);
    assert("protag"@[0] != "wander"@[0]);
    assert("protag"@[0] != "weekly"@[0]);
    assert("protag"@[0] != "travel"@[0]);
    assert("protag"@[0] != "random"@[0]);
    assert("protag"@[0] != "clearw"@[0]);
    assert("protag"@[0] != "status"@[0]);
    assert("protaginfo"@[0] != "setdefault"@[0]);
    assert("protaginfo"@[0] != "getdefault"@[0]);
    assert("rename"@[0] != "wander"@[0]);
    assert("rename"@[0] != "weekly"@[0]);
    assert("rename"@[0] != "travel"@[0]);
    assert("rename"@[1] != "random"@[1]);
    assert("rename"@[0] != "clearw"@[0]);
    assert("rename"@[0] != "status"@[0]);
    assert("rename"@[0] != "protag"@[0]);
    assert("roll"@[0] != "solo"@[0]);
    assert("roll"@[0] != "info"@[0]);
    assert("roll"@[0] != "help"@[0]);
    assert("roll"@[0] != "ping"@[0]);
    assert("unequip"@[1] != "useitem"@[1]);
    assert("unequip"@[0] != "itemuse"@[0]);
    assert("unequipall"@[0] != "setdefault"@[0]);
    assert("unequipall"@[0] != "getdefault"@[0]);
    assert("unequipall"@[0] != "protaginfo"@[0]);
    assert("levels"@[0] != "wander"@[0]);
    assert("levels"@[0] != "weekly"@[0]);
    assert("levels"@[0] != "travel"@[0]);
    assert("levels"@[0] != "random"@[0]);
    assert("levels"@[0] != "clearw"@[0]);
    assert("levels"@[0] != "status"@[0]);
    assert("levels"@[0] != "protag"@[0]);
    assert("levels"@[0] != "rename"@[0]);
    assert("population"@[0] != "setdefault"@[0]);
    assert("population"@[0] != "getdefault"@[0]);
    assert("population"@[1] != "protaginfo"@[1]);
    assert("population"@[0] != "unequipall"@[0]);
    assert("trainall"@[0] != "location"@[0]);
    assert("trainall"@[2] != "tripplan"@[2]);
    assert("trainall"@[0] != "iteminfo"@[0]);
    assert("trainall"@[0] != "cooldown"@[0]);
    assert("train"@[0] != "atlas"@[0]);
    assert("train"@[0] != "image"@[0]);
    assert("train"@[0] != "party"@[0]);
    assert("train"@[0] != "class"@[0]);
    assert("train"@[0] != "equip"@[0]);
    assert("claimbounced"@[0] != "destinations"@[0]);
    assert("claimbounced"@[2] != "clearaddress"@[2]);
    assert("deposit"@[0] != "useitem"@[0]);
    assert("deposit"@[0] != "itemuse"@[0]);
    assert("deposit"@[0] != "unequip"@[0]);
    assert("withdraw"@[0] != "location"@[0]);
    assert("withdraw"@[0] != "tripplan"@[0]);
    assert("withdraw"@[0] != "iteminfo"@[0]);
    assert("withdraw"@[0] != "cooldown"@[0]);
    assert("withdraw"@[0] != "trainall"@[0]);
    assert("send"@[1] != "solo"@[1]);
    assert("send"@[0] != "info"@[0]);
    assert("send"@[0] != "help"@[0]);
    assert("send"@[0] != "ping"@[0]);
    assert("send"@[0] != "roll"@[0]);
    assert("trade"@[0] != "atlas"@[0]);
    assert("trade"@[0] != "image"@[0]);
    assert("trade"@[0] != "party"@[0]);
    assert("trade"@[0] != "class"@[0]);
    assert("trade"@[0] != "equip"@[0]);
    assert("trade"@[3] != "train"@[3]);
    assert("shop"@[1] != "solo"@[1]);
    assert("shop"@[0] != "info"@[0]);
    assert("shop"@[0] != "help"@[0]);
    assert("shop"@[0] != "ping"@[0]);
    assert("shop"@[0] != "roll"@[0]);
    assert("shop"@[1] != "send"@[1]);
    assert("buy"@[0] != "map"@[0]);
    assert("buy"@[0] != "use"@[0]);
    assert("buy"@[0] != "inv"@[0]);
    assert("oregon"@[0] != "wander"@[0]);
    assert("oregon"@[0] != "weekly"@[0]);
    assert("oregon"@[0] != "travel"@[0]);
    assert("oregon"@[0] != "random"@[0]);
    assert("oregon"@[0] != "clearw"@[0]);
    assert("oregon"@[0] != "status"@[0]);
    assert("oregon"@[0] != "protag"@[0]);
    assert("oregon"@[0] != "rename"@[0]);
    assert("oregon"@[0] != "levels"@[0]);
    assert forall|i: int, j: int| 0 <= i < j < 58 implies UserJourneyKind::command_tokens()[i]
        != UserJourneyKind::command_tokens()[j] by {}
}

} // verus!
