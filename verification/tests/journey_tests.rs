//! The user-journey command kind: wire codec, command-token parser, and
//! the alias table.

use pgwrap::error::EncodingError;
use pgwrap::UserJourneyKind as K;

fn all_variants() -> Vec<K> {
    vec![
        K::AdminGrantItem,
        K::ExpeditionsSolo,
        K::ExpeditionsCheckSolo,
        K::ExpeditionsWander,
        K::ExpeditionsWeekly,
        K::ExplorationAtlas,
        K::ExplorationDestinations,
        K::ExplorationLocation,
        K::ExplorationMap,
        K::ExplorationTravel,
        K::ExplorationTripPlan,
        K::GeneralClassInfo,
        K::GeneralImage,
        K::GeneralInfo,
        K::GeneralHelp,
        K::GeneralPing,
        K::GeneralRandom,
        K::ItemInfo,
        K::ItemUse,
        K::ProfileDefaultSet,
        K::ProfileDefaultGet,
        K::ProfileWalletClear,
        K::ProfileWalletGet,
        K::ProfileWalletSet,
        K::ProfileCooldown,
        K::ProfileInventory,
        K::ProfileParty,
        K::ProfilePreferenceSet,
        K::ProtagonistStatusCheck,
        K::ProtagonistClass,
        K::ProtagonistEquip,
        K::ProtagonistDisplay,
        K::ProtagonistInfo,
        K::ProtagonistNameSet,
        K::ProtagonistRoll,
        K::ProtagonistUnequip,
        K::ProtagonistUnequipAll,
        K::StatisticsLevels,
        K::StatisticsPopulations,
        K::TrainingTrain,
        K::TransactionClaimBounced,
        K::TransactionDeposit,
        K::TransactionWithdraw,
        K::TransactionSend,
        K::TransactionTrade,
        K::ShopShop,
        K::ShopBuy,
        K::OregonTrailMinigame,
    ]
}

#[test]
fn wire_round_trip_for_every_variant() {
    for x in all_variants() {
        assert_eq!(K::from_str(x.to_str()), Ok(x), "variant {:?}", x);
    }
}

#[test]
fn command_parse_accepts_every_canonical_spelling() {
    for x in all_variants() {
        assert_eq!(K::from_command_str(x.to_str()), Some(x), "variant {:?}", x);
    }
}

#[test]
fn wire_decode_rejects_unknown_tokens() {
    for bad in ["", "frolic", "solo2", "grant item", "oregano"] {
        assert_eq!(K::from_str(bad), Err(EncodingError::InvalidEncoding));
        assert_eq!(K::from_command_str(bad), None);
    }
}

#[test]
fn wire_decode_is_case_insensitive() {
    assert_eq!(K::from_str("SOLO"), Ok(K::ExpeditionsSolo));
    assert_eq!(K::from_str("TripPlan"), Ok(K::ExplorationTripPlan));
}

#[test]
fn command_parse_matches_exactly() {
    // The command-token parser is a lookup table over the listed
    // spellings: a case variant of a listed token is not in the table,
    // even where the wire decoder accepts it.
    assert_eq!(K::from_command_str("CD"), None);
    assert_eq!(K::from_command_str("SOLO"), None);
    assert_eq!(K::from_command_str("Useitem"), None);
    assert_eq!(K::from_command_str("cd"), Some(K::ProfileCooldown));
    assert_eq!(K::from_command_str("solo"), Some(K::ExpeditionsSolo));
}

#[test]
fn alias_spellings_parse_as_commands_only() {
    let aliases = [
        ("useitem", K::ItemUse),
        ("use", K::ItemUse),
        ("clearw", K::ProfileWalletClear),
        ("clearaddr", K::ProfileWalletClear),
        ("clearaddress", K::ProfileWalletClear),
        ("cd", K::ProfileCooldown),
        ("inv", K::ProfileInventory),
        ("checkstatus", K::ProtagonistStatusCheck),
        ("protag", K::ProtagonistDisplay),
        ("trainall", K::TrainingTrain),
    ];
    for (spelling, expected) in aliases {
        assert_eq!(K::from_command_str(spelling), Some(expected), "{}", spelling);
        // The wire codec accepts the canonical spelling only.
        assert_eq!(
            K::from_str(spelling),
            Err(EncodingError::InvalidEncoding),
            "{}",
            spelling
        );
    }
}

#[test]
fn str_forms_lists_exactly_the_accepted_spellings() {
    let forms = K::str_forms();
    assert_eq!(forms.len(), 58);
    // Every listed spelling parses as a command token, and the table
    // holds no duplicate.
    for (i, form) in forms.iter().enumerate() {
        assert!(K::from_command_str(form).is_some(), "{}", form);
        for other in &forms[..i] {
            assert_ne!(form, other);
        }
    }
    // A token that parses is in the table; one outside is not accepted.
    assert!(forms.contains(&"clearaddress"));
    assert!(forms.contains(&"itemuse"));
    assert!(!forms.contains(&"CD"));
    assert_eq!(K::from_command_str("CD"), None);
    assert_eq!(forms[0], "grantitem");
    assert_eq!(forms[57], "oregon");
}

#[test]
fn encoding_is_canonical() {
    assert_eq!(K::ItemUse.to_str(), "itemuse");
    assert_eq!(K::ProfileCooldown.to_str(), "cooldown");
    assert_eq!(K::TrainingTrain.to_str(), "train");
    assert_eq!(K::OregonTrailMinigame.to_str(), "oregon");
}

#[test]
fn atomic_commands_are_flagged() {
    assert!(K::AdminGrantItem.is_atomic_command());
    assert!(!K::ExpeditionsSolo.is_atomic_command());
    assert!(!K::ExplorationTravel.is_atomic_command());
    assert!(K::ProfileCooldown.is_atomic_command());
    assert!(!K::ProtagonistClass.is_atomic_command());
    assert!(K::TransactionWithdraw.is_atomic_command());
    assert!(!K::TransactionDeposit.is_atomic_command());
    assert!(!K::ShopBuy.is_atomic_command());
    assert!(K::ShopShop.is_atomic_command());
    assert!(!K::OregonTrailMinigame.is_atomic_command());
}
