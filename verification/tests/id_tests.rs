//! The identifier newtypes: distinct types over shared primitives, and
//! the unsigned 64-bit ids' wire codec.

use pgwrap::error::NumericU64Error;
use pgwrap::id::ActionId;
use pgwrap::id::DiscordGuildId;
use pgwrap::id::DiscordUserId;
use pgwrap::id::RoleId;
use pgwrap::id::UserJourneyId;

#[test]
fn discord_ids_round_trip_through_the_wire() {
    for raw in [0u64, 1, 1234567890123456789, u64::MAX] {
        let id = DiscordUserId::assume_valid(raw);
        assert_eq!(*id.inner(), raw);
        let wire = id.encode_wire();
        assert_eq!(DiscordUserId::decode_wire(&wire), Ok(id));
    }
}

#[test]
fn discord_ids_reject_invalid_wire_values() {
    let negative = pgwrap::WireDecimal { negative: true, digits: vec![7], scale: 0 };
    assert_eq!(
        DiscordGuildId::decode_wire(&negative),
        Err(NumericU64Error::Negative)
    );
    let fractional = pgwrap::WireDecimal { negative: false, digits: vec![7, 5], scale: 1 };
    assert_eq!(
        DiscordGuildId::decode_wire(&fractional),
        Err(NumericU64Error::Decimal)
    );
}

#[test]
fn signed_ids_wrap_their_primitive() {
    let journey = UserJourneyId::assume_valid(-3);
    assert_eq!(*journey.inner(), -3);
    let action = ActionId::assume_valid(12);
    assert_eq!(*action.inner(), 12);
    let role = RoleId::assume_valid(i32::MIN);
    assert_eq!(*role.inner(), i32::MIN);
    assert!(UserJourneyId::assume_valid(1) < UserJourneyId::assume_valid(2));
    assert_eq!(RoleId::assume_valid(5), RoleId::assume_valid(5));
}
