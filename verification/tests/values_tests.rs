//! The enumerated domain codes and the small value wrappers.

use pgwrap::error::EncodingError;
use pgwrap::error::LevelError;
use pgwrap::error::NumericU32Error;
use pgwrap::error::NumericU64Error;
use pgwrap::values::Direction;
use pgwrap::values::InventoryScope;
use pgwrap::values::ItemAmount;
use pgwrap::values::Level;
use pgwrap::values::ShopLimitBoundary;
use pgwrap::values::SlotCapacity;
use pgwrap::values::SoloExpeditionRewardTier;
use pgwrap::values::TransactionPurpose;
use pgwrap::values::UIKind;
use pgwrap::values::DecimalPlaces;
use pgwrap::values::XP;

#[test]
fn inventory_scope_round_trip() {
    for x in [InventoryScope::Bot, InventoryScope::All] {
        assert_eq!(InventoryScope::from_str(x.as_str()), Ok(x));
    }
    assert_eq!(InventoryScope::from_str("BOT"), Ok(InventoryScope::Bot));
    assert_eq!(
        InventoryScope::from_str("everything"),
        Err(EncodingError::InvalidEncoding)
    );
}

#[test]
fn transaction_purpose_round_trip() {
    for x in [
        TransactionPurpose::Withdrawal,
        TransactionPurpose::Deposit,
        TransactionPurpose::Trade,
        TransactionPurpose::ClaimBounced,
    ] {
        assert_eq!(TransactionPurpose::from_str(x.as_str()), Ok(x));
    }
    assert_eq!(
        TransactionPurpose::from_str("ClaimBounced"),
        Ok(TransactionPurpose::ClaimBounced)
    );
    assert_eq!(
        TransactionPurpose::from_str("gift"),
        Err(EncodingError::InvalidEncoding)
    );
}

#[test]
fn reward_tier_round_trip() {
    for x in [
        SoloExpeditionRewardTier::Bad,
        SoloExpeditionRewardTier::Okay,
        SoloExpeditionRewardTier::Good,
        SoloExpeditionRewardTier::Bonus,
    ] {
        assert_eq!(SoloExpeditionRewardTier::from_str(x.as_str()), Ok(x));
    }
}

#[test]
fn reward_tier_mixed_case_token_decodes() {
    assert_eq!(
        SoloExpeditionRewardTier::from_str("BAD"),
        Ok(SoloExpeditionRewardTier::Bad)
    );
    assert_eq!(
        SoloExpeditionRewardTier::from_str("Bonus"),
        Ok(SoloExpeditionRewardTier::Bonus)
    );
}

#[test]
fn reward_tier_rejects_tokens_outside_the_set() {
    // A tier name with a suffix is outside the defined set, as is any
    // other unrecognized token.
    assert_eq!(
        SoloExpeditionRewardTier::from_str("goodish"),
        Err(EncodingError::InvalidEncoding)
    );
    assert_eq!(
        SoloExpeditionRewardTier::from_str("badx"),
        Err(EncodingError::InvalidEncoding)
    );
    assert_eq!(
        SoloExpeditionRewardTier::from_str("terrible"),
        Err(EncodingError::InvalidEncoding)
    );
    assert_eq!(
        SoloExpeditionRewardTier::from_str(""),
        Err(EncodingError::InvalidEncoding)
    );
}

#[test]
fn reward_tiers_order_from_worst_to_best() {
    assert!(SoloExpeditionRewardTier::Bad < SoloExpeditionRewardTier::Okay);
    assert!(SoloExpeditionRewardTier::Okay < SoloExpeditionRewardTier::Good);
    assert!(SoloExpeditionRewardTier::Good < SoloExpeditionRewardTier::Bonus);
    assert!(SoloExpeditionRewardTier::Bonus > SoloExpeditionRewardTier::Bad);
    assert!(SoloExpeditionRewardTier::Okay <= SoloExpeditionRewardTier::Okay);
    assert_eq!([SoloExpeditionRewardTier::Bonus, SoloExpeditionRewardTier::Bad, SoloExpeditionRewardTier::Good].iter().max(), Some(&SoloExpeditionRewardTier::Bonus));
}

#[test]
fn shop_limit_round_trip() {
    for x in [
        ShopLimitBoundary::Daily,
        ShopLimitBoundary::Weekly,
        ShopLimitBoundary::Never,
    ] {
        assert_eq!(ShopLimitBoundary::from_str(x.to_str()), Ok(x));
    }
    assert_eq!(
        ShopLimitBoundary::from_str("NEVER"),
        Ok(ShopLimitBoundary::Never)
    );
    assert_eq!(
        ShopLimitBoundary::from_str("hourly"),
        Err(EncodingError::InvalidEncoding)
    );
}

#[test]
fn direction_round_trip_and_aliases() {
    for x in [
        Direction::North,
        Direction::South,
        Direction::East,
        Direction::West,
    ] {
        assert_eq!(Direction::from_str(x.to_str()), Ok(x));
    }
    assert_eq!(Direction::from_str("1"), Ok(Direction::North));
    assert_eq!(Direction::from_str("n"), Ok(Direction::North));
    assert_eq!(Direction::from_str("2"), Ok(Direction::East));
    assert_eq!(Direction::from_str("e"), Ok(Direction::East));
    assert_eq!(Direction::from_str("east "), Ok(Direction::East));
    assert_eq!(Direction::from_str("3"), Ok(Direction::South));
    assert_eq!(Direction::from_str("s"), Ok(Direction::South));
    assert_eq!(Direction::from_str("4"), Ok(Direction::West));
    assert_eq!(Direction::from_str("w"), Ok(Direction::West));
    assert_eq!(Direction::from_str("west "), Ok(Direction::West));
    assert_eq!(Direction::from_str("up"), Err(EncodingError::InvalidEncoding));
}

#[test]
fn ui_kind_round_trip() {
    for x in [UIKind::Message, UIKind::Button, UIKind::Select] {
        assert_eq!(UIKind::from_i32(x.to_i32()), Some(x));
        assert_eq!(UIKind::decode_wire(x.to_i32()), Ok(x));
    }
    assert_eq!(UIKind::from_i32(3), None);
    assert_eq!(UIKind::from_i32(-1), None);
    assert_eq!(UIKind::decode_wire(3), Err(EncodingError::InvalidEncoding));
}

#[test]
fn xp_wraps_a_u32() {
    let mut xp = XP::from(10);
    assert_eq!(*xp.inner(), 10);
    *xp.inner_mut() += 5;
    assert_eq!(xp, XP::assume_valid(15));
    assert_eq!(XP::decode_wire(xp.encode_wire()), Ok(xp));
    assert_eq!(XP::decode_wire(-3), Err(NumericU32Error::Negative));
    assert_eq!(
        XP::decode_wire(u32::MAX as i64 + 1),
        Err(NumericU32Error::Overflow)
    );
}

#[test]
fn level_rejects_negative_counts() {
    assert_eq!(Level::new(-1), Err(LevelError::Negative));
    assert_eq!(Level::new(0), Ok(Level(0)));
    assert_eq!(Level::new(30), Ok(Level(30)));
    assert_eq!(*Level::new(30).unwrap().inner(), 30);
}

#[test]
fn slot_capacity_arithmetic() {
    let mut c = SlotCapacity::from(10);
    c = c.add(SlotCapacity::from(4));
    assert_eq!(c, SlotCapacity::assume_valid(14));
    c = c.sub(SlotCapacity::from(6));
    assert_eq!(c, SlotCapacity::assume_valid(8));
    c.add_assign(SlotCapacity::from(1));
    c.sub_assign(SlotCapacity::from(2));
    assert_eq!(*c.inner(), 7);
    *c.inner_mut() = -1;
    assert_eq!(c, SlotCapacity::from(-1));
    assert_eq!(SlotCapacity::default(), SlotCapacity::from(0));
}

#[test]
fn decimal_places_wraps_a_u32() {
    let p = DecimalPlaces::from(8);
    assert_eq!(*p.inner(), 8);
    assert_eq!(p, DecimalPlaces::assume_valid(8));
}

#[test]
fn item_amount_arithmetic_and_wire() {
    let mut a = ItemAmount::from(100);
    a = a.add(ItemAmount::from(20));
    a = a.sub(ItemAmount::from(50));
    a.add_assign(ItemAmount::from(5));
    a.sub_assign(ItemAmount::from(25));
    assert_eq!(a, ItemAmount::assume_valid(50));
    *a.inner_mut() *= 2;
    assert_eq!(*a.inner(), 100);
    let wire = a.encode_wire();
    assert_eq!(ItemAmount::decode_wire(&wire), Ok(a));
    let frac = pgwrap::WireDecimal { negative: false, digits: vec![1, 5], scale: 1 };
    assert_eq!(ItemAmount::decode_wire(&frac), Err(NumericU64Error::Decimal));
}
