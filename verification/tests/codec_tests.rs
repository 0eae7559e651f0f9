//! The unsigned-over-signed codecs: round trips, validation order, and
//! the decimal wire model's edge cases.

use pgwrap::codec::PgU32;
use pgwrap::codec::PgU64;
use pgwrap::error::NumericU32Error;
use pgwrap::error::NumericU64Error;
use pgwrap::WireDecimal;

fn dec(negative: bool, digits: Vec<u8>, scale: i64) -> WireDecimal {
    WireDecimal { negative, digits, scale }
}

#[test]
fn pgu32_round_trip() {
    for v in [0u32, 1, 41, u32::MAX - 1, u32::MAX] {
        let encoded = PgU32::assume_valid(v).encode_wire();
        assert_eq!(PgU32::decode_wire(encoded), Ok(PgU32::from(v)));
    }
}

#[test]
fn pgu32_overflow() {
    assert_eq!(
        PgU32::decode_wire(u32::MAX as i64 + 1),
        Err(NumericU32Error::Overflow)
    );
    assert_eq!(PgU32::decode_wire(i64::MAX), Err(NumericU32Error::Overflow));
}

#[test]
fn pgu32_negative() {
    assert_eq!(PgU32::decode_wire(-1), Err(NumericU32Error::Negative));
    assert_eq!(PgU32::decode_wire(i64::MIN), Err(NumericU32Error::Negative));
}

#[test]
fn pgu32_boundary_values() {
    assert_eq!(PgU32::decode_wire(0), Ok(PgU32::assume_valid(0)));
    assert_eq!(
        PgU32::decode_wire(u32::MAX as i64),
        Ok(PgU32::assume_valid(u32::MAX))
    );
    assert_eq!(*PgU32::assume_valid(7).inner(), 7);
    assert_eq!(u32::from(PgU32::from(9)), 9);
}

#[test]
fn pgu64_decodes_two_to_the_sixty_four_as_overflow() {
    // 18446744073709551616 is one past u64::MAX.
    let wire = dec(
        false,
        vec![1, 8, 4, 4, 6, 7, 4, 4, 0, 7, 3, 7, 0, 9, 5, 5, 1, 6, 1, 6],
        0,
    );
    assert_eq!(PgU64::decode_wire(&wire), Err(NumericU64Error::Overflow));
}

#[test]
fn pgu64_decodes_minus_five_as_negative() {
    let wire = dec(true, vec![5], 0);
    assert_eq!(PgU64::decode_wire(&wire), Err(NumericU64Error::Negative));
}

#[test]
fn pgu64_decodes_three_point_five_as_decimal() {
    let wire = dec(false, vec![3, 5], 1);
    assert_eq!(PgU64::decode_wire(&wire), Err(NumericU64Error::Decimal));
}

#[test]
fn pgu64_decodes_forty_two() {
    let wire = dec(false, vec![4, 2], 0);
    assert_eq!(PgU64::decode_wire(&wire), Ok(PgU64::assume_valid(42)));
}

#[test]
fn pgu64_round_trip() {
    for v in [0u64, 1, 42, u32::MAX as u64 + 1, u64::MAX - 1, u64::MAX] {
        let encoded = PgU64::assume_valid(v).encode_wire();
        assert_eq!(PgU64::decode_wire(&encoded), Ok(PgU64::from(v)));
    }
}

#[test]
fn pgu64_negative_scale_multiplies_out() {
    // Digits 4, 2 at scale -2 denote 4200.
    let wire = dec(false, vec![4, 2], -2);
    assert_eq!(PgU64::decode_wire(&wire), Ok(PgU64::assume_valid(4200)));
}

#[test]
fn pgu64_trailing_zero_fraction_is_integral() {
    // 42.00 carries no fractional information.
    let wire = dec(false, vec![4, 2, 0, 0], 2);
    assert_eq!(PgU64::decode_wire(&wire), Ok(PgU64::assume_valid(42)));
}

#[test]
fn pgu64_pure_fraction_is_decimal() {
    // 0.5: the single digit sits entirely behind the point.
    let wire = dec(false, vec![5], 1);
    assert_eq!(PgU64::decode_wire(&wire), Err(NumericU64Error::Decimal));
}

#[test]
fn pgu64_negative_fraction_reports_negative_first() {
    // -3.5 is rejected for its sign, not its fraction.
    let wire = dec(true, vec![3, 5], 1);
    assert_eq!(PgU64::decode_wire(&wire), Err(NumericU64Error::Negative));
}

#[test]
fn pgu64_just_above_max_is_overflow() {
    // u64::MAX + 0.5 lies strictly above the representable range.
    let mut digits = vec![1, 8, 4, 4, 6, 7, 4, 4, 0, 7, 3, 7, 0, 9, 5, 5, 1, 6, 1, 5];
    digits.push(5);
    let wire = dec(false, digits, 1);
    assert_eq!(PgU64::decode_wire(&wire), Err(NumericU64Error::Overflow));
}

#[test]
fn pgu64_huge_negative_scale_is_overflow() {
    // A single non-zero digit shifted twenty places left exceeds u64::MAX.
    let wire = dec(false, vec![1], -20);
    assert_eq!(PgU64::decode_wire(&wire), Err(NumericU64Error::Overflow));
}

#[test]
fn pgu64_zero_with_negative_sign_decodes_to_zero() {
    // "-0" denotes zero; the sign flag carries nothing.
    let wire = dec(true, vec![0], 0);
    assert_eq!(PgU64::decode_wire(&wire), Ok(PgU64::assume_valid(0)));
}

#[test]
fn pgu64_empty_digits_decode_to_zero() {
    let wire = dec(false, vec![], 0);
    assert_eq!(PgU64::decode_wire(&wire), Ok(PgU64::assume_valid(0)));
    let shifted = dec(false, vec![], 7);
    assert_eq!(PgU64::decode_wire(&shifted), Ok(PgU64::assume_valid(0)));
}

#[test]
fn pgu64_unknown_is_never_reported() {
    // The checks are exhaustive: even awkward inputs resolve to one of the
    // three real reasons.
    let awkward = [
        dec(true, vec![1, 8, 4, 4, 6, 7, 4, 4, 0, 7, 3, 7, 0, 9, 5, 5, 1, 6, 1, 6], 0),
        dec(true, vec![9; 40], 3),
        dec(false, vec![9; 40], -3),
        dec(true, vec![], -50),
        dec(false, vec![0; 30], 29),
    ];
    for wire in awkward {
        assert_ne!(PgU64::decode_wire(&wire), Err(NumericU64Error::Unknown));
    }
}
