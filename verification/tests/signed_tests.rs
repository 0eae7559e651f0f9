//! The signed-magnitude accumulator: arithmetic, the zero invariant, and
//! its wire codec.

use pgwrap::error::NumericU64Error;
use pgwrap::SignedU64;
use pgwrap::WireDecimal;

fn s(total: u64, is_negative: bool) -> SignedU64 {
    SignedU64 { total, is_negative }
}

#[test]
fn opposed_equal_magnitudes_cancel() {
    let sum = s(5, true).add(s(5, false));
    assert_eq!(sum.total, 0);
    // Either sign of zero is the same value.
    assert_eq!(sum, s(0, false));
    assert_eq!(sum, s(0, true));
}

#[test]
fn signed_zero_collapses() {
    assert_eq!(s(0, true), s(0, false));
    assert!(s(0, true) < s(1, false));
    assert!(s(0, false) < s(1, false));
    assert!(s(0, true) > s(1, true));
    assert!(s(0, false) > s(1, true));
}

#[test]
fn addition_matching_signs() {
    assert_eq!(s(3, false).add(s(4, false)), s(7, false));
    assert_eq!(s(3, true).add(s(4, true)), s(7, true));
}

#[test]
fn addition_opposed_signs_takes_larger_sign() {
    assert_eq!(s(7, false).add(s(4, true)), s(3, false));
    assert_eq!(s(4, false).add(s(7, true)), s(3, true));
    assert_eq!(s(7, true).add(s(4, false)), s(3, true));
}

#[test]
fn add_assign_accumulates() {
    let mut acc = SignedU64::zero();
    acc.add_assign(s(10, false));
    acc.add_assign(s(25, true));
    assert_eq!(acc, s(15, true));
    acc.sub_assign(s(5, true));
    assert_eq!(acc, s(10, true));
}

#[test]
fn subtraction_is_addition_of_negation() {
    let pairs = [
        (s(9, false), s(4, false)),
        (s(4, false), s(9, false)),
        (s(9, true), s(4, false)),
        (s(4, true), s(9, true)),
        (s(0, true), s(3, false)),
    ];
    for (a, b) in pairs {
        assert_eq!(a.sub(b), a.add(b.neg()));
    }
}

#[test]
fn negation_flips_sign_and_keeps_magnitude() {
    let a = s(6, false);
    let n = a.neg();
    assert_eq!(n.total, 6);
    assert!(n.is_negative);
    // Twice restores both fields exactly.
    let back = n.neg();
    assert_eq!(back.total, a.total);
    assert_eq!(back.is_negative, a.is_negative);
}

#[test]
fn adding_own_negation_cancels() {
    for a in [s(0, false), s(0, true), s(1, false), s(99, true), s(u64::MAX, false)] {
        let sum = a.add(a.neg());
        assert_eq!(sum.total, 0);
        assert!(sum.is_zero());
    }
}

#[test]
fn multiplication_multiplies_magnitudes_and_xors_signs() {
    assert_eq!(s(6, false).mul(s(7, false)), s(42, false));
    assert_eq!(s(6, true).mul(s(7, false)), s(42, true));
    assert_eq!(s(6, false).mul(s(7, true)), s(42, true));
    assert_eq!(s(6, true).mul(s(7, true)), s(42, false));
    assert_eq!(s(0, true).mul(s(7, false)), s(0, false));
}

#[test]
fn scalar_multiplication_keeps_sign() {
    assert_eq!(s(6, true).mul_u64(7), s(42, true));
    assert_eq!(s(6, false).mul_u64(0), s(0, false));
}

#[test]
fn zero_and_is_zero() {
    assert_eq!(SignedU64::zero(), s(0, false));
    assert!(SignedU64::zero().is_zero());
    assert!(s(0, true).is_zero());
    assert!(!s(2, true).is_zero());
    assert!(SignedU64::default().is_zero());
}

#[test]
fn ordering_is_total_over_denoted_values() {
    // -4 < -1 < 0 < 1 < 4, with either zero in the middle.
    let ordered = [s(4, true), s(1, true), s(0, false), s(1, false), s(4, false)];
    for i in 0..ordered.len() {
        for j in 0..ordered.len() {
            assert_eq!(ordered[i] < ordered[j], i < j);
            assert_eq!(ordered[i] == ordered[j], i == j);
        }
    }
    assert!(s(4, true) < s(2, true));
    assert!(s(2, false) < s(4, false));
}

#[test]
fn from_u64_is_positive() {
    let a = SignedU64::from(17u64);
    assert_eq!(a, s(17, false));
    assert!(!a.is_negative);
}

#[test]
fn wire_round_trip_keeps_value() {
    for a in [s(0, false), s(0, true), s(1, false), s(7, true), s(u64::MAX, true)] {
        let decoded = SignedU64::decode_wire(&a.encode_wire()).unwrap();
        assert_eq!(decoded, a);
    }
}

#[test]
fn wire_decode_validates() {
    // Magnitude one past u64::MAX overflows whatever the sign.
    let big = WireDecimal {
        negative: true,
        digits: vec![1, 8, 4, 4, 6, 7, 4, 4, 0, 7, 3, 7, 0, 9, 5, 5, 1, 6, 1, 6],
        scale: 0,
    };
    assert_eq!(SignedU64::decode_wire(&big), Err(NumericU64Error::Overflow));
    // A fractional value is rejected as Decimal, for either sign.
    let frac = WireDecimal { negative: true, digits: vec![3, 5], scale: 1 };
    assert_eq!(SignedU64::decode_wire(&frac), Err(NumericU64Error::Decimal));
    // A negative integral value decodes with its sign captured.
    let neg = WireDecimal { negative: true, digits: vec![4, 2], scale: 0 };
    assert_eq!(SignedU64::decode_wire(&neg), Ok(s(42, true)));
    assert_ne!(SignedU64::decode_wire(&big), Err(NumericU64Error::Unknown));
}
