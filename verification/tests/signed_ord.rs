//! The signed-magnitude accumulator's equality and ordering, checked
//! pairwise against plain integer comparisons over magnitudes zero, one
//! and four of either sign.

use pgwrap::SignedU64;

fn test_data() -> [SignedU64; 6] {
    [
        SignedU64 { total: 0, is_negative: false },
        SignedU64 { total: 0, is_negative: true },
        SignedU64 { total: 1, is_negative: false },
        SignedU64 { total: 1, is_negative: true },
        SignedU64 { total: 4, is_negative: false },
        SignedU64 { total: 4, is_negative: true },
    ]
}

#[test]
fn eq() {
    let [pos_0, neg_0, pos_1, neg_1, pos_4, neg_4] = test_data();

    assert_eq!(pos_0 == pos_0, 0 == 0);
    assert_eq!(pos_0 == neg_0, 0 == -0);
    assert_eq!(pos_0 == pos_1, 0 == 1);
    assert_eq!(pos_0 == neg_1, 0 == -1);
    assert_eq!(pos_0 == pos_4, 0 == 4);
    assert_eq!(pos_0 == neg_4, 0 == -4);

    assert_eq!(neg_0 == pos_0, -0 == 0);
    assert_eq!(neg_0 == neg_0, -0 == -0);
    assert_eq!(neg_0 == pos_1, -0 == 1);
    assert_eq!(neg_0 == neg_1, -0 == -1);
    assert_eq!(neg_0 == pos_4, -0 == 4);
    assert_eq!(neg_0 == neg_4, -0 == -4);

    assert_eq!(pos_1 == pos_0, 1 == 0);
    assert_eq!(pos_1 == neg_0, 1 == -0);
    assert_eq!(pos_1 == pos_1, 1 == 1);
    assert_eq!(pos_1 == neg_1, 1 == -1);
    assert_eq!(pos_1 == pos_4, 1 == 4);
    assert_eq!(pos_1 == neg_4, 1 == -4);

    assert_eq!(neg_1 == pos_0, -1 == 0);
    assert_eq!(neg_1 == neg_0, -1 == -0);
    assert_eq!(neg_1 == pos_1, -1 == 1);
    assert_eq!(neg_1 == neg_1, -1 == -1);
    assert_eq!(neg_1 == pos_4, -1 == 4);
    assert_eq!(neg_1 == neg_4, -1 == -4);

    assert_eq!(pos_4 == pos_0, 4 == 0);
    assert_eq!(pos_4 == neg_0, 4 == -0);
    assert_eq!(pos_4 == pos_1, 4 == 1);
    assert_eq!(pos_4 == neg_1, 4 == -1);
    assert_eq!(pos_4 == pos_4, 4 == 4);
    assert_eq!(pos_4 == neg_4, 4 == -4);

    assert_eq!(neg_4 == pos_0, -4 == 0);
    assert_eq!(neg_4 == neg_0, -4 == -0);
    assert_eq!(neg_4 == pos_1, -4 == 1);
    assert_eq!(neg_4 == neg_1, -4 == -1);
    assert_eq!(neg_4 == pos_4, -4 == 4);
    assert_eq!(neg_4 == neg_4, -4 == -4);
}

#[test]
fn ne() {
    let [pos_0, neg_0, pos_1, neg_1, pos_4, neg_4] = test_data();

    assert_eq!(pos_0 != pos_0, 0 != 0);
    assert_eq!(pos_0 != neg_0, 0 != -0);
    assert_eq!(pos_0 != pos_1, 0 != 1);
    assert_eq!(pos_0 != neg_1, 0 != -1);
    assert_eq!(pos_0 != pos_4, 0 != 4);
    assert_eq!(pos_0 != neg_4, 0 != -4);

    assert_eq!(neg_0 != pos_0, -0 != 0);
    assert_eq!(neg_0 != neg_0, -0 != -0);
    assert_eq!(neg_0 != pos_1, -0 != 1);
    assert_eq!(neg_0 != neg_1, -0 != -1);
    assert_eq!(neg_0 != pos_4, -0 != 4);
    assert_eq!(neg_0 != neg_4, -0 != -4);

    assert_eq!(pos_1 != pos_0, 1 != 0);
    assert_eq!(pos_1 != neg_0, 1 != -0);
    assert_eq!(pos_1 != pos_1, 1 != 1);
    assert_eq!(pos_1 != neg_1, 1 != -1);
    assert_eq!(pos_1 != pos_4, 1 != 4);
    assert_eq!(pos_1 != neg_4, 1 != -4);

    assert_eq!(neg_1 != pos_0, -1 != 0);
    assert_eq!(neg_1 != neg_0, -1 != -0);
    assert_eq!(neg_1 != pos_1, -1 != 1);
    assert_eq!(neg_1 != neg_1, -1 != -1);
    assert_eq!(neg_1 != pos_4, -1 != 4);
    assert_eq!(neg_1 != neg_4, -1 != -4);

    assert_eq!(pos_4 != pos_0, 4 != 0);
    assert_eq!(pos_4 != neg_0, 4 != -0);
    assert_eq!(pos_4 != pos_1, 4 != 1);
    assert_eq!(pos_4 != neg_1, 4 != -1);
    assert_eq!(pos_4 != pos_4, 4 != 4);
    assert_eq!(pos_4 != neg_4, 4 != -4);

    assert_eq!(neg_4 != pos_0, -4 != 0);
    assert_eq!(neg_4 != neg_0, -4 != -0);
    assert_eq!(neg_4 != pos_1, -4 != 1);
    assert_eq!(neg_4 != neg_1, -4 != -1);
    assert_eq!(neg_4 != pos_4, -4 != 4);
    assert_eq!(neg_4 != neg_4, -4 != -4);
}

#[test]
fn gt() {
    let [pos_0, neg_0, pos_1, neg_1, pos_4, neg_4] = test_data();

    assert_eq!(pos_0 > pos_0, 0 > 0);
    assert_eq!(pos_0 > neg_0, 0 > -0);
    assert_eq!(pos_0 > pos_1, 0 > 1);
    assert_eq!(pos_0 > neg_1, 0 > -1);
    assert_eq!(pos_0 > pos_4, 0 > 4);
    assert_eq!(pos_0 > neg_4, 0 > -4);

    assert_eq!(neg_0 > pos_0, -0 > 0);
    assert_eq!(neg_0 > neg_0, -0 > -0);
    assert_eq!(neg_0 > pos_1, -0 > 1);
    assert_eq!(neg_0 > neg_1, -0 > -1);
    assert_eq!(neg_0 > pos_4, -0 > 4);
    assert_eq!(neg_0 > neg_4, -0 > -4);

    assert_eq!(pos_1 > pos_0, 1 > 0);
    assert_eq!(pos_1 > neg_0, 1 > -0);
    assert_eq!(pos_1 > pos_1, 1 > 1);
    assert_eq!(pos_1 > neg_1, 1 > -1);
    assert_eq!(pos_1 > pos_4, 1 > 4);
    assert_eq!(pos_1 > neg_4, 1 > -4);

    assert_eq!(neg_1 > pos_0, -1 > 0);
    assert_eq!(neg_1 > neg_0, -1 > -0);
    assert_eq!(neg_1 > pos_1, -1 > 1);
    assert_eq!(neg_1 > neg_1, -1 > -1);
    assert_eq!(neg_1 > pos_4, -1 > 4);
    assert_eq!(neg_1 > neg_4, -1 > -4);

    assert_eq!(pos_4 > pos_0, 4 > 0);
    assert_eq!(pos_4 > neg_0, 4 > -0);
    assert_eq!(pos_4 > pos_1, 4 > 1);
    assert_eq!(pos_4 > neg_1, 4 > -1);
    assert_eq!(pos_4 > pos_4, 4 > 4);
    assert_eq!(pos_4 > neg_4, 4 > -4);

    assert_eq!(neg_4 > pos_0, -4 > 0);
    assert_eq!(neg_4 > neg_0, -4 > -0);
    assert_eq!(neg_4 > pos_1, -4 > 1);
    assert_eq!(neg_4 > neg_1, -4 > -1);
    assert_eq!(neg_4 > pos_4, -4 > 4);
    assert_eq!(neg_4 > neg_4, -4 > -4);
}

#[test]
fn lt() {
    let [pos_0, neg_0, pos_1, neg_1, pos_4, neg_4] = test_data();

    assert_eq!(pos_0 < pos_0, 0 < 0);
    assert_eq!(pos_0 < neg_0, 0 < -0);
    assert_eq!(pos_0 < pos_1, 0 < 1);
    assert_eq!(pos_0 < neg_1, 0 < -1);
    assert_eq!(pos_0 < pos_4, 0 < 4);
    assert_eq!(pos_0 < neg_4, 0 < -4);

    assert_eq!(neg_0 < pos_0, -0 < 0);
    assert_eq!(neg_0 < neg_0, -0 < -0);
    assert_eq!(neg_0 < pos_1, -0 < 1);
    assert_eq!(neg_0 < neg_1, -0 < -1);
    assert_eq!(neg_0 < pos_4, -0 < 4);
    assert_eq!(neg_0 < neg_4, -0 < -4);

    assert_eq!(pos_1 < pos_0, 1 < 0);
    assert_eq!(pos_1 < neg_0, 1 < -0);
    assert_eq!(pos_1 < pos_1, 1 < 1);
    assert_eq!(pos_1 < neg_1, 1 < -1);
    assert_eq!(pos_1 < pos_4, 1 < 4);
    assert_eq!(pos_1 < neg_4, 1 < -4);

    assert_eq!(neg_1 < pos_0, -1 < 0);
    assert_eq!(neg_1 < neg_0, -1 < -0);
    assert_eq!(neg_1 < pos_1, -1 < 1);
    assert_eq!(neg_1 < neg_1, -1 < -1);
    assert_eq!(neg_1 < pos_4, -1 < 4);
    assert_eq!(neg_1 < neg_4, -1 < -4);

    assert_eq!(pos_4 < pos_0, 4 < 0);
    assert_eq!(pos_4 < neg_0, 4 < -0);
    assert_eq!(pos_4 < pos_1, 4 < 1);
    assert_eq!(pos_4 < neg_1, 4 < -1);
    assert_eq!(pos_4 < pos_4, 4 < 4);
    assert_eq!(pos_4 < neg_4, 4 < -4);

    assert_eq!(neg_4 < pos_0, -4 < 0);
    assert_eq!(neg_4 < neg_0, -4 < -0);
    assert_eq!(neg_4 < pos_1, -4 < 1);
    assert_eq!(neg_4 < neg_1, -4 < -1);
    assert_eq!(neg_4 < pos_4, -4 < 4);
    assert_eq!(neg_4 < neg_4, -4 < -4);
}

#[test]
fn ge() {
    let [pos_0, neg_0, pos_1, neg_1, pos_4, neg_4] = test_data();

    assert_eq!(pos_0 >= pos_0, 0 >= 0);
    assert_eq!(pos_0 >= neg_0, 0 >= -0);
    assert_eq!(pos_0 >= pos_1, 0 >= 1);
    assert_eq!(pos_0 >= neg_1, 0 >= -1);
    assert_eq!(pos_0 >= pos_4, 0 >= 4);
    assert_eq!(pos_0 >= neg_4, 0 >= -4);

    assert_eq!(neg_0 >= pos_0, -0 >= 0);
    assert_eq!(neg_0 >= neg_0, -0 >= -0);
    assert_eq!(neg_0 >= pos_1, -0 >= 1);
    assert_eq!(neg_0 >= neg_1, -0 >= -1);
    assert_eq!(neg_0 >= pos_4, -0 >= 4);
    assert_eq!(neg_0 >= neg_4, -0 >= -4);

    assert_eq!(pos_1 >= pos_0, 1 >= 0);
    assert_eq!(pos_1 >= neg_0, 1 >= -0);
    assert_eq!(pos_1 >= pos_1, 1 >= 1);
    assert_eq!(pos_1 >= neg_1, 1 >= -1);
    assert_eq!(pos_1 >= pos_4, 1 >= 4);
    assert_eq!(pos_1 >= neg_4, 1 >= -4);

    assert_eq!(neg_1 >= pos_0, -1 >= 0);
    assert_eq!(neg_1 >= neg_0, -1 >= -0);
    assert_eq!(neg_1 >= pos_1, -1 >= 1);
    assert_eq!(neg_1 >= neg_1, -1 >= -1);
    assert_eq!(neg_1 >= pos_4, -1 >= 4);
    assert_eq!(neg_1 >= neg_4, -1 >= -4);

    assert_eq!(pos_4 >= pos_0, 4 >= 0);
    assert_eq!(pos_4 >= neg_0, 4 >= -0);
    assert_eq!(pos_4 >= pos_1, 4 >= 1);
    assert_eq!(pos_4 >= neg_1, 4 >= -1);
    assert_eq!(pos_4 >= pos_4, 4 >= 4);
    assert_eq!(pos_4 >= neg_4, 4 >= -4);

    assert_eq!(neg_4 >= pos_0, -4 >= 0);
    assert_eq!(neg_4 >= neg_0, -4 >= -0);
    assert_eq!(neg_4 >= pos_1, -4 >= 1);
    assert_eq!(neg_4 >= neg_1, -4 >= -1);
    assert_eq!(neg_4 >= pos_4, -4 >= 4);
    assert_eq!(neg_4 >= neg_4, -4 >= -4);
}

#[test]
fn le() {
    let [pos_0, neg_0, pos_1, neg_1, pos_4, neg_4] = test_data();

    assert_eq!(pos_0 <= pos_0, 0 <= 0);
    assert_eq!(pos_0 <= neg_0, 0 <= -0);
    assert_eq!(pos_0 <= pos_1, 0 <= 1);
    assert_eq!(pos_0 <= neg_1, 0 <= -1);
    assert_eq!(pos_0 <= pos_4, 0 <= 4);
    assert_eq!(pos_0 <= neg_4, 0 <= -4);

    assert_eq!(neg_0 <= pos_0, -0 <= 0);
    assert_eq!(neg_0 <= neg_0, -0 <= -0);
    assert_eq!(neg_0 <= pos_1, -0 <= 1);
    assert_eq!(neg_0 <= neg_1, -0 <= -1);
    assert_eq!(neg_0 <= pos_4, -0 <= 4);
    assert_eq!(neg_0 <= neg_4, -0 <= -4);

    assert_eq!(pos_1 <= pos_0, 1 <= 0);
    assert_eq!(pos_1 <= neg_0, 1 <= -0);
    assert_eq!(pos_1 <= pos_1, 1 <= 1);
    assert_eq!(pos_1 <= neg_1, 1 <= -1);
    assert_eq!(pos_1 <= pos_4, 1 <= 4);
    assert_eq!(pos_1 <= neg_4, 1 <= -4);

    assert_eq!(neg_1 <= pos_0, -1 <= 0);
    assert_eq!(neg_1 <= neg_0, -1 <= -0);
    assert_eq!(neg_1 <= pos_1, -1 <= 1);
    assert_eq!(neg_1 <= neg_1, -1 <= -1);
    assert_eq!(neg_1 <= pos_4, -1 <= 4);
    assert_eq!(neg_1 <= neg_4, -1 <= -4);

    assert_eq!(pos_4 <= pos_0, 4 <= 0);
    assert_eq!(pos_4 <= neg_0, 4 <= -0);
    assert_eq!(pos_4 <= pos_1, 4 <= 1);
    assert_eq!(pos_4 <= neg_1, 4 <= -1);
    assert_eq!(pos_4 <= pos_4, 4 <= 4);
    assert_eq!(pos_4 <= neg_4, 4 <= -4);

    assert_eq!(neg_4 <= pos_0, -4 <= 0);
    assert_eq!(neg_4 <= neg_0, -4 <= -0);
    assert_eq!(neg_4 <= pos_1, -4 <= 1);
    assert_eq!(neg_4 <= neg_1, -4 <= -1);
    assert_eq!(neg_4 <= pos_4, -4 <= 4);
    assert_eq!(neg_4 <= neg_4, -4 <= -4);
}
