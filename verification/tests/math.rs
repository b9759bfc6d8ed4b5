use sunrise_core::math::{
    checked_proportional_wide, checked_proportional_with_rounding, proportional,
    proportional_with_rounding, RoundingMode,
};

#[test]
fn proportional_rounds_down() {
    assert_eq!(proportional(100, 1, 1), 100);
    assert_eq!(proportional(100, 1, 2), 50);
    assert_eq!(proportional(100, 2, 1), 200);
    assert_eq!(proportional(100, 2, 2), 100);
    assert_eq!(proportional(100, 0, 1), 0);
    assert_eq!(proportional(7, 1, 2), 3);
    assert_eq!(proportional(10, 1, 3), 3);
}

#[test]
fn zero_denominator_is_identity() {
    assert_eq!(proportional(100, 1, 0), 100);
    assert_eq!(proportional(100, 0, 0), 100);
    assert_eq!(proportional_with_rounding(100, 7, 0, RoundingMode::Up), 100);
    assert_eq!(proportional_with_rounding(u64::MAX, u64::MAX, 0, RoundingMode::Down), u64::MAX);
}

#[test]
fn rounding_up_adds_one_unless_exact() {
    assert_eq!(proportional_with_rounding(7, 1, 2, RoundingMode::Up), 4);
    assert_eq!(proportional_with_rounding(7, 1, 2, RoundingMode::Down), 3);
    assert_eq!(proportional_with_rounding(8, 1, 2, RoundingMode::Up), 4);
    assert_eq!(proportional_with_rounding(8, 1, 2, RoundingMode::Down), 4);
    assert_eq!(proportional_with_rounding(10, 1, 3, RoundingMode::Up), 4);
    assert_eq!(proportional_with_rounding(0, 5, 3, RoundingMode::Up), 0);
}

#[test]
fn down_is_at_most_up() {
    let samples: [(u64, u64, u64); 5] =
        [(1, 1, 1), (5, 3, 7), (1000, 999, 1000), (u64::MAX, 1, 3), (u64::MAX, u64::MAX, u64::MAX)];
    for (a, n, d) in samples {
        let down = checked_proportional_with_rounding(a, n, d, RoundingMode::Down).unwrap();
        let up = checked_proportional_with_rounding(a, n, d, RoundingMode::Up).unwrap();
        assert!(down <= up);
        assert!(up - down <= 1);
    }
}

#[test]
fn wide_products_do_not_overflow() {
    assert_eq!(proportional(u64::MAX, u64::MAX, u64::MAX), u64::MAX);
    assert_eq!(
        proportional_with_rounding(u64::MAX, u64::MAX, u64::MAX, RoundingMode::Up),
        u64::MAX
    );
    assert_eq!(proportional(u64::MAX, 2, 4), u64::MAX / 2);
}

#[test]
fn share_that_does_not_fit_is_none() {
    assert_eq!(checked_proportional_with_rounding(u64::MAX, 2, 1, RoundingMode::Down), None);
    assert_eq!(checked_proportional_with_rounding(u64::MAX, u64::MAX, 1, RoundingMode::Up), None);
    assert_eq!(
        checked_proportional_with_rounding(u64::MAX, 1, 1, RoundingMode::Down),
        Some(u64::MAX)
    );
    assert_eq!(
        checked_proportional_with_rounding(1u64 << 63, 2, 1, RoundingMode::Down),
        None
    );
    assert_eq!(
        checked_proportional_with_rounding((1u64 << 32) + 5, 1u64 << 32, 1u64 << 33, RoundingMode::Up),
        Some((1u64 << 31) + 3)
    );
}

#[test]
fn wide_share_that_cannot_be_computed() {
    assert_eq!(checked_proportional_wide(7, 3, 2), Some(10));
    assert_eq!(checked_proportional_wide(7, 3, 0), Some(7));
    assert_eq!(checked_proportional_wide(i128::MAX, 1, 1), Some(i128::MAX));
    assert_eq!(checked_proportional_wide(i128::MAX, 2, 4), None);
    assert_eq!(checked_proportional_wide(-1, 3, 2), None);
    assert_eq!(checked_proportional_wide(7, -3, 2), None);
    assert_eq!(checked_proportional_wide(7, 3, -2), None);
}
