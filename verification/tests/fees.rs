use flash_loan::fees::{compute_fee, FEE_DENOMINATOR};

#[test]
fn fee_of_one_tenth_percent() {
    assert_eq!(compute_fee(100_000, 1000), Some(100));
}

#[test]
fn fee_is_rounded_down() {
    assert_eq!(compute_fee(999, 1000), Some(0));
    assert_eq!(compute_fee(1_999, 1000), Some(1));
    assert_eq!(compute_fee(1_000_001, 999_999), Some(999_999));
}

#[test]
fn fee_at_rate_zero_and_on_amount_zero() {
    assert_eq!(compute_fee(u128::MAX, 0), Some(0));
    assert_eq!(compute_fee(0, u128::MAX), Some(0));
}

#[test]
fn fee_at_full_rate_is_the_amount() {
    assert_eq!(compute_fee(u128::MAX, FEE_DENOMINATOR), Some(u128::MAX));
    assert_eq!(compute_fee(12_345, FEE_DENOMINATOR), Some(12_345));
}

#[test]
fn fee_is_exact_where_the_product_exceeds_128_bits() {
    // u128::MAX * 500_000 does not fit in 128 bits; half of u128::MAX does.
    assert_eq!(compute_fee(u128::MAX, 500_000), Some(u128::MAX / 2));
    assert_eq!(
        compute_fee(u128::MAX - 7, 250_000),
        Some((u128::MAX - 7) / 4)
    );
}

#[test]
fn fee_that_exceeds_a_balance_is_none() {
    assert_eq!(compute_fee(u128::MAX, 1_000_001), None);
    assert_eq!(compute_fee(u128::MAX, u128::MAX), None);
    assert_eq!(compute_fee(u128::MAX / 2 + 1, 2_000_000), None);
    assert_eq!(compute_fee(u128::MAX / 2, 2_000_000), Some(u128::MAX - 1));
}
