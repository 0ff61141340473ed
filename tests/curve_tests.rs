use gamma::curve::{dynamic_fee_rate, swap_base_input, swap_base_output, FEE_RATE_DENOMINATOR_VALUE};
use gamma::fees::{partner_fee, referral_amount};
use gamma::error::GammaError;

#[test]
fn base_input_charges_fee_and_keeps_constant() {
    // 25 of 10,000 is 2,500 of 1,000,000.
    let r = swap_base_input(10_000, 1_000_000, 1_000_000, 2_500, 0, 0).unwrap();
    assert_eq!(r.dynamic_fee, 25);
    assert_eq!(r.protocol_fee, 0);
    assert_eq!(r.fund_fee, 0);
    assert_eq!(r.source_amount_swapped, 10_000);
    assert_eq!(r.destination_amount_swapped, 9_876);
    assert!(r.destination_amount_swapped < 10_000);
    assert_eq!(r.new_swap_source_amount, 1_010_000);
    assert_eq!(r.new_swap_destination_amount, 990_124);
    let after = (r.new_swap_source_amount - r.dynamic_fee) * r.new_swap_destination_amount;
    assert!(after >= 1_000_000u128 * 1_000_000u128);
}

#[test]
fn base_input_splits_fee() {
    let r = swap_base_input(10_000, 1_000_000, 1_000_000, 2_500, 120_000, 40_000).unwrap();
    assert_eq!(r.dynamic_fee, 25);
    assert_eq!(r.protocol_fee, 3);
    assert_eq!(r.fund_fee, 1);
    assert!(r.protocol_fee + r.fund_fee <= r.dynamic_fee);
}

#[test]
fn base_input_on_empty_pool_fails() {
    assert!(swap_base_input(0, 0, 1_000, 2_500, 0, 0).is_none());
}

#[test]
fn base_input_overflow_fails() {
    assert!(swap_base_input(u128::MAX, 1, 1, 2_500, 0, 0).is_none());
}

#[test]
fn base_output_exact_amounts() {
    let r = swap_base_output(10_000, 1_000_000, 1_000_000, 2_500, 120_000, 40_000).unwrap();
    assert_eq!(r.destination_amount_swapped, 10_000);
    assert_eq!(r.source_amount_swapped, 10_128);
    assert_eq!(r.dynamic_fee, 26);
    assert_eq!(r.protocol_fee, 3);
    assert_eq!(r.fund_fee, 1);
    assert_eq!(r.new_swap_source_amount, 1_010_128);
    assert_eq!(r.new_swap_destination_amount, 990_000);
    let after = (r.new_swap_source_amount - r.dynamic_fee) * r.new_swap_destination_amount;
    assert_eq!(after, 1_000_000_980_000);
}

#[test]
fn base_output_beyond_reserve_fails() {
    assert!(swap_base_output(1_000_000, 1_000_000, 1_000_000, 2_500, 0, 0).is_none());
    assert!(swap_base_output(2_000_000, 1_000_000, 1_000_000, 2_500, 0, 0).is_none());
}

#[test]
fn base_output_of_nothing_fails() {
    assert!(swap_base_output(0, 1_000_000, 1_000_000, 2_500, 0, 0).is_none());
}

#[test]
fn round_trip_costs_at_most_the_input() {
    let fwd = swap_base_input(10_000, 1_000_000, 1_000_000, 2_500, 0, 0).unwrap();
    let back = swap_base_output(fwd.destination_amount_swapped, 1_000_000, 1_000_000, 2_500, 0, 0)
        .unwrap();
    assert_eq!(back.destination_amount_swapped, fwd.destination_amount_swapped);
    assert!(back.source_amount_swapped <= 10_000);
    assert_eq!(back.source_amount_swapped, 10_000);
}

#[test]
fn zero_fee_rate_charges_nothing() {
    let r = swap_base_output(10_000, 1_000_000, 1_000_000, 0, 0, 0).unwrap();
    assert_eq!(r.dynamic_fee, 0);
    assert_eq!(r.source_amount_swapped, 10_102);
}

#[test]
fn fee_rate_is_the_base_rate() {
    assert_eq!(dynamic_fee_rate(2_500, false), 2_500);
    assert_eq!(dynamic_fee_rate(2_500, true), 2_500);
    assert!(dynamic_fee_rate(FEE_RATE_DENOMINATOR_VALUE - 1, true) < FEE_RATE_DENOMINATOR_VALUE);
}

#[test]
fn referral_amount_is_share_of_retained_fee() {
    assert_eq!(referral_amount(26, 3, 1, 5_000), Ok(11));
    assert_eq!(referral_amount(3, 3, 1, 5_000), Ok(0));
    assert_eq!(referral_amount(u64::MAX, 0, 0, 2), Err(GammaError::MathOverflow));
}

#[test]
fn partner_fee_by_liquidity_share() {
    assert_eq!(partner_fee(26, 250, 1_000), Ok(6));
    assert_eq!(partner_fee(26, 250, 0), Err(GammaError::MathOverflow));
    assert_eq!(partner_fee(26, u64::MAX, 1_000), Err(GammaError::MathOverflow));
}
