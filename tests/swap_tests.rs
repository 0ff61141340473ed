use gamma::curve::TradeDirection;
use gamma::error::GammaError;
use gamma::key::Pubkey;
use gamma::oracle::ObservationState;
use gamma::pool::{create_amm_config, AmmConfig, PartnerInfo, PoolState};
use gamma::swap::{quote_swap_base_output, settle_base_output, swap_base_output, ReferralTerms};

fn key(n: u64) -> Pubkey {
    Pubkey { w0: n, w1: 0, w2: 0, w3: 0 }
}

fn pool(reserve_0: u64, reserve_1: u64) -> PoolState {
    PoolState {
        token_0_vault: key(1),
        token_1_vault: key(2),
        status: 0,
        open_time: 0,
        lp_supply: 1_000,
        token_0_vault_amount: reserve_0,
        token_1_vault_amount: reserve_1,
        protocol_fees_token_0: 0,
        protocol_fees_token_1: 0,
        fund_fees_token_0: 0,
        fund_fees_token_1: 0,
        cumulative_trade_fees_token_0: 0,
        cumulative_trade_fees_token_1: 0,
        cumulative_volume_token_0: 0,
        cumulative_volume_token_1: 0,
        latest_dynamic_fee_rate: 0,
        partners: Vec::new(),
    }
}

fn config() -> AmmConfig {
    create_amm_config(0, 2_500, 120_000, 40_000, 0, 0)
}

fn same_counters(a: &PoolState, b: &PoolState) -> bool {
    a.token_0_vault_amount == b.token_0_vault_amount
        && a.token_1_vault_amount == b.token_1_vault_amount
        && a.protocol_fees_token_0 == b.protocol_fees_token_0
        && a.protocol_fees_token_1 == b.protocol_fees_token_1
        && a.fund_fees_token_0 == b.fund_fees_token_0
        && a.fund_fees_token_1 == b.fund_fees_token_1
        && a.cumulative_trade_fees_token_0 == b.cumulative_trade_fees_token_0
        && a.cumulative_trade_fees_token_1 == b.cumulative_trade_fees_token_1
        && a.cumulative_volume_token_0 == b.cumulative_volume_token_0
        && a.cumulative_volume_token_1 == b.cumulative_volume_token_1
        && a.latest_dynamic_fee_rate == b.latest_dynamic_fee_rate
        && a.partners == b.partners
}

#[test]
fn config_keeps_rates() {
    let c = config();
    assert_eq!(c.trade_fee_rate, 2_500);
    assert_eq!(c.protocol_fee_rate, 120_000);
    assert_eq!(c.fund_fee_rate, 40_000);
    assert_eq!(c.referral_project, Pubkey::zero());
}

#[test]
fn token_prices_in_q32() {
    let p = pool(2_000_000, 1_000_000);
    assert_eq!(p.token_price_x32(), Ok((2_147_483_648, 8_589_934_592)));
    assert_eq!(pool(0, 5).token_price_x32(), Err(GammaError::MathOverflow));
}

#[test]
fn direction_from_vaults() {
    let p = pool(1, 1);
    assert_eq!(p.direction(key(1), key(2)), Some(TradeDirection::ZeroForOne));
    assert_eq!(p.direction(key(2), key(1)), Some(TradeDirection::OneForZero));
    assert_eq!(p.direction(key(1), key(1)), None);
}

#[test]
fn base_output_swap_updates_pool_and_oracle() {
    let mut p = pool(1_000_000, 1_000_000);
    let mut o = ObservationState::default();
    let ev = swap_base_output(&mut p, &mut o, &config(), key(1), key(2), 50, 20_000, 10_000, false, 0, 0, None)
        .unwrap();
    assert_eq!(ev.input_amount, 10_128);
    assert_eq!(ev.output_amount, 10_000);
    assert_eq!(ev.dynamic_fee, 26);
    assert_eq!(ev.input_transfer_amount, 10_128);
    assert_eq!(ev.output_transfer_amount, 10_000);
    assert_eq!(ev.input_vault_before, 1_000_000);
    assert_eq!(ev.output_vault_before, 1_000_000);
    assert_eq!(ev.referral_amount, 0);
    assert!(!ev.base_input);
    assert_eq!(p.token_0_vault_amount, 1_010_124);
    assert_eq!(p.token_1_vault_amount, 990_000);
    assert_eq!(p.protocol_fees_token_0, 3);
    assert_eq!(p.fund_fees_token_0, 1);
    assert_eq!(p.cumulative_trade_fees_token_0, 26);
    assert_eq!(p.cumulative_volume_token_0, 10_128);
    assert_eq!(p.protocol_fees_token_1, 0);
    assert_eq!(p.latest_dynamic_fee_rate, 2_500);
    assert!((p.token_0_vault_amount as u128) * (p.token_1_vault_amount as u128) >= 1_000_000_000_000);
    assert!(o.initialized);
    assert_eq!(o.observations[0].block_timestamp, 50);
}

#[test]
fn base_output_swap_other_direction_with_transfer_fees() {
    let mut p = pool(1_000_000, 1_000_000);
    let mut o = ObservationState::default();
    let ev = swap_base_output(&mut p, &mut o, &config(), key(2), key(1), 50, 20_000, 9_990, false, 10, 7, None)
        .unwrap();
    assert_eq!(ev.output_transfer_amount, 10_000);
    assert_eq!(ev.output_transfer_fee, 10);
    assert_eq!(ev.input_transfer_fee, 7);
    assert_eq!(ev.input_transfer_amount, 10_135);
    assert_eq!(p.token_1_vault_amount, 1_010_124);
    assert_eq!(p.token_0_vault_amount, 990_000);
    assert_eq!(p.protocol_fees_token_1, 3);
    assert_eq!(p.cumulative_volume_token_1, 10_128);
}

#[test]
fn referral_is_carved_out_of_retained_fee() {
    let mut p = pool(1_000_000, 1_000_000);
    let mut o = ObservationState::default();
    let terms = ReferralTerms { share_bps: 5_000, transfer_fee: 0 };
    let ev = swap_base_output(&mut p, &mut o, &config(), key(1), key(2), 50, 20_000, 10_000, false, 0, 0, Some(terms))
        .unwrap();
    assert_eq!(ev.referral_amount, 11);
    assert_eq!(ev.input_transfer_amount, 10_117);
    assert_eq!(ev.dynamic_fee, 26);
    assert_eq!(p.cumulative_trade_fees_token_0, 15);
    assert_eq!(p.cumulative_volume_token_0, 10_117);
    assert_eq!(p.token_0_vault_amount, 1_010_113);
    assert_eq!(p.protocol_fees_token_0, 3);
    assert_eq!(p.fund_fees_token_0, 1);
}

#[test]
fn referral_eaten_by_transfer_fee_is_skipped() {
    let mut p = pool(1_000_000, 1_000_000);
    let mut o = ObservationState::default();
    let terms = ReferralTerms { share_bps: 5_000, transfer_fee: 11 };
    let ev = swap_base_output(&mut p, &mut o, &config(), key(1), key(2), 50, 20_000, 10_000, false, 0, 0, Some(terms))
        .unwrap();
    assert_eq!(ev.referral_amount, 0);
    assert_eq!(ev.input_transfer_amount, 10_128);
    assert_eq!(p.cumulative_trade_fees_token_0, 26);
}

#[test]
fn referral_larger_than_fee_is_math_error() {
    let mut p = pool(1_000_000, 1_000_000);
    let mut o = ObservationState::default();
    let terms = ReferralTerms { share_bps: 65_535, transfer_fee: 0 };
    let before = pool(1_000_000, 1_000_000);
    let r = swap_base_output(&mut p, &mut o, &config(), key(1), key(2), 50, 20_000, 10_000, false, 0, 0, Some(terms));
    assert_eq!(r, Err(GammaError::MathError));
    assert!(same_counters(&p, &before));
    assert!(!o.initialized);
}

#[test]
fn partners_get_protocol_fee_by_share() {
    let mut p = pool(1_000_000, 1_000_000);
    p.partners.push(PartnerInfo {
        partner_id: key(9),
        lp_token_linked_with_partner: 250,
        cumulative_fee_total_times_tvl_share_token_0: 4,
        cumulative_fee_total_times_tvl_share_token_1: 0,
    });
    let mut o = ObservationState::default();
    let c = create_amm_config(0, 2_500, 1_000_000, 0, 0, 0);
    swap_base_output(&mut p, &mut o, &c, key(1), key(2), 50, 20_000, 10_000, false, 0, 0, None).unwrap();
    assert_eq!(p.protocol_fees_token_0, 26);
    assert_eq!(p.partners[0].cumulative_fee_total_times_tvl_share_token_0, 10);
    assert_eq!(p.partners[0].cumulative_fee_total_times_tvl_share_token_1, 0);
}

#[test]
fn output_beyond_reserve_is_zero_trading_tokens() {
    let mut p = pool(1_000_000, 1_000_000);
    let mut o = ObservationState::default();
    let r = swap_base_output(&mut p, &mut o, &config(), key(1), key(2), 50, u64::MAX, 1_000_000, false, 0, 0, None);
    assert_eq!(r, Err(GammaError::ZeroTradingTokens));
    let r = swap_base_output(&mut p, &mut o, &config(), key(1), key(2), 50, u64::MAX, 0, false, 0, 0, None);
    assert_eq!(r, Err(GammaError::ZeroTradingTokens));
    assert!(same_counters(&p, &pool(1_000_000, 1_000_000)));
}

#[test]
fn input_bound_below_requirement_is_exceeded_slippage() {
    let mut p = pool(1_000_000, 1_000_000);
    let mut o = ObservationState::default();
    let r = swap_base_output(&mut p, &mut o, &config(), key(1), key(2), 50, 10_127, 10_000, false, 0, 0, None);
    assert_eq!(r, Err(GammaError::ExceededSlippage));
    assert!(same_counters(&p, &pool(1_000_000, 1_000_000)));
    assert!(!o.initialized);
    let r = swap_base_output(&mut p, &mut o, &config(), key(1), key(2), 50, 10_128, 10_000, false, 0, 0, None);
    assert!(r.is_ok());
}

#[test]
fn disabled_or_unopened_pool_is_not_approved() {
    let mut p = pool(1_000_000, 1_000_000);
    p.status = 4;
    let mut o = ObservationState::default();
    let r = swap_base_output(&mut p, &mut o, &config(), key(1), key(2), 50, 20_000, 10_000, false, 0, 0, None);
    assert_eq!(r, Err(GammaError::NotApproved));
    let mut p = pool(1_000_000, 1_000_000);
    p.open_time = 100;
    let r = swap_base_output(&mut p, &mut o, &config(), key(1), key(2), 50, 20_000, 10_000, false, 0, 0, None);
    assert_eq!(r, Err(GammaError::NotApproved));
    p.status = 3;
    let r = swap_base_output(&mut p, &mut o, &config(), key(1), key(2), 100, 20_000, 10_000, false, 0, 0, None);
    assert!(r.is_ok());
}

#[test]
fn foreign_vault_is_invalid() {
    let mut p = pool(1_000_000, 1_000_000);
    let mut o = ObservationState::default();
    let r = swap_base_output(&mut p, &mut o, &config(), key(1), key(3), 50, 20_000, 10_000, false, 0, 0, None);
    assert_eq!(r, Err(GammaError::InvalidVault));
    let r = swap_base_output(&mut p, &mut o, &config(), key(2), key(2), 50, 20_000, 10_000, false, 0, 0, None);
    assert_eq!(r, Err(GammaError::InvalidVault));
}

#[test]
fn empty_reserve_or_overflowing_output_is_math_overflow() {
    let mut p = pool(0, 1_000_000);
    let mut o = ObservationState::default();
    let r = swap_base_output(&mut p, &mut o, &config(), key(1), key(2), 50, 20_000, 10_000, false, 0, 0, None);
    assert_eq!(r, Err(GammaError::MathOverflow));
    let mut p = pool(1_000_000, 1_000_000);
    let r = swap_base_output(&mut p, &mut o, &config(), key(1), key(2), 50, 20_000, u64::MAX, false, 1, 0, None);
    assert_eq!(r, Err(GammaError::MathOverflow));
}

#[test]
fn quote_then_settle_match_the_swap() {
    let p = pool(1_000_000, 1_000_000);
    let q = quote_swap_base_output(&p, &config(), key(1), key(2), 50, 10_000, 0, false).unwrap();
    assert_eq!(q.result.source_amount_swapped, 10_128);
    assert_eq!(q.constant_before, 1_000_000_000_000);
    assert_eq!(q.constant_after, 1_000_000_980_000);
    assert!(q.constant_after >= q.constant_before);
    let s = settle_base_output(&q, 20_000, 0, 5, None).unwrap();
    assert_eq!(s.input_transfer_amount, 10_133);
    assert_eq!(s.protocol_fee + s.fund_fee + (s.dynamic_fee - s.protocol_fee - s.fund_fee), 26);
    assert_eq!(settle_base_output(&q, 10_132, 0, 5, None), Err(GammaError::ExceededSlippage));
}
