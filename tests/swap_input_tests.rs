use gamma::error::GammaError;
use gamma::key::Pubkey;
use gamma::oracle::ObservationState;
use gamma::pool::{create_amm_config, AmmConfig, PoolState};
use gamma::swap::ReferralTerms;
use gamma::swap_input::{quote_swap_base_input, settle_base_input, swap_base_input};

fn vault(n: u64) -> Pubkey {
    Pubkey { w0: n, w1: 0, w2: 0, w3: 0 }
}

fn fresh_pool() -> PoolState {
    PoolState {
        token_0_vault: vault(1),
        token_1_vault: vault(2),
        status: 0,
        open_time: 0,
        lp_supply: 1_000,
        token_0_vault_amount: 1_000_000,
        token_1_vault_amount: 1_000_000,
        protocol_fees_token_0: 0,
        protocol_fees_token_1: 0,
        fund_fees_token_0: 0,
        fund_fees_token_1: 0,
        cumulative_trade_fees_token_0: 0,
        cumulative_trade_fees_token_1: 0,
        cumulative_volume_token_0: 0,
        cumulative_volume_token_1: 0,
        latest_dynamic_fee_rate: 0,
        partners: Vec::new(),
    }
}

fn rates() -> AmmConfig {
    create_amm_config(1, 2_500, 120_000, 40_000, 0, 0)
}

#[test]
fn base_input_swap_updates_pool() {
    let mut p = fresh_pool();
    let mut o = ObservationState::default();
    let ev = swap_base_input(&mut p, &mut o, &rates(), vault(1), vault(2), 7, 10_000, 9_000, false, 0, 0, None)
        .unwrap();
    assert!(ev.base_input);
    assert_eq!(ev.input_amount, 10_000);
    assert_eq!(ev.output_amount, 9_876);
    assert_eq!(ev.dynamic_fee, 25);
    assert_eq!(ev.input_transfer_amount, 10_000);
    assert_eq!(ev.output_transfer_amount, 9_876);
    assert_eq!(p.token_0_vault_amount, 1_009_996);
    assert_eq!(p.token_1_vault_amount, 990_124);
    assert_eq!(p.protocol_fees_token_0, 3);
    assert_eq!(p.fund_fees_token_0, 1);
    assert_eq!(p.cumulative_trade_fees_token_0, 25);
    assert_eq!(p.cumulative_volume_token_0, 10_000);
    assert!((p.token_0_vault_amount as u128) * (p.token_1_vault_amount as u128) >= 1_000_000_000_000);
    assert!(o.initialized);
}

#[test]
fn base_input_transfer_fees_on_both_sides() {
    let mut p = fresh_pool();
    let mut o = ObservationState::default();
    let ev = swap_base_input(&mut p, &mut o, &rates(), vault(2), vault(1), 7, 10_000, 9_000, false, 100, 6, None)
        .unwrap();
    assert_eq!(ev.input_amount, 9_900);
    assert_eq!(ev.input_transfer_fee, 100);
    assert_eq!(ev.output_transfer_fee, 6);
    assert_eq!(ev.output_amount, 9_778);
    assert_eq!(p.cumulative_volume_token_1, 9_900);
    assert_eq!(p.token_0_vault_amount, 1_000_000 - 9_778);
}

#[test]
fn base_input_below_minimum_out_is_exceeded_slippage() {
    let mut p = fresh_pool();
    let mut o = ObservationState::default();
    let r = swap_base_input(&mut p, &mut o, &rates(), vault(1), vault(2), 7, 10_000, 9_877, false, 0, 0, None);
    assert_eq!(r, Err(GammaError::ExceededSlippage));
    assert_eq!(p.token_0_vault_amount, 1_000_000);
    assert!(!o.initialized);
}

#[test]
fn base_input_eaten_by_transfer_fee_is_zero_trading_tokens() {
    let mut p = fresh_pool();
    let mut o = ObservationState::default();
    let r = swap_base_input(&mut p, &mut o, &rates(), vault(1), vault(2), 7, 10_000, 0, false, 10_000, 0, None);
    assert_eq!(r, Err(GammaError::ZeroTradingTokens));
    let r = swap_base_input(&mut p, &mut o, &rates(), vault(1), vault(2), 7, 10_000, 0, false, 0, 9_876, None);
    assert_eq!(r, Err(GammaError::ZeroTradingTokens));
    let r = swap_base_input(&mut p, &mut o, &rates(), vault(1), vault(2), 7, 10_000, 0, false, 0, 9_877, None);
    assert_eq!(r, Err(GammaError::MathOverflow));
}

#[test]
fn base_input_referral_is_carved_out() {
    let mut p = fresh_pool();
    let mut o = ObservationState::default();
    let terms = ReferralTerms { share_bps: 10_000, transfer_fee: 0 };
    let ev = swap_base_input(&mut p, &mut o, &rates(), vault(1), vault(2), 7, 10_000, 0, false, 0, 0, Some(terms))
        .unwrap();
    assert_eq!(ev.referral_amount, 21);
    assert_eq!(ev.input_transfer_amount, 9_979);
    assert_eq!(p.cumulative_trade_fees_token_0, 4);
    assert_eq!(p.cumulative_volume_token_0, 9_979);
}

#[test]
fn base_input_quote_and_settle() {
    let p = fresh_pool();
    let q = quote_swap_base_input(&p, &rates(), vault(1), vault(2), 7, 10_000, 0, true).unwrap();
    assert_eq!(q.actual_amount_in, 10_000);
    assert_eq!(q.result.destination_amount_swapped, 9_876);
    assert!(q.constant_after >= q.constant_before);
    let s = settle_base_input(&q, 10_000, 0, 9_000, 0, None).unwrap();
    assert_eq!(s.dynamic_fee, 25);
    assert_eq!(s.protocol_fee + s.fund_fee + (s.dynamic_fee - s.protocol_fee - s.fund_fee), 25);
    let closed = PoolState { status: 4, ..fresh_pool() };
    assert_eq!(
        quote_swap_base_input(&closed, &rates(), vault(1), vault(2), 7, 10_000, 0, false),
        Err(GammaError::NotApproved)
    );
    assert_eq!(
        quote_swap_base_input(&p, &rates(), vault(3), vault(2), 7, 10_000, 0, false),
        Err(GammaError::InvalidVault)
    );
}
