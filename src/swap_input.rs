//! The base-input swap: a fixed gross input, the output bounded below.
use vstd::prelude::*;
use crate::curve::{
    base_input_result,
    dynamic_fee_rate,
    dynamic_fee_rate_spec,
    SwapResult,
    TradeDirection,
};
use crate::error::GammaError;
use crate::fees::{partners_accrued, sat_sub};
use crate::key::Pubkey;
use crate::oracle::{oracle_update, ObservationState};
use crate::pool::{direction_of, prices_x32, reserves_for, swap_allowed, AmmConfig, PoolState, PoolView};
use crate::swap::{
    apply_spec,
    apply_swap,
    carve_referral,
    carve_referral_spec,
    ReferralTerms,
    Settlement,
    SwapEvent,
};

verus! {

/// The curve's answer to a base-input request, with what the rest of the
/// swap needs from the pool as it stood before the trade.
#[derive(Clone, Copy, Debug, PartialEq, Eq, Structural)]
pub struct BaseInputQuote {
    pub direction: TradeDirection,
    /// Input-side reserve before the trade.
    pub reserve_in: u64,
    /// Output-side reserve before the trade.
    pub reserve_out: u64,
    /// Price of token 0 before the trade, Q32.32.
    pub token_0_price_x32: u128,
    /// Price of token 1 before the trade, Q32.32.
    pub token_1_price_x32: u128,
    /// Input that reaches the pool, the input mint's transfer fee taken off.
    pub actual_amount_in: u64,
    pub result: SwapResult,
    /// `reserve_in * reserve_out`.
    pub constant_before: u128,
    /// Fee-free source reserve times destination reserve after the trade.
    pub constant_after: u128,
}

/// Gates, direction, prices and curve for a base-input request of
/// `amount_in`, of which the input mint withholds `input_transfer_fee`.
pub open spec fn input_quote_spec(
    p: PoolView,
    cfg: AmmConfig,
    input_vault: Pubkey,
    output_vault: Pubkey,
    now: u64,
    amount_in: u64,
    input_transfer_fee: u64,
    trusted_caller: bool,
) -> Result<BaseInputQuote, GammaError> {
    let actual_in = sat_sub(amount_in as int, input_transfer_fee as int);
    if !swap_allowed(p, now) {
        Err(GammaError::NotApproved)
    } else if direction_of(p, input_vault, output_vault) is None {
        Err(GammaError::InvalidVault)
    } else if prices_x32(p) is None {
        Err(GammaError::MathOverflow)
    } else if actual_in == 0 {
        Err(GammaError::ZeroTradingTokens)
    } else {
        let dir = direction_of(p, input_vault, output_vault)->0;
        let prices = prices_x32(p)->0;
        let (ri, ro) = reserves_for(p, dir);
        let rate = dynamic_fee_rate_spec(cfg.trade_fee_rate, trusted_caller);
        match base_input_result(
            actual_in as u128,
            ri as u128,
            ro as u128,
            rate,
            cfg.protocol_fee_rate,
            cfg.fund_fee_rate,
        ) {
            None => Err(GammaError::ZeroTradingTokens),
            Some(res) => {
                let after = (res.new_swap_source_amount - res.dynamic_fee)
                    * res.new_swap_destination_amount;
                if after > u128::MAX {
                    Err(GammaError::MathOverflow)
                } else {
                    Ok(
                        BaseInputQuote {
                            direction: dir,
                            reserve_in: ri,
                            reserve_out: ro,
                            token_0_price_x32: prices.0,
                            token_1_price_x32: prices.1,
                            actual_amount_in: actual_in as u64,
                            result: res,
                            constant_before: (ri * ro) as u128,
                            constant_after: after as u128,
                        },
                    )
                }
            },
        }
    }
}

/// Output bound and referral carve-out for a base-input quote, given the
/// output mint's transfer fee on the destination amount.
pub open spec fn input_settle_spec(
    q: BaseInputQuote,
    amount_in: u64,
    input_transfer_fee: u64,
    minimum_amount_out: u64,
    out_transfer_fee: u64,
    referral: Option<ReferralTerms>,
) -> Result<Settlement, GammaError> {
    let res = q.result;
    if res.destination_amount_swapped > u64::MAX || res.destination_amount_swapped
        < out_transfer_fee {
        Err(GammaError::MathOverflow)
    } else if res.destination_amount_swapped - out_transfer_fee == 0 {
        Err(GammaError::ZeroTradingTokens)
    } else if res.destination_amount_swapped - out_transfer_fee < minimum_amount_out {
        Err(GammaError::ExceededSlippage)
    } else if res.protocol_fee > u64::MAX || res.fund_fee > u64::MAX || res.dynamic_fee
        > u64::MAX {
        Err(GammaError::MathOverflow)
    } else {
        carve_referral_spec(
            Settlement {
                input_transfer_amount: amount_in,
                input_transfer_fee,
                output_transfer_amount: res.destination_amount_swapped as u64,
                output_transfer_fee: out_transfer_fee,
                source_amount_swapped: q.actual_amount_in,
                dynamic_fee: res.dynamic_fee as u64,
                protocol_fee: res.protocol_fee as u64,
                fund_fee: res.fund_fee as u64,
                referral_amount: 0,
            },
            referral,
        )
    }
}

/// The whole pool-side computation of a base-input swap: the quote, the
/// settlement, the pool as it stands afterwards (partner records aside),
/// or the first error met.
pub open spec fn base_input_spec(
    p: PoolView,
    cfg: AmmConfig,
    input_vault: Pubkey,
    output_vault: Pubkey,
    now: u64,
    amount_in: u64,
    minimum_amount_out: u64,
    trusted_caller: bool,
    input_transfer_fee: u64,
    out_transfer_fee: u64,
    referral: Option<ReferralTerms>,
) -> Result<(BaseInputQuote, Settlement, PoolView), GammaError> {
    match input_quote_spec(
        p,
        cfg,
        input_vault,
        output_vault,
        now,
        amount_in,
        input_transfer_fee,
        trusted_caller,
    ) {
        Err(e) => Err(e),
        Ok(q) => match input_settle_spec(
            q,
            amount_in,
            input_transfer_fee,
            minimum_amount_out,
            out_transfer_fee,
            referral,
        ) {
            Err(e) => Err(e),
            Ok(s) => match apply_spec(
                p,
                q.direction,
                s,
                q.constant_before,
                q.constant_after,
                q.result.dynamic_fee_rate,
            ) {
                Err(e) => Err(e),
                Ok(np) => Ok((q, s, np)),
            },
        },
    }
}

/// The record of a base-input swap with quote `q` and settlement `s`.
pub open spec fn input_event_of(q: BaseInputQuote, s: Settlement) -> SwapEvent {
    SwapEvent {
        input_vault_before: q.reserve_in,
        output_vault_before: q.reserve_out,
        input_amount: q.actual_amount_in,
        output_amount: q.result.destination_amount_swapped as u64,
        input_transfer_fee: s.input_transfer_fee,
        output_transfer_fee: s.output_transfer_fee,
        base_input: true,
        dynamic_fee: q.result.dynamic_fee,
        input_transfer_amount: s.input_transfer_amount,
        output_transfer_amount: s.output_transfer_amount,
        referral_amount: s.referral_amount,
    }
}

/// Check the gates, resolve the direction and run the curve for a
/// base-input request.
pub fn quote_swap_base_input(
    pool: &PoolState,
    config: &AmmConfig,
    input_vault: Pubkey,
    output_vault: Pubkey,
    block_timestamp: u64,
    amount_in: u64,
    input_transfer_fee: u64,
    trusted_caller: bool,
) -> (r: Result<BaseInputQuote, GammaError>)
    requires
        config.wf(),
    ensures
        r == input_quote_spec(
            pool@,
            *config,
            input_vault,
            output_vault,
            block_timestamp,
            amount_in,
            input_transfer_fee,
            trusted_caller,
        ),
{
    if !pool.swap_allowed(block_timestamp) {
        return Err(GammaError::NotApproved);
    }
    let direction = match pool.direction(input_vault, output_vault) {
        Some(d) => d,
        None => return Err(GammaError::InvalidVault),
    };
    let (price_0, price_1) = match pool.token_price_x32() {
        Ok(p) => p,
        Err(e) => return Err(e),
    };
    let actual_amount_in = amount_in.saturating_sub(input_transfer_fee);
    if actual_amount_in == 0 {
        return Err(GammaError::ZeroTradingTokens);
    }
    let (reserve_in, reserve_out) = match direction {
        TradeDirection::ZeroForOne => (pool.token_0_vault_amount, pool.token_1_vault_amount),
        TradeDirection::OneForZero => (pool.token_1_vault_amount, pool.token_0_vault_amount),
    };
    assert(reserve_in * reserve_out <= u128::MAX) by (nonlinear_arith)
        requires
            reserve_in <= u64::MAX,
            reserve_out <= u64::MAX,
    ;
    let constant_before = reserve_in as u128 * reserve_out as u128;
    let rate = dynamic_fee_rate(config.trade_fee_rate, trusted_caller);
    let result = match crate::curve::swap_base_input(
        actual_amount_in as u128,
        reserve_in as u128,
        reserve_out as u128,
        rate,
        config.protocol_fee_rate,
        config.fund_fee_rate,
    ) {
        Some(r) => r,
        None => return Err(GammaError::ZeroTradingTokens),
    };
    let adjusted_source = result.new_swap_source_amount - result.dynamic_fee;
    let constant_after = match adjusted_source.checked_mul(result.new_swap_destination_amount) {
        Some(v) => v,
        None => return Err(GammaError::MathOverflow),
    };
    Ok(
        BaseInputQuote {
            direction,
            reserve_in,
            reserve_out,
            token_0_price_x32: price_0,
            token_1_price_x32: price_1,
            actual_amount_in,
            result,
            constant_before,
            constant_after,
        },
    )
}

/// Apply the output bound `minimum_amount_out` and the referral carve-out to
/// a quote; `out_transfer_fee` is what the output mint withholds on the
/// quoted destination amount.
pub fn settle_base_input(
    quote: &BaseInputQuote,
    amount_in: u64,
    input_transfer_fee: u64,
    minimum_amount_out: u64,
    out_transfer_fee: u64,
    referral: Option<ReferralTerms>,
) -> (r: Result<Settlement, GammaError>)
    ensures
        r == input_settle_spec(
            *quote,
            amount_in,
            input_transfer_fee,
            minimum_amount_out,
            out_transfer_fee,
            referral,
        ),
{
    let res = quote.result;
    if res.destination_amount_swapped > u64::MAX as u128 || res.destination_amount_swapped
        < out_transfer_fee as u128 {
        return Err(GammaError::MathOverflow);
    }
    let amount_out = res.destination_amount_swapped as u64;
    let received = amount_out - out_transfer_fee;
    if received == 0 {
        return Err(GammaError::ZeroTradingTokens);
    }
    if received < minimum_amount_out {
        return Err(GammaError::ExceededSlippage);
    }
    if res.protocol_fee > u64::MAX as u128 || res.fund_fee > u64::MAX as u128 || res.dynamic_fee
        > u64::MAX as u128 {
        return Err(GammaError::MathOverflow);
    }
    carve_referral(
        Settlement {
            input_transfer_amount: amount_in,
            input_transfer_fee,
            output_transfer_amount: amount_out,
            output_transfer_fee: out_transfer_fee,
            source_amount_swapped: quote.actual_amount_in,
            dynamic_fee: res.dynamic_fee as u64,
            protocol_fee: res.protocol_fee as u64,
            fund_fee: res.fund_fee as u64,
            referral_amount: 0,
        },
        referral,
    )
}

/// Swap a fixed `amount_in`, of which the input mint withholds
/// `input_transfer_fee`, for at least `minimum_amount_out` after the output
/// mint's fee `out_transfer_fee` on the quoted output. `referral` gives the
/// referral terms, if one applies. On success the pool and oracle are
/// updated and the swap record, with the transfers to make, is returned; on
/// any error neither changes.
pub fn swap_base_input(
    pool: &mut PoolState,
    oracle: &mut ObservationState,
    config: &AmmConfig,
    input_vault: Pubkey,
    output_vault: Pubkey,
    block_timestamp: u64,
    amount_in: u64,
    minimum_amount_out: u64,
    trusted_caller: bool,
    input_transfer_fee: u64,
    out_transfer_fee: u64,
    referral: Option<ReferralTerms>,
) -> (r: Result<SwapEvent, GammaError>)
    requires
        config.wf(),
        old(oracle)@.wf(),
    ensures
        final(oracle)@.wf(),
        ({
            let sp = base_input_spec(
                old(pool)@,
                *config,
                input_vault,
                output_vault,
                block_timestamp,
                amount_in,
                minimum_amount_out,
                trusted_caller,
                input_transfer_fee,
                out_transfer_fee,
                referral,
            );
            match r {
                Ok(ev) => {
                    &&& sp is Ok
                    &&& ev == input_event_of(sp->Ok_0.0, sp->Ok_0.1)
                    &&& final(pool)@ == PoolView { partners: final(pool)@.partners, ..sp->Ok_0.2 }
                    &&& partners_accrued(
                        old(pool)@.partners,
                        final(pool)@.partners,
                        sp->Ok_0.1.protocol_fee,
                        old(pool)@.lp_supply,
                        sp->Ok_0.0.direction,
                    )
                    &&& oracle_update(
                        old(oracle)@,
                        block_timestamp,
                        sp->Ok_0.0.token_0_price_x32,
                        sp->Ok_0.0.token_1_price_x32,
                    ) == Some(final(oracle)@)
                },
                Err(e) => {
                    &&& final(pool)@ == old(pool)@
                    &&& final(oracle)@ == old(oracle)@
                    &&& (sp == Err::<(BaseInputQuote, Settlement, PoolView), GammaError>(e) || (
                    sp is Ok && e == GammaError::MathOverflow && oracle_update(
                        old(oracle)@,
                        block_timestamp,
                        sp->Ok_0.0.token_0_price_x32,
                        sp->Ok_0.0.token_1_price_x32,
                    ) is None))
                },
            }
        }),
{
    let q = match quote_swap_base_input(
        pool,
        config,
        input_vault,
        output_vault,
        block_timestamp,
        amount_in,
        input_transfer_fee,
        trusted_caller,
    ) {
        Ok(q) => q,
        Err(e) => return Err(e),
    };
    let s = match settle_base_input(
        &q,
        amount_in,
        input_transfer_fee,
        minimum_amount_out,
        out_transfer_fee,
        referral,
    ) {
        Ok(s) => s,
        Err(e) => return Err(e),
    };
    match apply_swap(
        pool,
        oracle,
        q.direction,
        &s,
        q.constant_before,
        q.constant_after,
        q.result.dynamic_fee_rate,
        block_timestamp,
        q.token_0_price_x32,
        q.token_1_price_x32,
    ) {
        Ok(()) => {},
        Err(e) => return Err(e),
    }
    Ok(
        SwapEvent {
            input_vault_before: q.reserve_in,
            output_vault_before: q.reserve_out,
            input_amount: q.actual_amount_in,
            output_amount: q.result.destination_amount_swapped as u64,
            input_transfer_fee: s.input_transfer_fee,
            output_transfer_fee: s.output_transfer_fee,
            base_input: true,
            dynamic_fee: q.result.dynamic_fee,
            input_transfer_amount: s.input_transfer_amount,
            output_transfer_amount: s.output_transfer_amount,
            referral_amount: s.referral_amount,
        },
    )
}

/// Any base-input quote the pool gives keeps the constant product.
pub proof fn lemma_input_quote_keeps_invariant(
    p: PoolView,
    cfg: AmmConfig,
    input_vault: Pubkey,
    output_vault: Pubkey,
    now: u64,
    amount_in: u64,
    input_transfer_fee: u64,
    trusted_caller: bool,
)
    requires
        cfg.wf(),
        input_quote_spec(
            p,
            cfg,
            input_vault,
            output_vault,
            now,
            amount_in,
            input_transfer_fee,
            trusted_caller,
        ) is Ok,
    ensures
        ({
            let q = input_quote_spec(
                p,
                cfg,
                input_vault,
                output_vault,
                now,
                amount_in,
                input_transfer_fee,
                trusted_caller,
            )->Ok_0;
            q.constant_after >= q.constant_before
        }),
{
    let dir = direction_of(p, input_vault, output_vault)->0;
    let (ri, ro) = reserves_for(p, dir);
    let actual_in = sat_sub(amount_in as int, input_transfer_fee as int);
    let rate = dynamic_fee_rate_spec(cfg.trade_fee_rate, trusted_caller);
    crate::curve::lemma_base_input_keeps_invariant(
        actual_in as u128,
        ri as u128,
        ro as u128,
        rate,
        cfg.protocol_fee_rate,
        cfg.fund_fee_rate,
    );
}

/// Fee conservation through a whole base-input swap: the fee the curve
/// charged is exactly the protocol part, the fund part, what the pool
/// retains and the referral payout, with every part non-negative.
pub proof fn lemma_input_swap_conserves_fee(
    p: PoolView,
    cfg: AmmConfig,
    input_vault: Pubkey,
    output_vault: Pubkey,
    now: u64,
    amount_in: u64,
    minimum_amount_out: u64,
    trusted_caller: bool,
    input_transfer_fee: u64,
    out_transfer_fee: u64,
    referral: Option<ReferralTerms>,
)
    requires
        cfg.wf(),
        referral matches Some(t) ==> t.share_bps <= 10_000,
        base_input_spec(
            p,
            cfg,
            input_vault,
            output_vault,
            now,
            amount_in,
            minimum_amount_out,
            trusted_caller,
            input_transfer_fee,
            out_transfer_fee,
            referral,
        ) is Ok,
    ensures
        ({
            let (q, s, np) = base_input_spec(
                p,
                cfg,
                input_vault,
                output_vault,
                now,
                amount_in,
                minimum_amount_out,
                trusted_caller,
                input_transfer_fee,
                out_transfer_fee,
                referral,
            )->Ok_0;
            let retained = s.dynamic_fee - s.protocol_fee - s.fund_fee;
            &&& retained >= 0
            &&& q.result.dynamic_fee == s.protocol_fee + s.fund_fee + retained
                + s.referral_amount
        }),
{
    let q = input_quote_spec(
        p,
        cfg,
        input_vault,
        output_vault,
        now,
        amount_in,
        input_transfer_fee,
        trusted_caller,
    )->Ok_0;
    let dir = direction_of(p, input_vault, output_vault)->0;
    let (ri, ro) = reserves_for(p, dir);
    let actual_in = sat_sub(amount_in as int, input_transfer_fee as int);
    let rate = dynamic_fee_rate_spec(cfg.trade_fee_rate, trusted_caller);
    crate::curve::lemma_base_input_fee_parts(
        actual_in as u128,
        ri as u128,
        ro as u128,
        rate,
        cfg.protocol_fee_rate,
        cfg.fund_fee_rate,
    );
    let res = q.result;
    if let Some(t) = referral {
        let retained = sat_sub(
            sat_sub(res.dynamic_fee as int, res.protocol_fee as int),
            res.fund_fee as int,
        );
        assert(retained * t.share_bps / 10_000 <= retained) by (nonlinear_arith)
            requires
                retained >= 0,
                0 <= t.share_bps <= 10_000,
        ;
    }
}

} // verus!
