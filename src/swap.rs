//! The base-output swap: gates, curve, fee distribution, invariant check,
//! and the commit of every counter, all or nothing.
use vstd::prelude::*;
use crate::curve::{
    base_output_result,
    dynamic_fee_rate,
    dynamic_fee_rate_spec,
    SwapResult,
    TradeDirection,
};
use crate::error::GammaError;
use crate::fees::{
    accrue_partner_fees,
    partners_accrue,
    partners_accrued,
    referral_amount,
    referral_amount_spec,
};
use crate::key::Pubkey;
use crate::oracle::{oracle_update, ObservationState};
use crate::pool::{direction_of, prices_x32, reserves_for, swap_allowed, AmmConfig, PoolState, PoolView};

verus! {

/// The curve's answer to a base-output request, with what the rest of the
/// swap needs from the pool as it stood before the trade.
#[derive(Clone, Copy, Debug, PartialEq, Eq, Structural)]
pub struct BaseOutputQuote {
    pub direction: TradeDirection,
    /// Input-side reserve before the trade.
    pub reserve_in: u64,
    /// Output-side reserve before the trade.
    pub reserve_out: u64,
    /// Price of token 0 before the trade, Q32.32.
    pub token_0_price_x32: u128,
    /// Price of token 1 before the trade, Q32.32.
    pub token_1_price_x32: u128,
    /// Output the pool sends, the output mint's transfer fee included.
    pub actual_amount_out: u64,
    pub result: SwapResult,
    /// `reserve_in * reserve_out`.
    pub constant_before: u128,
    /// Fee-free source reserve times destination reserve after the trade.
    pub constant_after: u128,
}

/// The mint-level transfer fee that a referral payout would bear, and the
/// referrer's share in basis points.
#[derive(Clone, Copy, Debug, PartialEq, Eq, Structural)]
pub struct ReferralTerms {
    pub share_bps: u16,
    /// Fee the input mint withholds when sending the referral amount.
    pub transfer_fee: u64,
}

/// Amounts that move, and the fee parts, once slippage and referral are settled.
#[derive(Clone, Copy, Debug, PartialEq, Eq, Structural)]
pub struct Settlement {
    /// Amount the trader sends, the input mint's transfer fee included.
    pub input_transfer_amount: u64,
    pub input_transfer_fee: u64,
    /// Amount the pool sends, the output mint's transfer fee included.
    pub output_transfer_amount: u64,
    pub output_transfer_fee: u64,
    /// Source amount credited to the pool.
    pub source_amount_swapped: u64,
    /// Fee the pool keeps, after any referral payout.
    pub dynamic_fee: u64,
    pub protocol_fee: u64,
    pub fund_fee: u64,
    /// Paid to the referrer; zero where nothing is paid.
    pub referral_amount: u64,
}

/// New values of the pool's reserve and fee counters.
#[derive(Clone, Copy, Debug, PartialEq, Eq, Structural)]
pub struct PoolCounters {
    pub token_0_vault_amount: u64,
    pub token_1_vault_amount: u64,
    pub protocol_fees_token_0: u64,
    pub protocol_fees_token_1: u64,
    pub fund_fees_token_0: u64,
    pub fund_fees_token_1: u64,
    pub cumulative_trade_fees_token_0: u128,
    pub cumulative_trade_fees_token_1: u128,
    pub cumulative_volume_token_0: u128,
    pub cumulative_volume_token_1: u128,
}

/// The record of a completed swap, and the transfers to perform.
#[derive(Clone, Copy, Debug, PartialEq, Eq, Structural)]
pub struct SwapEvent {
    pub input_vault_before: u64,
    pub output_vault_before: u64,
    /// Source amount the curve asked for.
    pub input_amount: u64,
    /// Destination amount the curve gave.
    pub output_amount: u64,
    pub input_transfer_fee: u64,
    pub output_transfer_fee: u64,
    pub base_input: bool,
    /// Fee charged by the curve, before any referral payout.
    pub dynamic_fee: u128,
    /// Trader to pool.
    pub input_transfer_amount: u64,
    /// Pool to trader.
    pub output_transfer_amount: u64,
    /// Trader to referrer; zero where nothing is paid.
    pub referral_amount: u64,
}

/// Gates, direction, prices and curve for a base-output request of
/// `amount_out_less_fee` net to the trader.
pub open spec fn quote_spec(
    p: PoolView,
    cfg: AmmConfig,
    input_vault: Pubkey,
    output_vault: Pubkey,
    now: u64,
    amount_out_less_fee: u64,
    out_transfer_fee: u64,
    trusted_caller: bool,
) -> Result<BaseOutputQuote, GammaError> {
    if !swap_allowed(p, now) {
        Err(GammaError::NotApproved)
    } else if direction_of(p, input_vault, output_vault) is None {
        Err(GammaError::InvalidVault)
    } else if prices_x32(p) is None {
        Err(GammaError::MathOverflow)
    } else if amount_out_less_fee + out_transfer_fee > u64::MAX {
        Err(GammaError::MathOverflow)
    } else {
        let dir = direction_of(p, input_vault, output_vault)->0;
        let prices = prices_x32(p)->0;
        let (ri, ro) = reserves_for(p, dir);
        let out = (amount_out_less_fee + out_transfer_fee) as u64;
        let rate = dynamic_fee_rate_spec(cfg.trade_fee_rate, trusted_caller);
        match base_output_result(
            out as u128,
            ri as u128,
            ro as u128,
            rate,
            cfg.protocol_fee_rate,
            cfg.fund_fee_rate,
        ) {
            None => Err(GammaError::ZeroTradingTokens),
            Some(res) => {
                let after = (res.new_swap_source_amount - res.dynamic_fee)
                    * res.new_swap_destination_amount;
                if after > u128::MAX {
                    Err(GammaError::MathOverflow)
                } else {
                    Ok(
                        BaseOutputQuote {
                            direction: dir,
                            reserve_in: ri,
                            reserve_out: ro,
                            token_0_price_x32: prices.0,
                            token_1_price_x32: prices.1,
                            actual_amount_out: out,
                            result: res,
                            constant_before: (ri * ro) as u128,
                            constant_after: after as u128,
                        },
                    )
                }
            },
        }
    }
}

/// Slippage bound and referral carve-out, given the input mint's transfer
/// fee on the source amount and, where a referral applies, its terms.
pub open spec fn settle_spec(
    q: BaseOutputQuote,
    max_amount_in: u64,
    out_transfer_fee: u64,
    input_transfer_fee: u64,
    referral: Option<ReferralTerms>,
) -> Result<Settlement, GammaError> {
    let res = q.result;
    if res.source_amount_swapped > u64::MAX {
        Err(GammaError::MathOverflow)
    } else if res.source_amount_swapped + input_transfer_fee > u64::MAX {
        Err(GammaError::MathOverflow)
    } else if max_amount_in < res.source_amount_swapped + input_transfer_fee {
        Err(GammaError::ExceededSlippage)
    } else if res.destination_amount_swapped > u64::MAX || res.protocol_fee > u64::MAX
        || res.fund_fee > u64::MAX || res.dynamic_fee > u64::MAX {
        Err(GammaError::MathOverflow)
    } else {
        let src = res.source_amount_swapped as u64;
        let base = Settlement {
            input_transfer_amount: (src + input_transfer_fee) as u64,
            input_transfer_fee,
            output_transfer_amount: q.actual_amount_out,
            output_transfer_fee: out_transfer_fee,
            source_amount_swapped: src,
            dynamic_fee: res.dynamic_fee as u64,
            protocol_fee: res.protocol_fee as u64,
            fund_fee: res.fund_fee as u64,
            referral_amount: 0,
        };
        carve_referral_spec(base, referral)
    }
}

/// The settlement once a referral, if one applies, is paid out of the fee
/// the pool would keep: `share_bps` basis points of the fee less the
/// protocol and fund parts, paid only where it is non-zero and the input
/// mint's transfer fee on it is smaller than it.
pub open spec fn carve_referral_spec(base: Settlement, referral: Option<ReferralTerms>) -> Result<
    Settlement,
    GammaError,
> {
    match referral {
        None => Ok(base),
        Some(t) => match referral_amount_spec(
            base.dynamic_fee,
            base.protocol_fee,
            base.fund_fee,
            t.share_bps,
        ) {
            None => Err(GammaError::MathOverflow),
            Some(a) => if a != 0 && t.transfer_fee < a {
                if base.dynamic_fee < a || base.input_transfer_amount < a
                    || base.source_amount_swapped < a {
                    Err(GammaError::MathError)
                } else {
                    Ok(
                        Settlement {
                            input_transfer_amount: (base.input_transfer_amount - a) as u64,
                            source_amount_swapped: (base.source_amount_swapped - a) as u64,
                            dynamic_fee: (base.dynamic_fee - a) as u64,
                            referral_amount: a,
                            ..base
                        },
                    )
                }
            } else {
                Ok(base)
            },
        },
    }
}

/// The input side's reserve and counters after a trade: the reserve gains
/// the source amount less protocol and fund fees, the fee counters gain
/// their parts, trade-fee and volume totals gain the fee and the source amount.
pub open spec fn input_side(
    reserve: u64,
    protocol_fees: u64,
    fund_fees: u64,
    trade_fees: u128,
    volume: u128,
    s: Settlement,
) -> Option<(u64, u64, u64, u128, u128)> {
    if protocol_fees + s.protocol_fee > u64::MAX || fund_fees + s.fund_fee > u64::MAX || trade_fees
        + s.dynamic_fee > u128::MAX || volume + s.source_amount_swapped > u128::MAX || reserve
        + s.source_amount_swapped > u64::MAX || reserve + s.source_amount_swapped - s.fund_fee
        < 0 || reserve + s.source_amount_swapped - s.fund_fee - s.protocol_fee < 0 {
        None
    } else {
        Some(
            (
                (reserve + s.source_amount_swapped - s.fund_fee - s.protocol_fee) as u64,
                (protocol_fees + s.protocol_fee) as u64,
                (fund_fees + s.fund_fee) as u64,
                (trade_fees + s.dynamic_fee) as u128,
                (volume + s.source_amount_swapped) as u128,
            ),
        )
    }
}

/// The pool's reserve and fee counters after a settled trade, or `None`
/// where one of them would overflow or go below zero.
pub open spec fn counters_spec(p: PoolView, dir: TradeDirection, s: Settlement) -> Option<
    PoolCounters,
> {
    match dir {
        TradeDirection::ZeroForOne => match input_side(
            p.token_0_vault_amount,
            p.protocol_fees_token_0,
            p.fund_fees_token_0,
            p.cumulative_trade_fees_token_0,
            p.cumulative_volume_token_0,
            s,
        ) {
            None => None,
            Some(n) => if p.token_1_vault_amount < s.output_transfer_amount {
                None
            } else {
                Some(
                    PoolCounters {
                        token_0_vault_amount: n.0,
                        token_1_vault_amount: (p.token_1_vault_amount
                            - s.output_transfer_amount) as u64,
                        protocol_fees_token_0: n.1,
                        protocol_fees_token_1: p.protocol_fees_token_1,
                        fund_fees_token_0: n.2,
                        fund_fees_token_1: p.fund_fees_token_1,
                        cumulative_trade_fees_token_0: n.3,
                        cumulative_trade_fees_token_1: p.cumulative_trade_fees_token_1,
                        cumulative_volume_token_0: n.4,
                        cumulative_volume_token_1: p.cumulative_volume_token_1,
                    },
                )
            },
        },
        TradeDirection::OneForZero => match input_side(
            p.token_1_vault_amount,
            p.protocol_fees_token_1,
            p.fund_fees_token_1,
            p.cumulative_trade_fees_token_1,
            p.cumulative_volume_token_1,
            s,
        ) {
            None => None,
            Some(n) => if p.token_0_vault_amount < s.output_transfer_amount {
                None
            } else {
                Some(
                    PoolCounters {
                        token_0_vault_amount: (p.token_0_vault_amount
                            - s.output_transfer_amount) as u64,
                        token_1_vault_amount: n.0,
                        protocol_fees_token_0: p.protocol_fees_token_0,
                        protocol_fees_token_1: n.1,
                        fund_fees_token_0: p.fund_fees_token_0,
                        fund_fees_token_1: n.2,
                        cumulative_trade_fees_token_0: p.cumulative_trade_fees_token_0,
                        cumulative_trade_fees_token_1: n.3,
                        cumulative_volume_token_0: p.cumulative_volume_token_0,
                        cumulative_volume_token_1: n.4,
                    },
                )
            },
        },
    }
}

/// `p` with its counters replaced by `c` and its latest fee rate by `rate`.
pub open spec fn with_counters(p: PoolView, c: PoolCounters, rate: u64) -> PoolView {
    PoolView {
        token_0_vault_amount: c.token_0_vault_amount,
        token_1_vault_amount: c.token_1_vault_amount,
        protocol_fees_token_0: c.protocol_fees_token_0,
        protocol_fees_token_1: c.protocol_fees_token_1,
        fund_fees_token_0: c.fund_fees_token_0,
        fund_fees_token_1: c.fund_fees_token_1,
        cumulative_trade_fees_token_0: c.cumulative_trade_fees_token_0,
        cumulative_trade_fees_token_1: c.cumulative_trade_fees_token_1,
        cumulative_volume_token_0: c.cumulative_volume_token_0,
        cumulative_volume_token_1: c.cumulative_volume_token_1,
        latest_dynamic_fee_rate: rate,
        ..p
    }
}

/// The whole pool-side computation of a base-output swap: the quote, the
/// settlement, the pool as it stands afterwards (partner records aside,
/// which `partners_accrued` describes), or the first error met.
pub open spec fn base_output_spec(
    p: PoolView,
    cfg: AmmConfig,
    input_vault: Pubkey,
    output_vault: Pubkey,
    now: u64,
    max_amount_in: u64,
    amount_out_less_fee: u64,
    trusted_caller: bool,
    out_transfer_fee: u64,
    input_transfer_fee: u64,
    referral: Option<ReferralTerms>,
) -> Result<(BaseOutputQuote, Settlement, PoolView), GammaError> {
    match quote_spec(
        p,
        cfg,
        input_vault,
        output_vault,
        now,
        amount_out_less_fee,
        out_transfer_fee,
        trusted_caller,
    ) {
        Err(e) => Err(e),
        Ok(q) => match settle_spec(
            q,
            max_amount_in,
            out_transfer_fee,
            input_transfer_fee,
            referral,
        ) {
            Err(e) => Err(e),
            Ok(s) => match apply_spec(
                p,
                q.direction,
                s,
                q.constant_before,
                q.constant_after,
                q.result.dynamic_fee_rate,
            ) {
                Err(e) => Err(e),
                Ok(np) => Ok((q, s, np)),
            },
        },
    }
}

/// The pool after a settled trade in direction `dir` at fee rate `rate`
/// (partner records aside, which `partners_accrued` describes), or the
/// first error: a partner record or a counter that overflows, or a constant
/// product `after` below `before`.
pub open spec fn apply_spec(
    p: PoolView,
    dir: TradeDirection,
    s: Settlement,
    before: u128,
    after: u128,
    rate: u64,
) -> Result<PoolView, GammaError> {
    if !partners_accrue(p.partners, s.protocol_fee, p.lp_supply, dir) {
        Err(GammaError::MathOverflow)
    } else {
        match counters_spec(p, dir, s) {
            None => Err(GammaError::MathOverflow),
            Some(c) => if after < before {
                Err(GammaError::InvariantViolated)
            } else {
                Ok(with_counters(p, c, rate))
            },
        }
    }
}

/// The record of a swap with quote `q` and settlement `s`.
pub open spec fn event_of(q: BaseOutputQuote, s: Settlement) -> SwapEvent {
    SwapEvent {
        input_vault_before: q.reserve_in,
        output_vault_before: q.reserve_out,
        input_amount: q.result.source_amount_swapped as u64,
        output_amount: q.result.destination_amount_swapped as u64,
        input_transfer_fee: s.input_transfer_fee,
        output_transfer_fee: s.output_transfer_fee,
        base_input: false,
        dynamic_fee: q.result.dynamic_fee,
        input_transfer_amount: s.input_transfer_amount,
        output_transfer_amount: s.output_transfer_amount,
        referral_amount: s.referral_amount,
    }
}

/// Check the gates, resolve the direction and run the curve for a
/// base-output request; `out_transfer_fee` is what the output mint
/// withholds on top of `amount_out_less_fee`.
pub fn quote_swap_base_output(
    pool: &PoolState,
    config: &AmmConfig,
    input_vault: Pubkey,
    output_vault: Pubkey,
    block_timestamp: u64,
    amount_out_less_fee: u64,
    out_transfer_fee: u64,
    trusted_caller: bool,
) -> (r: Result<BaseOutputQuote, GammaError>)
    requires
        config.wf(),
    ensures
        r == quote_spec(
            pool@,
            *config,
            input_vault,
            output_vault,
            block_timestamp,
            amount_out_less_fee,
            out_transfer_fee,
            trusted_caller,
        ),
{
    if !pool.swap_allowed(block_timestamp) {
        return Err(GammaError::NotApproved);
    }
    let direction = match pool.direction(input_vault, output_vault) {
        Some(d) => d,
        None => return Err(GammaError::InvalidVault),
    };
    let (price_0, price_1) = match pool.token_price_x32() {
        Ok(p) => p,
        Err(e) => return Err(e),
    };
    let actual_amount_out = match amount_out_less_fee.checked_add(out_transfer_fee) {
        Some(v) => v,
        None => return Err(GammaError::MathOverflow),
    };
    let (reserve_in, reserve_out) = match direction {
        TradeDirection::ZeroForOne => (pool.token_0_vault_amount, pool.token_1_vault_amount),
        TradeDirection::OneForZero => (pool.token_1_vault_amount, pool.token_0_vault_amount),
    };
    assert(reserve_in * reserve_out <= u128::MAX) by (nonlinear_arith)
        requires
            reserve_in <= u64::MAX,
            reserve_out <= u64::MAX,
    ;
    let constant_before = reserve_in as u128 * reserve_out as u128;
    let rate = dynamic_fee_rate(config.trade_fee_rate, trusted_caller);
    let result = match crate::curve::swap_base_output(
        actual_amount_out as u128,
        reserve_in as u128,
        reserve_out as u128,
        rate,
        config.protocol_fee_rate,
        config.fund_fee_rate,
    ) {
        Some(r) => r,
        None => return Err(GammaError::ZeroTradingTokens),
    };
    let adjusted_source = result.new_swap_source_amount - result.dynamic_fee;
    let constant_after = match adjusted_source.checked_mul(result.new_swap_destination_amount) {
        Some(v) => v,
        None => return Err(GammaError::MathOverflow),
    };
    Ok(
        BaseOutputQuote {
            direction,
            reserve_in,
            reserve_out,
            token_0_price_x32: price_0,
            token_1_price_x32: price_1,
            actual_amount_out,
            result,
            constant_before,
            constant_after,
        },
    )
}

/// Apply the slippage bound `max_amount_in` and the referral carve-out to a
/// quote; `input_transfer_fee` is what the input mint withholds on the
/// quoted source amount.
pub fn settle_base_output(
    quote: &BaseOutputQuote,
    max_amount_in: u64,
    out_transfer_fee: u64,
    input_transfer_fee: u64,
    referral: Option<ReferralTerms>,
) -> (r: Result<Settlement, GammaError>)
    ensures
        r == settle_spec(*quote, max_amount_in, out_transfer_fee, input_transfer_fee, referral),
{
    let res = quote.result;
    if res.source_amount_swapped > u64::MAX as u128 {
        return Err(GammaError::MathOverflow);
    }
    let src = res.source_amount_swapped as u64;
    let input_transfer_amount = match src.checked_add(input_transfer_fee) {
        Some(v) => v,
        None => return Err(GammaError::MathOverflow),
    };
    if max_amount_in < input_transfer_amount {
        return Err(GammaError::ExceededSlippage);
    }
    if res.destination_amount_swapped > u64::MAX as u128 || res.protocol_fee > u64::MAX as u128
        || res.fund_fee > u64::MAX as u128 || res.dynamic_fee > u64::MAX as u128 {
        return Err(GammaError::MathOverflow);
    }
    let base = Settlement {
        input_transfer_amount,
        input_transfer_fee,
        output_transfer_amount: quote.actual_amount_out,
        output_transfer_fee: out_transfer_fee,
        source_amount_swapped: src,
        dynamic_fee: res.dynamic_fee as u64,
        protocol_fee: res.protocol_fee as u64,
        fund_fee: res.fund_fee as u64,
        referral_amount: 0,
    };
    carve_referral(base, referral)
}

/// Pay the referral, if one applies, out of the fee the pool would keep.
pub fn carve_referral(base: Settlement, referral: Option<ReferralTerms>) -> (r: Result<
    Settlement,
    GammaError,
>)
    ensures
        r == carve_referral_spec(base, referral),
{
    match referral {
        None => Ok(base),
        Some(t) => {
            let amount = match referral_amount(
                base.dynamic_fee,
                base.protocol_fee,
                base.fund_fee,
                t.share_bps,
            ) {
                Ok(a) => a,
                Err(e) => return Err(e),
            };
            if amount != 0 && t.transfer_fee < amount {
                if base.dynamic_fee < amount || base.input_transfer_amount < amount
                    || base.source_amount_swapped < amount {
                    return Err(GammaError::MathError);
                }
                Ok(
                    Settlement {
                        input_transfer_amount: base.input_transfer_amount - amount,
                        source_amount_swapped: base.source_amount_swapped - amount,
                        dynamic_fee: base.dynamic_fee - amount,
                        referral_amount: amount,
                        ..base
                    },
                )
            } else {
                Ok(base)
            }
        },
    }
}

/// The input side's new reserve and counters; see `input_side`.
fn credit_input_side(
    reserve: u64,
    protocol_fees: u64,
    fund_fees: u64,
    trade_fees: u128,
    volume: u128,
    s: &Settlement,
) -> (r: Result<(u64, u64, u64, u128, u128), GammaError>)
    ensures
        match input_side(reserve, protocol_fees, fund_fees, trade_fees, volume, *s) {
            Some(n) => r == Ok::<(u64, u64, u64, u128, u128), GammaError>(n),
            None => r == Err::<(u64, u64, u64, u128, u128), GammaError>(GammaError::MathOverflow),
        },
{
    let p = match protocol_fees.checked_add(s.protocol_fee) {
        Some(v) => v,
        None => return Err(GammaError::MathOverflow),
    };
    let f = match fund_fees.checked_add(s.fund_fee) {
        Some(v) => v,
        None => return Err(GammaError::MathOverflow),
    };
    let t = match trade_fees.checked_add(s.dynamic_fee as u128) {
        Some(v) => v,
        None => return Err(GammaError::MathOverflow),
    };
    let v = match volume.checked_add(s.source_amount_swapped as u128) {
        Some(v) => v,
        None => return Err(GammaError::MathOverflow),
    };
    let grown = match reserve.checked_add(s.source_amount_swapped) {
        Some(v) => v,
        None => return Err(GammaError::MathOverflow),
    };
    let less_fund = match grown.checked_sub(s.fund_fee) {
        Some(v) => v,
        None => return Err(GammaError::MathOverflow),
    };
    let less_protocol = match less_fund.checked_sub(s.protocol_fee) {
        Some(v) => v,
        None => return Err(GammaError::MathOverflow),
    };
    Ok((less_protocol, p, f, t, v))
}

/// The pool's reserve and fee counters after a settled trade.
pub fn pool_counters_after(pool: &PoolState, direction: TradeDirection, s: &Settlement) -> (r:
    Result<PoolCounters, GammaError>)
    ensures
        match counters_spec(pool@, direction, *s) {
            Some(c) => r == Ok::<PoolCounters, GammaError>(c),
            None => r == Err::<PoolCounters, GammaError>(GammaError::MathOverflow),
        },
{
    match direction {
        TradeDirection::ZeroForOne => {
            let n = match credit_input_side(
                pool.token_0_vault_amount,
                pool.protocol_fees_token_0,
                pool.fund_fees_token_0,
                pool.cumulative_trade_fees_token_0,
                pool.cumulative_volume_token_0,
                s,
            ) {
                Ok(n) => n,
                Err(e) => return Err(e),
            };
            if pool.token_1_vault_amount < s.output_transfer_amount {
                return Err(GammaError::MathOverflow);
            }
            Ok(
                PoolCounters {
                    token_0_vault_amount: n.0,
                    token_1_vault_amount: pool.token_1_vault_amount - s.output_transfer_amount,
                    protocol_fees_token_0: n.1,
                    protocol_fees_token_1: pool.protocol_fees_token_1,
                    fund_fees_token_0: n.2,
                    fund_fees_token_1: pool.fund_fees_token_1,
                    cumulative_trade_fees_token_0: n.3,
                    cumulative_trade_fees_token_1: pool.cumulative_trade_fees_token_1,
                    cumulative_volume_token_0: n.4,
                    cumulative_volume_token_1: pool.cumulative_volume_token_1,
                },
            )
        },
        TradeDirection::OneForZero => {
            let n = match credit_input_side(
                pool.token_1_vault_amount,
                pool.protocol_fees_token_1,
                pool.fund_fees_token_1,
                pool.cumulative_trade_fees_token_1,
                pool.cumulative_volume_token_1,
                s,
            ) {
                Ok(n) => n,
                Err(e) => return Err(e),
            };
            if pool.token_0_vault_amount < s.output_transfer_amount {
                return Err(GammaError::MathOverflow);
            }
            Ok(
                PoolCounters {
                    token_0_vault_amount: pool.token_0_vault_amount - s.output_transfer_amount,
                    token_1_vault_amount: n.0,
                    protocol_fees_token_0: pool.protocol_fees_token_0,
                    protocol_fees_token_1: n.1,
                    fund_fees_token_0: pool.fund_fees_token_0,
                    fund_fees_token_1: n.2,
                    cumulative_trade_fees_token_0: pool.cumulative_trade_fees_token_0,
                    cumulative_trade_fees_token_1: n.3,
                    cumulative_volume_token_0: pool.cumulative_volume_token_0,
                    cumulative_volume_token_1: n.4,
                },
            )
        },
    }
}

/// Accrue partner fees, update the counters, check the constant product
/// and record the prices in the oracle; the pool and the oracle change only
/// where every step succeeds.
pub(crate) fn apply_swap(
    pool: &mut PoolState,
    oracle: &mut ObservationState,
    direction: TradeDirection,
    s: &Settlement,
    constant_before: u128,
    constant_after: u128,
    rate: u64,
    block_timestamp: u64,
    token_0_price_x32: u128,
    token_1_price_x32: u128,
) -> (r: Result<(), GammaError>)
    requires
        old(oracle)@.wf(),
    ensures
        final(oracle)@.wf(),
        ({
            let ap = apply_spec(old(pool)@, direction, *s, constant_before, constant_after, rate);
            let ou = oracle_update(old(oracle)@, block_timestamp, token_0_price_x32, token_1_price_x32);
            match r {
                Ok(()) => {
                    &&& ap is Ok
                    &&& final(pool)@ == PoolView { partners: final(pool)@.partners, ..ap->Ok_0 }
                    &&& partners_accrued(
                        old(pool)@.partners,
                        final(pool)@.partners,
                        s.protocol_fee,
                        old(pool)@.lp_supply,
                        direction,
                    )
                    &&& ou == Some(final(oracle)@)
                },
                Err(e) => {
                    &&& final(pool)@ == old(pool)@
                    &&& final(oracle)@ == old(oracle)@
                    &&& (ap == Err::<PoolView, GammaError>(e) || (ap is Ok && e
                        == GammaError::MathOverflow && ou is None))
                },
            }
        }),
{
    let partners = match accrue_partner_fees(&pool.partners, s.protocol_fee, pool.lp_supply, direction) {
        Ok(v) => v,
        Err(e) => return Err(e),
    };
    let c = match pool_counters_after(pool, direction, s) {
        Ok(c) => c,
        Err(e) => return Err(e),
    };
    if constant_after < constant_before {
        return Err(GammaError::InvariantViolated);
    }
    match oracle.update(block_timestamp, token_0_price_x32, token_1_price_x32) {
        Ok(()) => {},
        Err(e) => return Err(e),
    }
    pool.partners = partners;
    pool.token_0_vault_amount = c.token_0_vault_amount;
    pool.token_1_vault_amount = c.token_1_vault_amount;
    pool.protocol_fees_token_0 = c.protocol_fees_token_0;
    pool.protocol_fees_token_1 = c.protocol_fees_token_1;
    pool.fund_fees_token_0 = c.fund_fees_token_0;
    pool.fund_fees_token_1 = c.fund_fees_token_1;
    pool.cumulative_trade_fees_token_0 = c.cumulative_trade_fees_token_0;
    pool.cumulative_trade_fees_token_1 = c.cumulative_trade_fees_token_1;
    pool.cumulative_volume_token_0 = c.cumulative_volume_token_0;
    pool.cumulative_volume_token_1 = c.cumulative_volume_token_1;
    pool.latest_dynamic_fee_rate = rate;
    Ok(())
}

/// Swap for a fixed output of `amount_out_less_fee`, net of the output
/// mint's transfer fee `out_transfer_fee`, paying at most `max_amount_in`.
/// `input_transfer_fee` is the input mint's fee on the quoted source amount
/// and `referral` the referral terms, if one applies. On success the pool
/// and oracle are updated and the swap record, with the transfers to make,
/// is returned; on any error neither changes.
pub fn swap_base_output(
    pool: &mut PoolState,
    oracle: &mut ObservationState,
    config: &AmmConfig,
    input_vault: Pubkey,
    output_vault: Pubkey,
    block_timestamp: u64,
    max_amount_in: u64,
    amount_out_less_fee: u64,
    trusted_caller: bool,
    out_transfer_fee: u64,
    input_transfer_fee: u64,
    referral: Option<ReferralTerms>,
) -> (r: Result<SwapEvent, GammaError>)
    requires
        config.wf(),
        old(oracle)@.wf(),
    ensures
        final(oracle)@.wf(),
        ({
            let sp = base_output_spec(
                old(pool)@,
                *config,
                input_vault,
                output_vault,
                block_timestamp,
                max_amount_in,
                amount_out_less_fee,
                trusted_caller,
                out_transfer_fee,
                input_transfer_fee,
                referral,
            );
            match r {
                Ok(ev) => {
                    &&& sp is Ok
                    &&& ev == event_of(sp->Ok_0.0, sp->Ok_0.1)
                    &&& final(pool)@ == PoolView { partners: final(pool)@.partners, ..sp->Ok_0.2 }
                    &&& partners_accrued(
                        old(pool)@.partners,
                        final(pool)@.partners,
                        sp->Ok_0.1.protocol_fee,
                        old(pool)@.lp_supply,
                        sp->Ok_0.0.direction,
                    )
                    &&& oracle_update(
                        old(oracle)@,
                        block_timestamp,
                        sp->Ok_0.0.token_0_price_x32,
                        sp->Ok_0.0.token_1_price_x32,
                    ) == Some(final(oracle)@)
                },
                Err(e) => {
                    &&& final(pool)@ == old(pool)@
                    &&& final(oracle)@ == old(oracle)@
                    &&& (sp == Err::<(BaseOutputQuote, Settlement, PoolView), GammaError>(e) || (
                    sp is Ok && e == GammaError::MathOverflow && oracle_update(
                        old(oracle)@,
                        block_timestamp,
                        sp->Ok_0.0.token_0_price_x32,
                        sp->Ok_0.0.token_1_price_x32,
                    ) is None))
                },
            }
        }),
{
    let q = match quote_swap_base_output(
        pool,
        config,
        input_vault,
        output_vault,
        block_timestamp,
        amount_out_less_fee,
        out_transfer_fee,
        trusted_caller,
    ) {
        Ok(q) => q,
        Err(e) => return Err(e),
    };
    let s = match settle_base_output(
        &q,
        max_amount_in,
        out_transfer_fee,
        input_transfer_fee,
        referral,
    ) {
        Ok(s) => s,
        Err(e) => return Err(e),
    };
    match apply_swap(
        pool,
        oracle,
        q.direction,
        &s,
        q.constant_before,
        q.constant_after,
        q.result.dynamic_fee_rate,
        block_timestamp,
        q.token_0_price_x32,
        q.token_1_price_x32,
    ) {
        Ok(()) => {},
        Err(e) => return Err(e),
    }
    Ok(
        SwapEvent {
            input_vault_before: q.reserve_in,
            output_vault_before: q.reserve_out,
            input_amount: q.result.source_amount_swapped as u64,
            output_amount: q.result.destination_amount_swapped as u64,
            input_transfer_fee: s.input_transfer_fee,
            output_transfer_fee: s.output_transfer_fee,
            base_input: false,
            dynamic_fee: q.result.dynamic_fee,
            input_transfer_amount: s.input_transfer_amount,
            output_transfer_amount: s.output_transfer_amount,
            referral_amount: s.referral_amount,
        },
    )
}

/// Any quote the pool gives keeps the constant product: the fee-free source
/// reserve times the destination reserve after the trade is no smaller
/// than the product of the reserves before it.
pub proof fn lemma_quote_keeps_invariant(
    p: PoolView,
    cfg: AmmConfig,
    input_vault: Pubkey,
    output_vault: Pubkey,
    now: u64,
    amount_out_less_fee: u64,
    out_transfer_fee: u64,
    trusted_caller: bool,
)
    requires
        cfg.wf(),
        quote_spec(
            p,
            cfg,
            input_vault,
            output_vault,
            now,
            amount_out_less_fee,
            out_transfer_fee,
            trusted_caller,
        ) is Ok,
    ensures
        ({
            let q = quote_spec(
                p,
                cfg,
                input_vault,
                output_vault,
                now,
                amount_out_less_fee,
                out_transfer_fee,
                trusted_caller,
            )->Ok_0;
            q.constant_after >= q.constant_before
        }),
{
    let dir = direction_of(p, input_vault, output_vault)->0;
    let (ri, ro) = reserves_for(p, dir);
    let out = (amount_out_less_fee + out_transfer_fee) as u64;
    let rate = dynamic_fee_rate_spec(cfg.trade_fee_rate, trusted_caller);
    crate::curve::lemma_base_output_keeps_invariant(
        out as u128,
        ri as u128,
        ro as u128,
        rate,
        cfg.protocol_fee_rate,
        cfg.fund_fee_rate,
    );
}

/// Fee conservation through a whole swap: the fee the curve charged is
/// exactly the protocol part, the fund part, what the pool retains and the
/// referral payout, with every part non-negative.
pub proof fn lemma_swap_conserves_fee(
    p: PoolView,
    cfg: AmmConfig,
    input_vault: Pubkey,
    output_vault: Pubkey,
    now: u64,
    max_amount_in: u64,
    amount_out_less_fee: u64,
    trusted_caller: bool,
    out_transfer_fee: u64,
    input_transfer_fee: u64,
    referral: Option<ReferralTerms>,
)
    requires
        cfg.wf(),
        referral matches Some(t) ==> t.share_bps <= 10_000,
        base_output_spec(
            p,
            cfg,
            input_vault,
            output_vault,
            now,
            max_amount_in,
            amount_out_less_fee,
            trusted_caller,
            out_transfer_fee,
            input_transfer_fee,
            referral,
        ) is Ok,
    ensures
        ({
            let (q, s, np) = base_output_spec(
                p,
                cfg,
                input_vault,
                output_vault,
                now,
                max_amount_in,
                amount_out_less_fee,
                trusted_caller,
                out_transfer_fee,
                input_transfer_fee,
                referral,
            )->Ok_0;
            let retained = s.dynamic_fee - s.protocol_fee - s.fund_fee;
            &&& retained >= 0
            &&& q.result.dynamic_fee == s.protocol_fee + s.fund_fee + retained
                + s.referral_amount
        }),
{
    let q = quote_spec(
        p,
        cfg,
        input_vault,
        output_vault,
        now,
        amount_out_less_fee,
        out_transfer_fee,
        trusted_caller,
    )->Ok_0;
    let dir = direction_of(p, input_vault, output_vault)->0;
    let (ri, ro) = reserves_for(p, dir);
    let out = (amount_out_less_fee + out_transfer_fee) as u64;
    let rate = dynamic_fee_rate_spec(cfg.trade_fee_rate, trusted_caller);
    crate::curve::lemma_base_output_fee_parts(
        out as u128,
        ri as u128,
        ro as u128,
        rate,
        cfg.protocol_fee_rate,
        cfg.fund_fee_rate,
    );
    let res = q.result;
    if let Some(t) = referral {
        let retained = crate::fees::sat_sub(
            crate::fees::sat_sub(res.dynamic_fee as int, res.protocol_fee as int),
            res.fund_fee as int,
        );
        assert(retained * t.share_bps / 10_000 <= retained) by (nonlinear_arith)
            requires
                retained >= 0,
                0 <= t.share_bps <= 10_000,
        ;
    }
}

} // verus!
