//! Pool, configuration and partner records.
use vstd::prelude::*;
use crate::curve::{FEE_RATE_DENOMINATOR_VALUE, TradeDirection};
use crate::error::GammaError;
use crate::key::Pubkey;

verus! {

/// One Q32.32 unit, `2^32`.
pub const Q32: u128 = 4294967296;

/// Fee settings shared by a family of pools.
#[derive(Clone, Copy, Debug, PartialEq, Eq, Structural)]
pub struct AmmConfig {
    pub index: u16,
    /// Trade fee rate, over `FEE_RATE_DENOMINATOR_VALUE`.
    pub trade_fee_rate: u64,
    /// Protocol's part of the trade fee, over `FEE_RATE_DENOMINATOR_VALUE`.
    pub protocol_fee_rate: u64,
    /// Fund's part of the trade fee, over `FEE_RATE_DENOMINATOR_VALUE`.
    pub fund_fee_rate: u64,
    pub create_pool_fee: u64,
    pub max_open_time: u64,
    /// Referral project whose records apply to this config's pools.
    pub referral_project: Pubkey,
}

impl AmmConfig {
    /// The trade fee is below the denominator and the protocol and fund
    /// parts together are at most the whole fee.
    pub open spec fn wf(self) -> bool {
        &&& self.trade_fee_rate < FEE_RATE_DENOMINATOR_VALUE
        &&& self.protocol_fee_rate + self.fund_fee_rate <= FEE_RATE_DENOMINATOR_VALUE
    }
}

/// A configuration with the given rates; the referral project is unset.
pub fn create_amm_config(
    index: u16,
    trade_fee_rate: u64,
    protocol_fee_rate: u64,
    fund_fee_rate: u64,
    create_pool_fee: u64,
    max_open_time: u64,
) -> (r: AmmConfig)
    requires
        trade_fee_rate < FEE_RATE_DENOMINATOR_VALUE,
        protocol_fee_rate <= FEE_RATE_DENOMINATOR_VALUE,
        fund_fee_rate <= FEE_RATE_DENOMINATOR_VALUE,
        protocol_fee_rate + fund_fee_rate <= FEE_RATE_DENOMINATOR_VALUE,
    ensures
        r.wf(),
        r == (AmmConfig {
            index,
            trade_fee_rate,
            protocol_fee_rate,
            fund_fee_rate,
            create_pool_fee,
            max_open_time,
            referral_project: Pubkey { w0: 0, w1: 0, w2: 0, w3: 0 },
        }),
{
    AmmConfig {
        index,
        trade_fee_rate,
        protocol_fee_rate,
        fund_fee_rate,
        create_pool_fee,
        max_open_time,
        referral_project: Pubkey::zero(),
    }
}

/// A partner's liquidity and the protocol fees attributed to it so far.
#[derive(Clone, Copy, Debug, PartialEq, Eq, Structural)]
pub struct PartnerInfo {
    pub partner_id: Pubkey,
    /// Liquidity shares linked with the partner.
    pub lp_token_linked_with_partner: u64,
    pub cumulative_fee_total_times_tvl_share_token_0: u64,
    pub cumulative_fee_total_times_tvl_share_token_1: u64,
}

/// A trading pair's reserves and counters.
pub struct PoolState {
    pub token_0_vault: Pubkey,
    pub token_1_vault: Pubkey,
    /// Status bits; a set bit 2 (value 4) stops swaps.
    pub status: u8,
    /// Earliest time at which swaps are allowed.
    pub open_time: u64,
    /// Liquidity shares outstanding.
    pub lp_supply: u64,
    /// Reserve of token 0, net of accrued protocol and fund fees.
    pub token_0_vault_amount: u64,
    /// Reserve of token 1, net of accrued protocol and fund fees.
    pub token_1_vault_amount: u64,
    pub protocol_fees_token_0: u64,
    pub protocol_fees_token_1: u64,
    pub fund_fees_token_0: u64,
    pub fund_fees_token_1: u64,
    pub cumulative_trade_fees_token_0: u128,
    pub cumulative_trade_fees_token_1: u128,
    pub cumulative_volume_token_0: u128,
    pub cumulative_volume_token_1: u128,
    pub latest_dynamic_fee_rate: u64,
    pub partners: Vec<PartnerInfo>,
}

/// What a pool holds, as mathematical values.
pub struct PoolView {
    pub token_0_vault: Pubkey,
    pub token_1_vault: Pubkey,
    pub status: u8,
    pub open_time: u64,
    pub lp_supply: u64,
    pub token_0_vault_amount: u64,
    pub token_1_vault_amount: u64,
    pub protocol_fees_token_0: u64,
    pub protocol_fees_token_1: u64,
    pub fund_fees_token_0: u64,
    pub fund_fees_token_1: u64,
    pub cumulative_trade_fees_token_0: u128,
    pub cumulative_trade_fees_token_1: u128,
    pub cumulative_volume_token_0: u128,
    pub cumulative_volume_token_1: u128,
    pub latest_dynamic_fee_rate: u64,
    pub partners: Seq<PartnerInfo>,
}

impl View for PoolState {
    type V = PoolView;

    open spec fn view(&self) -> PoolView {
        PoolView {
            token_0_vault: self.token_0_vault,
            token_1_vault: self.token_1_vault,
            status: self.status,
            open_time: self.open_time,
            lp_supply: self.lp_supply,
            token_0_vault_amount: self.token_0_vault_amount,
            token_1_vault_amount: self.token_1_vault_amount,
            protocol_fees_token_0: self.protocol_fees_token_0,
            protocol_fees_token_1: self.protocol_fees_token_1,
            fund_fees_token_0: self.fund_fees_token_0,
            fund_fees_token_1: self.fund_fees_token_1,
            cumulative_trade_fees_token_0: self.cumulative_trade_fees_token_0,
            cumulative_trade_fees_token_1: self.cumulative_trade_fees_token_1,
            cumulative_volume_token_0: self.cumulative_volume_token_0,
            cumulative_volume_token_1: self.cumulative_volume_token_1,
            latest_dynamic_fee_rate: self.latest_dynamic_fee_rate,
            partners: self.partners@,
        }
    }
}

/// Swaps are allowed: the swap status bit is clear and the pool is open.
pub open spec fn swap_allowed(p: PoolView, now: u64) -> bool {
    p.status & 4u8 == 0 && now >= p.open_time
}

/// The direction in which `(input_vault, output_vault)` trades, if they are
/// the pool's two vaults in either order.
pub open spec fn direction_of(p: PoolView, input_vault: Pubkey, output_vault: Pubkey) -> Option<
    TradeDirection,
> {
    if input_vault == p.token_0_vault && output_vault == p.token_1_vault {
        Some(TradeDirection::ZeroForOne)
    } else if input_vault == p.token_1_vault && output_vault == p.token_0_vault {
        Some(TradeDirection::OneForZero)
    } else {
        None
    }
}

/// Input and output reserves for a direction.
pub open spec fn reserves_for(p: PoolView, dir: TradeDirection) -> (u64, u64) {
    match dir {
        TradeDirection::ZeroForOne => (p.token_0_vault_amount, p.token_1_vault_amount),
        TradeDirection::OneForZero => (p.token_1_vault_amount, p.token_0_vault_amount),
    }
}

/// Q32.32 prices of token 0 in token 1 and of token 1 in token 0.
pub open spec fn prices_x32(p: PoolView) -> Option<(u128, u128)> {
    if p.token_0_vault_amount == 0 || p.token_1_vault_amount == 0 {
        None
    } else {
        Some(
            (
                (p.token_1_vault_amount * Q32 / p.token_0_vault_amount as int) as u128,
                (p.token_0_vault_amount * Q32 / p.token_1_vault_amount as int) as u128,
            ),
        )
    }
}

impl PoolState {
    /// Swaps are allowed at time `now`.
    pub fn swap_allowed(&self, now: u64) -> (r: bool)
        ensures
            r == swap_allowed(self@, now),
    {
        self.status & 4u8 == 0 && now >= self.open_time
    }

    /// The trade direction for a pair of vaults.
    pub fn direction(&self, input_vault: Pubkey, output_vault: Pubkey) -> (r: Option<
        TradeDirection,
    >)
        ensures
            r == direction_of(self@, input_vault, output_vault),
    {
        if input_vault == self.token_0_vault && output_vault == self.token_1_vault {
            Some(TradeDirection::ZeroForOne)
        } else if input_vault == self.token_1_vault && output_vault == self.token_0_vault {
            Some(TradeDirection::OneForZero)
        } else {
            None
        }
    }

    /// Q32.32 prices of each token in the other; an empty reserve has none.
    pub fn token_price_x32(&self) -> (r: Result<(u128, u128), GammaError>)
        ensures
            match prices_x32(self@) {
                Some(p) => r == Ok::<(u128, u128), GammaError>(p),
                None => r == Err::<(u128, u128), GammaError>(GammaError::MathOverflow),
            },
    {
        if self.token_0_vault_amount == 0 || self.token_1_vault_amount == 0 {
            return Err(GammaError::MathOverflow);
        }
        let r0 = self.token_0_vault_amount as u128;
        let r1 = self.token_1_vault_amount as u128;
        assert(r1 * Q32 <= u128::MAX && r0 * Q32 <= u128::MAX) by (nonlinear_arith)
            requires
                r0 <= u64::MAX,
                r1 <= u64::MAX,
                Q32 == 4294967296,
        ;
        Ok((r1 * Q32 / r0, r0 * Q32 / r1))
    }
}

} // verus!
