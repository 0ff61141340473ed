//! Splitting a trade's fee among referrers and partners.
use vstd::prelude::*;
use crate::curve::TradeDirection;
use crate::error::GammaError;
use crate::pool::PartnerInfo;

verus! {

/// Denominator of a referral share in basis points.
pub const REFERRAL_SHARE_DENOMINATOR: u64 = 10_000;

/// Scale that keeps a partner's share of the liquidity in integer form.
pub const TVL_SHARE_SCALE: u64 = 100_000;

/// `a - b`, or zero where `b > a`.
pub open spec fn sat_sub(a: int, b: int) -> int {
    if a > b {
        a - b
    } else {
        0
    }
}

/// The referrer's cut: `share_bps` basis points of the fee left after the
/// protocol and fund parts, rounded down; `None` where the product overflows.
pub open spec fn referral_amount_spec(
    dynamic_fee: u64,
    protocol_fee: u64,
    fund_fee: u64,
    share_bps: u16,
) -> Option<u64> {
    let retained = sat_sub(sat_sub(dynamic_fee as int, protocol_fee as int), fund_fee as int);
    if retained * share_bps > u64::MAX {
        None
    } else {
        Some((retained * share_bps / REFERRAL_SHARE_DENOMINATOR as int) as u64)
    }
}

/// The referrer's cut of a fee, in basis points of what the pool keeps.
pub fn referral_amount(dynamic_fee: u64, protocol_fee: u64, fund_fee: u64, share_bps: u16) -> (r:
    Result<u64, GammaError>)
    ensures
        match referral_amount_spec(dynamic_fee, protocol_fee, fund_fee, share_bps) {
            Some(a) => r == Ok::<u64, GammaError>(a),
            None => r == Err::<u64, GammaError>(GammaError::MathOverflow),
        },
{
    let retained = dynamic_fee.saturating_sub(protocol_fee).saturating_sub(fund_fee);
    match retained.checked_mul(share_bps as u64) {
        Some(v) => Ok(v / REFERRAL_SHARE_DENOMINATOR),
        None => Err(GammaError::MathOverflow),
    }
}

/// A partner's share of the liquidity, scaled by `TVL_SHARE_SCALE`.
pub open spec fn tvl_share(lp_linked: u64, lp_supply: u64) -> Option<u64> {
    if lp_linked * TVL_SHARE_SCALE > u64::MAX || lp_supply == 0 {
        None
    } else {
        Some((lp_linked * TVL_SHARE_SCALE / lp_supply as int) as u64)
    }
}

/// The protocol fee attributed to a partner, by its share of the liquidity.
pub open spec fn partner_fee_spec(protocol_fee: u64, lp_linked: u64, lp_supply: u64) -> Option<
    u64,
> {
    match tvl_share(lp_linked, lp_supply) {
        None => None,
        Some(s) => if protocol_fee * s > u64::MAX {
            None
        } else {
            Some((protocol_fee * s / TVL_SHARE_SCALE as int) as u64)
        },
    }
}

/// Protocol fee attributed to a partner holding `lp_linked` of `lp_supply`
/// liquidity shares.
pub fn partner_fee(protocol_fee: u64, lp_linked: u64, lp_supply: u64) -> (r: Result<
    u64,
    GammaError,
>)
    ensures
        match partner_fee_spec(protocol_fee, lp_linked, lp_supply) {
            Some(f) => r == Ok::<u64, GammaError>(f),
            None => r == Err::<u64, GammaError>(GammaError::MathOverflow),
        },
{
    let scaled = match lp_linked.checked_mul(TVL_SHARE_SCALE) {
        Some(v) => v,
        None => return Err(GammaError::MathOverflow),
    };
    let share = match scaled.checked_div(lp_supply) {
        Some(v) => v,
        None => return Err(GammaError::MathOverflow),
    };
    match protocol_fee.checked_mul(share) {
        Some(v) => Ok(v / TVL_SHARE_SCALE),
        None => Err(GammaError::MathOverflow),
    }
}

/// A partner record with its fee counter for the traded direction grown by
/// its part of `protocol_fee`; `None` where a step overflows.
pub open spec fn accrue_partner(
    p: PartnerInfo,
    protocol_fee: u64,
    lp_supply: u64,
    dir: TradeDirection,
) -> Option<PartnerInfo> {
    match partner_fee_spec(protocol_fee, p.lp_token_linked_with_partner, lp_supply) {
        None => None,
        Some(fee) => match dir {
            TradeDirection::ZeroForOne => if p.cumulative_fee_total_times_tvl_share_token_0 + fee
                > u64::MAX {
                None
            } else {
                Some(
                    PartnerInfo {
                        cumulative_fee_total_times_tvl_share_token_0:
                            (p.cumulative_fee_total_times_tvl_share_token_0 + fee) as u64,
                        ..p
                    },
                )
            },
            TradeDirection::OneForZero => if p.cumulative_fee_total_times_tvl_share_token_1 + fee
                > u64::MAX {
                None
            } else {
                Some(
                    PartnerInfo {
                        cumulative_fee_total_times_tvl_share_token_1:
                            (p.cumulative_fee_total_times_tvl_share_token_1 + fee) as u64,
                        ..p
                    },
                )
            },
        },
    }
}

/// Every partner record can take its part of `protocol_fee`.
pub open spec fn partners_accrue(
    ps: Seq<PartnerInfo>,
    protocol_fee: u64,
    lp_supply: u64,
    dir: TradeDirection,
) -> bool {
    forall|i: int| 0 <= i < ps.len() ==> accrue_partner(ps[i], protocol_fee, lp_supply, dir) is Some
}

/// `qs` is `ps` with every record's part of `protocol_fee` accrued.
pub open spec fn partners_accrued(
    ps: Seq<PartnerInfo>,
    qs: Seq<PartnerInfo>,
    protocol_fee: u64,
    lp_supply: u64,
    dir: TradeDirection,
) -> bool {
    &&& qs.len() == ps.len()
    &&& forall|i: int|
        0 <= i < ps.len() ==> accrue_partner(ps[i], protocol_fee, lp_supply, dir) == Some(qs[i])
}

/// Attribute `protocol_fee` to every partner by its share of the liquidity;
/// the records handed in are left as they are.
pub fn accrue_partner_fees(
    partners: &Vec<PartnerInfo>,
    protocol_fee: u64,
    lp_supply: u64,
    dir: TradeDirection,
) -> (r: Result<Vec<PartnerInfo>, GammaError>)
    ensures
        r is Ok <==> partners_accrue(partners@, protocol_fee, lp_supply, dir),
        r matches Ok(v) ==> partners_accrued(partners@, v@, protocol_fee, lp_supply, dir),
        r matches Err(e) ==> e == GammaError::MathOverflow,
{
    let mut out: Vec<PartnerInfo> = Vec::new();
    let mut i: usize = 0;
    while i < partners.len()
        invariant
            i <= partners@.len(),
            out@.len() == i,
            forall|j: int|
                0 <= j < i ==> accrue_partner(partners@[j], protocol_fee, lp_supply, dir) == Some(
                    out@[j],
                ),
        decreases partners@.len() - i,
    {
        let p = partners[i];
        let fee = match partner_fee(protocol_fee, p.lp_token_linked_with_partner, lp_supply) {
            Ok(f) => f,
            Err(e) => return Err(e),
        };
        let q = match dir {
            TradeDirection::ZeroForOne => match p.cumulative_fee_total_times_tvl_share_token_0.checked_add(fee) {
                Some(c) => PartnerInfo { cumulative_fee_total_times_tvl_share_token_0: c, ..p },
                None => return Err(GammaError::MathOverflow),
            },
            TradeDirection::OneForZero => match p.cumulative_fee_total_times_tvl_share_token_1.checked_add(fee) {
                Some(c) => PartnerInfo { cumulative_fee_total_times_tvl_share_token_1: c, ..p },
                None => return Err(GammaError::MathOverflow),
            },
        };
        out.push(q);
        i = i + 1;
    }
    Ok(out)
}

} // verus!
