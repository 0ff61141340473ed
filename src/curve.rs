use vstd::prelude::*;

verus! {

/// Denominator of every fee rate: a rate `r` stands for `r / 1_000_000`.
pub const FEE_RATE_DENOMINATOR_VALUE: u64 = 1_000_000;

/// Which of the pool's two assets comes in.
#[derive(Clone, Copy, Debug, PartialEq, Eq, Structural)]
pub enum TradeDirection {
    ZeroForOne,
    OneForZero,
}

/// Everything the curve decides for one trade.
#[derive(Clone, Copy, Debug, PartialEq, Eq, Structural)]
pub struct SwapResult {
    /// Source reserve after the trade, fee included.
    pub new_swap_source_amount: u128,
    /// Destination reserve after the trade.
    pub new_swap_destination_amount: u128,
    /// Gross amount taken from the trader, fee included.
    pub source_amount_swapped: u128,
    /// Amount handed to the trader.
    pub destination_amount_swapped: u128,
    /// Total fee charged on the source side.
    pub dynamic_fee: u128,
    /// Rate the fee was charged at.
    pub dynamic_fee_rate: u64,
    /// Part of the fee owed to the protocol.
    pub protocol_fee: u128,
    /// Part of the fee owed to the fund.
    pub fund_fee: u128,
}

pub open spec fn denom() -> int {
    FEE_RATE_DENOMINATOR_VALUE as int
}

/// `a / b` rounded up.
pub open spec fn ceil_div(a: int, b: int) -> int {
    (a + b - 1) / b
}

/// Fee charged on `amount` at `rate`, rounded up in the pool's favour.
pub open spec fn trading_fee(amount: int, rate: int) -> int {
    ceil_div(amount * rate, denom())
}

/// Share of `fee` given by `rate`, rounded down.
pub open spec fn fee_share(fee: int, rate: int) -> int {
    fee * rate / denom()
}

/// Fee rate charged on a trade. The trusted-router flag selects the same
/// base rate today; the rate always stays below the denominator.
pub open spec fn dynamic_fee_rate_spec(trade_fee_rate: u64, trusted_caller: bool) -> u64 {
    trade_fee_rate
}

pub fn dynamic_fee_rate(trade_fee_rate: u64, trusted_caller: bool) -> (r: u64)
    requires
        trade_fee_rate < FEE_RATE_DENOMINATOR_VALUE,
    ensures
        r == dynamic_fee_rate_spec(trade_fee_rate, trusted_caller),
        r < FEE_RATE_DENOMINATOR_VALUE,
{
    trade_fee_rate
}

/// Destination amount for a net (fee-free) input on the constant-product curve.
pub open spec fn out_for_net_input(net: int, reserve_in: int, reserve_out: int) -> int {
    net * reserve_out / (reserve_in + net)
}

/// Net input needed for `amount_out`, rounded up so the trader never under-pays.
pub open spec fn net_input_for_output(amount_out: int, reserve_in: int, reserve_out: int) -> int {
    ceil_div(amount_out * reserve_in, reserve_out - amount_out)
}

/// Gross input whose fee-free part is at least `net`, rounded up.
pub open spec fn gross_up(net: int, rate: int) -> int {
    ceil_div(net * denom(), denom() - rate)
}

/// Does every widened intermediate of a fee split fit in 128 bits?
pub open spec fn split_fits(fee: int, protocol_fee_rate: u64, fund_fee_rate: u64) -> bool {
    fee * protocol_fee_rate <= u128::MAX && fee * fund_fee_rate <= u128::MAX
}

/// The trade for a fixed gross input, or `None` where an intermediate
/// overflows 128 bits or both reserves after the trade would be empty.
pub open spec fn base_input_result(
    amount_in: u128,
    reserve_in: u128,
    reserve_out: u128,
    fee_rate: u64,
    protocol_fee_rate: u64,
    fund_fee_rate: u64,
) -> Option<SwapResult> {
    let fee = trading_fee(amount_in as int, fee_rate as int);
    let net = amount_in - fee;
    let out = out_for_net_input(net, reserve_in as int, reserve_out as int);
    if amount_in * fee_rate > u128::MAX || net * reserve_out > u128::MAX || reserve_in + net
        > u128::MAX || reserve_in + net == 0 || reserve_in + amount_in > u128::MAX
        || !split_fits(fee, protocol_fee_rate, fund_fee_rate) {
        None
    } else {
        Some(
            SwapResult {
                new_swap_source_amount: (reserve_in + amount_in) as u128,
                new_swap_destination_amount: (reserve_out - out) as u128,
                source_amount_swapped: amount_in,
                destination_amount_swapped: out as u128,
                dynamic_fee: fee as u128,
                dynamic_fee_rate: fee_rate,
                protocol_fee: fee_share(fee, protocol_fee_rate as int) as u128,
                fund_fee: fee_share(fee, fund_fee_rate as int) as u128,
            },
        )
    }
}

/// The trade for a fixed output, or `None` where the output is not below
/// the destination reserve, the required input is zero, or an intermediate
/// overflows 128 bits.
pub open spec fn base_output_result(
    amount_out: u128,
    reserve_in: u128,
    reserve_out: u128,
    fee_rate: u64,
    protocol_fee_rate: u64,
    fund_fee_rate: u64,
) -> Option<SwapResult> {
    let net = net_input_for_output(amount_out as int, reserve_in as int, reserve_out as int);
    let gross = gross_up(net, fee_rate as int);
    let fee = gross - net;
    if amount_out >= reserve_out || amount_out * reserve_in > u128::MAX || net * denom()
        > u128::MAX || gross == 0 || reserve_in + gross > u128::MAX || !split_fits(
        fee,
        protocol_fee_rate,
        fund_fee_rate,
    ) {
        None
    } else {
        Some(
            SwapResult {
                new_swap_source_amount: (reserve_in + gross) as u128,
                new_swap_destination_amount: (reserve_out - amount_out) as u128,
                source_amount_swapped: gross as u128,
                destination_amount_swapped: amount_out,
                dynamic_fee: fee as u128,
                dynamic_fee_rate: fee_rate,
                protocol_fee: fee_share(fee, protocol_fee_rate as int) as u128,
                fund_fee: fee_share(fee, fund_fee_rate as int) as u128,
            },
        )
    }
}

proof fn lemma_ceil_div_bounds(a: int, b: int)
    requires
        a >= 0,
        b > 0,
    ensures
        ceil_div(a, b) * b >= a,
        (ceil_div(a, b) - 1) * b < a || a == 0,
        ceil_div(a, b) >= 0,
        a == 0 ==> ceil_div(a, b) == 0,
{
    let q = ceil_div(a, b);
    vstd::arithmetic::div_mod::lemma_fundamental_div_mod(a + b - 1, b);
    let m = (a + b - 1) % b;
    assert(0 <= m < b) by {
        vstd::arithmetic::div_mod::lemma_mod_bound(a + b - 1, b);
    }
    assert(q * b == a + b - 1 - m) by (nonlinear_arith)
        requires
            a + b - 1 == b * q + m,
    ;
    assert((q - 1) * b == a - 1 - m) by (nonlinear_arith)
        requires
            q * b == a + b - 1 - m,
    ;
    if a == 0 {
        assert(q == 0) by (nonlinear_arith)
            requires
                q * b == b - 1 - m,
                0 <= m < b,
                b > 0,
        ;
    } else {
        assert(q >= 0) by (nonlinear_arith)
            requires
                q * b == a + b - 1 - m,
                0 <= m < b,
                b > 0,
                a > 0,
        ;
    }
}

/// `a / b` rounded up, without forming `a + b - 1`.
fn ceil_div_u128(a: u128, b: u128) -> (r: u128)
    requires
        b > 0,
    ensures
        r == ceil_div(a as int, b as int),
{
    let q = a / b;
    let m = a % b;
    proof {
        vstd::arithmetic::div_mod::lemma_fundamental_div_mod(a as int, b as int);
        lemma_ceil_div_bounds(a as int, b as int);
        let c = ceil_div(a as int, b as int);
        if m == 0 {
            assert(c == q) by (nonlinear_arith)
                requires
                    a == b * q,
                    c * b >= a,
                    (c - 1) * b < a || a == 0,
                    c >= 0,
                    a == 0 ==> c == 0,
                    b > 0,
            ;
        } else {
            assert(c == q + 1) by (nonlinear_arith)
                requires
                    a == b * q + m,
                    0 < m < b,
                    c * b >= a,
                    (c - 1) * b < a,
                    b > 0,
            ;
            assert(q < u128::MAX) by (nonlinear_arith)
                requires
                    a == b * q + m,
                    0 < m < b,
                    a <= u128::MAX,
                    q >= 0,
            ;
        }
    }
    if m == 0 {
        q
    } else {
        q + 1
    }
}

proof fn lemma_trading_fee_le(amount: int, rate: int)
    requires
        amount >= 0,
        0 <= rate < denom(),
    ensures
        0 <= trading_fee(amount, rate) <= amount,
{
    lemma_ceil_div_bounds(amount * rate, denom());
    assert(amount * rate >= 0) by (nonlinear_arith)
        requires
            amount >= 0,
            rate >= 0,
    ;
    let f = trading_fee(amount, rate);
    assert(f <= amount) by (nonlinear_arith)
        requires
            (f - 1) * denom() < amount * rate || amount * rate == 0,
            f >= 0,
            amount * rate == 0 ==> f == 0,
            0 <= rate < denom(),
            amount >= 0,
            denom() > 0,
    ;
}

proof fn lemma_out_le_reserve(net: int, reserve_in: int, reserve_out: int)
    requires
        net >= 0,
        reserve_in >= 0,
        reserve_out >= 0,
        reserve_in + net > 0,
    ensures
        0 <= out_for_net_input(net, reserve_in, reserve_out) <= reserve_out,
        reserve_in > 0 ==> out_for_net_input(net, reserve_in, reserve_out) < reserve_out
            || reserve_out == 0,
{
    let d = reserve_in + net;
    assert(0 <= net * reserve_out <= d * reserve_out) by (nonlinear_arith)
        requires
            net >= 0,
            reserve_out >= 0,
            d >= net,
    ;
    vstd::arithmetic::div_mod::lemma_div_is_ordered(net * reserve_out, d * reserve_out, d);
    vstd::arithmetic::div_mod::lemma_div_by_multiple(reserve_out, d);
    vstd::arithmetic::div_mod::lemma_div_pos_is_pos(net * reserve_out, d);
    if reserve_in > 0 && reserve_out > 0 {
        let o = out_for_net_input(net, reserve_in, reserve_out);
        vstd::arithmetic::div_mod::lemma_fundamental_div_mod(net * reserve_out, d);
        vstd::arithmetic::div_mod::lemma_mod_pos_bound(net * reserve_out, d);
        assert(o < reserve_out) by (nonlinear_arith)
            requires
                net * reserve_out == d * o + (net * reserve_out) % d,
                (net * reserve_out) % d >= 0,
                d == reserve_in + net,
                reserve_in > 0,
                reserve_out > 0,
                net >= 0,
        ;
    }
}

/// Trade a fixed gross input `amount_in` against reserves
/// `(reserve_in, reserve_out)` at fee rate `fee_rate`.
pub fn swap_base_input(
    amount_in: u128,
    reserve_in: u128,
    reserve_out: u128,
    fee_rate: u64,
    protocol_fee_rate: u64,
    fund_fee_rate: u64,
) -> (r: Option<SwapResult>)
    requires
        fee_rate < FEE_RATE_DENOMINATOR_VALUE,
        protocol_fee_rate + fund_fee_rate <= FEE_RATE_DENOMINATOR_VALUE,
    ensures
        r == base_input_result(
            amount_in,
            reserve_in,
            reserve_out,
            fee_rate,
            protocol_fee_rate,
            fund_fee_rate,
        ),
        r matches Some(x) ==> x.protocol_fee + x.fund_fee <= x.dynamic_fee
            && x.dynamic_fee <= x.source_amount_swapped && x.source_amount_swapped
            <= x.new_swap_source_amount,
{
    let scaled = match amount_in.checked_mul(fee_rate as u128) {
        Some(v) => v,
        None => return None,
    };
    let fee = ceil_div_u128(scaled, FEE_RATE_DENOMINATOR_VALUE as u128);
    proof {
        lemma_trading_fee_le(amount_in as int, fee_rate as int);
    }
    let net = amount_in - fee;
    proof {
        lemma_fee_conservation(fee, protocol_fee_rate, fund_fee_rate);
    }
    let numerator = match net.checked_mul(reserve_out) {
        Some(v) => v,
        None => return None,
    };
    let denominator = match reserve_in.checked_add(net) {
        Some(v) => v,
        None => return None,
    };
    if denominator == 0 {
        return None;
    }
    let out = numerator / denominator;
    proof {
        lemma_out_le_reserve(net as int, reserve_in as int, reserve_out as int);
    }
    let new_source = match reserve_in.checked_add(amount_in) {
        Some(v) => v,
        None => return None,
    };
    let (protocol_fee, fund_fee) = match split_fee(fee, protocol_fee_rate, fund_fee_rate) {
        Some(p) => p,
        None => return None,
    };
    Some(
        SwapResult {
            new_swap_source_amount: new_source,
            new_swap_destination_amount: reserve_out - out,
            source_amount_swapped: amount_in,
            destination_amount_swapped: out,
            dynamic_fee: fee,
            dynamic_fee_rate: fee_rate,
            protocol_fee,
            fund_fee,
        },
    )
}

/// Protocol and fund shares of `fee`, or `None` where a product overflows.
fn split_fee(fee: u128, protocol_fee_rate: u64, fund_fee_rate: u64) -> (r: Option<(u128, u128)>)
    requires
        protocol_fee_rate + fund_fee_rate <= FEE_RATE_DENOMINATOR_VALUE,
    ensures
        r is Some <==> split_fits(fee as int, protocol_fee_rate, fund_fee_rate),
        r matches Some(p) ==> p.0 == fee_share(fee as int, protocol_fee_rate as int) && p.1
            == fee_share(fee as int, fund_fee_rate as int),
{
    let p = match fee.checked_mul(protocol_fee_rate as u128) {
        Some(v) => v,
        None => return None,
    };
    let f = match fee.checked_mul(fund_fee_rate as u128) {
        Some(v) => v,
        None => return None,
    };
    Some((p / FEE_RATE_DENOMINATOR_VALUE as u128, f / FEE_RATE_DENOMINATOR_VALUE as u128))
}

/// Trade for a fixed output `amount_out`: the input is solved from the
/// curve and rounded up, then grossed up by the fee.
pub fn swap_base_output(
    amount_out: u128,
    reserve_in: u128,
    reserve_out: u128,
    fee_rate: u64,
    protocol_fee_rate: u64,
    fund_fee_rate: u64,
) -> (r: Option<SwapResult>)
    requires
        fee_rate < FEE_RATE_DENOMINATOR_VALUE,
        protocol_fee_rate + fund_fee_rate <= FEE_RATE_DENOMINATOR_VALUE,
    ensures
        r == base_output_result(
            amount_out,
            reserve_in,
            reserve_out,
            fee_rate,
            protocol_fee_rate,
            fund_fee_rate,
        ),
        r matches Some(x) ==> x.protocol_fee + x.fund_fee <= x.dynamic_fee
            && x.dynamic_fee <= x.source_amount_swapped && x.source_amount_swapped
            <= x.new_swap_source_amount,
{
    if amount_out >= reserve_out {
        return None;
    }
    let numerator = match amount_out.checked_mul(reserve_in) {
        Some(v) => v,
        None => return None,
    };
    let net = ceil_div_u128(numerator, reserve_out - amount_out);
    let scaled = match net.checked_mul(FEE_RATE_DENOMINATOR_VALUE as u128) {
        Some(v) => v,
        None => return None,
    };
    let gross = ceil_div_u128(scaled, (FEE_RATE_DENOMINATOR_VALUE - fee_rate) as u128);
    if gross == 0 {
        return None;
    }
    proof {
        lemma_gross_up_ge(net as int, fee_rate as int);
    }
    let fee = gross - net;
    proof {
        lemma_fee_conservation(fee, protocol_fee_rate, fund_fee_rate);
    }
    let new_source = match reserve_in.checked_add(gross) {
        Some(v) => v,
        None => return None,
    };
    let (protocol_fee, fund_fee) = match split_fee(fee, protocol_fee_rate, fund_fee_rate) {
        Some(p) => p,
        None => return None,
    };
    Some(
        SwapResult {
            new_swap_source_amount: new_source,
            new_swap_destination_amount: reserve_out - amount_out,
            source_amount_swapped: gross,
            destination_amount_swapped: amount_out,
            dynamic_fee: fee,
            dynamic_fee_rate: fee_rate,
            protocol_fee,
            fund_fee,
        },
    )
}

proof fn lemma_gross_up_ge(net: int, rate: int)
    requires
        net >= 0,
        0 <= rate < denom(),
    ensures
        gross_up(net, rate) >= net,
        gross_up(net, rate) - trading_fee(gross_up(net, rate), rate) >= net,
{
    let dr = denom() - rate;
    assert(net * denom() >= 0) by (nonlinear_arith)
        requires
            net >= 0,
    ;
    lemma_ceil_div_bounds(net * denom(), dr);
    let g = gross_up(net, rate);
    assert(g >= net) by (nonlinear_arith)
        requires
            g * dr >= net * denom(),
            0 < dr <= denom(),
            net >= 0,
            g >= 0,
    ;
    // g * (D - r) >= net * D, so g * r <= (g - net) * D and the fee on g is at most g - net.
    assert(g * rate <= (g - net) * denom()) by (nonlinear_arith)
        requires
            g * dr >= net * denom(),
            dr == denom() - rate,
    ;
    assert(g * rate >= 0) by (nonlinear_arith)
        requires
            g >= 0,
            rate >= 0,
    ;
    lemma_ceil_div_bounds(g * rate, denom());
    let f = trading_fee(g, rate);
    assert(f <= g - net) by (nonlinear_arith)
        requires
            (f - 1) * denom() < g * rate || g * rate == 0,
            g * rate == 0 ==> f == 0,
            g * rate <= (g - net) * denom(),
            g >= net,
            denom() > 0,
    ;
}

/// Constant product after a base-input trade: the source reserve less the
/// fee, times the destination reserve, is no smaller than before the trade.
pub proof fn lemma_base_input_keeps_invariant(
    amount_in: u128,
    reserve_in: u128,
    reserve_out: u128,
    fee_rate: u64,
    protocol_fee_rate: u64,
    fund_fee_rate: u64,
)
    requires
        fee_rate < FEE_RATE_DENOMINATOR_VALUE,
        base_input_result(
            amount_in,
            reserve_in,
            reserve_out,
            fee_rate,
            protocol_fee_rate,
            fund_fee_rate,
        ) is Some,
    ensures
        ({
            let r = base_input_result(
                amount_in,
                reserve_in,
                reserve_out,
                fee_rate,
                protocol_fee_rate,
                fund_fee_rate,
            )->0;
            (r.new_swap_source_amount - r.dynamic_fee) * r.new_swap_destination_amount
                >= reserve_in * reserve_out
        }),
{
    lemma_trading_fee_le(amount_in as int, fee_rate as int);
    let fee = trading_fee(amount_in as int, fee_rate as int);
    let net = amount_in - fee;
    let d = reserve_in + net;
    lemma_out_le_reserve(net, reserve_in as int, reserve_out as int);
    let out = out_for_net_input(net, reserve_in as int, reserve_out as int);
    vstd::arithmetic::div_mod::lemma_fundamental_div_mod(net * reserve_out, d);
    vstd::arithmetic::div_mod::lemma_mod_pos_bound(net * reserve_out, d);
    assert((reserve_in + net) * (reserve_out - out) >= reserve_in * reserve_out)
        by (nonlinear_arith)
        requires
            net * reserve_out == d * out + (net * reserve_out) % d,
            (net * reserve_out) % d >= 0,
            d == reserve_in + net,
    ;
}

/// Constant product after a base-output trade: the source reserve less the
/// fee, times the destination reserve, is no smaller than before the trade.
pub proof fn lemma_base_output_keeps_invariant(
    amount_out: u128,
    reserve_in: u128,
    reserve_out: u128,
    fee_rate: u64,
    protocol_fee_rate: u64,
    fund_fee_rate: u64,
)
    requires
        fee_rate < FEE_RATE_DENOMINATOR_VALUE,
        base_output_result(
            amount_out,
            reserve_in,
            reserve_out,
            fee_rate,
            protocol_fee_rate,
            fund_fee_rate,
        ) is Some,
    ensures
        ({
            let r = base_output_result(
                amount_out,
                reserve_in,
                reserve_out,
                fee_rate,
                protocol_fee_rate,
                fund_fee_rate,
            )->0;
            (r.new_swap_source_amount - r.dynamic_fee) * r.new_swap_destination_amount
                >= reserve_in * reserve_out
        }),
{
    let gap = reserve_out - amount_out;
    assert(amount_out * reserve_in >= 0) by (nonlinear_arith);
    lemma_ceil_div_bounds(amount_out * reserve_in, gap);
    let net = net_input_for_output(amount_out as int, reserve_in as int, reserve_out as int);
    lemma_gross_up_ge(net, fee_rate as int);
    assert((reserve_in + net) * gap >= reserve_in * reserve_out) by (nonlinear_arith)
        requires
            net * gap >= amount_out * reserve_in,
            gap == reserve_out - amount_out,
    ;
}

/// Round trip: the output that a base-input trade of `amount_in` yields can
/// be bought back by a base-output trade, which asks for exactly that output
/// and at most `amount_in`, rounding being the only difference.
pub proof fn lemma_round_trip(
    amount_in: u128,
    reserve_in: u128,
    reserve_out: u128,
    fee_rate: u64,
    protocol_fee_rate: u64,
    fund_fee_rate: u64,
)
    requires
        amount_in <= u64::MAX,
        0 < reserve_in <= u64::MAX,
        reserve_out <= u64::MAX,
        fee_rate < FEE_RATE_DENOMINATOR_VALUE,
        protocol_fee_rate + fund_fee_rate <= FEE_RATE_DENOMINATOR_VALUE,
        base_input_result(
            amount_in,
            reserve_in,
            reserve_out,
            fee_rate,
            protocol_fee_rate,
            fund_fee_rate,
        ) is Some,
        base_input_result(
            amount_in,
            reserve_in,
            reserve_out,
            fee_rate,
            protocol_fee_rate,
            fund_fee_rate,
        )->0.destination_amount_swapped > 0,
    ensures
        ({
            let d = base_input_result(
                amount_in,
                reserve_in,
                reserve_out,
                fee_rate,
                protocol_fee_rate,
                fund_fee_rate,
            )->0.destination_amount_swapped;
            let back = base_output_result(
                d,
                reserve_in,
                reserve_out,
                fee_rate,
                protocol_fee_rate,
                fund_fee_rate,
            );
            back is Some && back->0.destination_amount_swapped == d
                && back->0.source_amount_swapped <= amount_in
        }),
{
    let a = amount_in as int;
    let rate = fee_rate as int;
    lemma_trading_fee_le(a, rate);
    let fee_in = trading_fee(a, rate);
    let net_in = a - fee_in;
    let den = reserve_in + net_in;
    lemma_out_le_reserve(net_in, reserve_in as int, reserve_out as int);
    let d = out_for_net_input(net_in, reserve_in as int, reserve_out as int);
    assert(d < reserve_out);
    vstd::arithmetic::div_mod::lemma_fundamental_div_mod(net_in * reserve_out, den);
    vstd::arithmetic::div_mod::lemma_mod_pos_bound(net_in * reserve_out, den);
    let gap = reserve_out - d;
    assert(d * reserve_in <= net_in * gap) by (nonlinear_arith)
        requires
            net_in * reserve_out == den * d + (net_in * reserve_out) % den,
            (net_in * reserve_out) % den >= 0,
            den == reserve_in + net_in,
            gap == reserve_out - d,
    ;
    assert(0 <= d * reserve_in <= u64::MAX * u64::MAX) by (nonlinear_arith)
        requires
            0 <= d < reserve_out <= u64::MAX,
            0 < reserve_in <= u64::MAX,
    ;
    lemma_ceil_div_bounds(d * reserve_in, gap);
    let net_out = net_input_for_output(d, reserve_in as int, reserve_out as int);
    assert(net_out <= net_in) by (nonlinear_arith)
        requires
            (net_out - 1) * gap < d * reserve_in || d * reserve_in == 0,
            d * reserve_in == 0 ==> net_out == 0,
            d * reserve_in <= net_in * gap,
            gap > 0,
            net_in >= 0,
    ;
    // The input's fee is at least a * rate / D, so net_in * D <= a * (D - rate).
    assert(a * rate >= 0) by (nonlinear_arith)
        requires
            a >= 0,
            rate >= 0,
    ;
    lemma_ceil_div_bounds(a * rate, denom());
    assert(0 <= net_out * denom() <= a * (denom() - rate)) by (nonlinear_arith)
        requires
            fee_in * denom() >= a * rate,
            net_in == a - fee_in,
            0 <= net_out <= net_in,
    ;
    let dr = denom() - rate;
    lemma_ceil_div_bounds(net_out * denom(), dr);
    let g = gross_up(net_out, rate);
    assert(g <= a) by (nonlinear_arith)
        requires
            (g - 1) * dr < net_out * denom() || net_out * denom() == 0,
            net_out * denom() == 0 ==> g == 0,
            net_out * denom() <= a * dr,
            dr > 0,
            a >= 0,
    ;
    lemma_gross_up_ge(net_out, rate);
    assert(net_out * denom() <= u128::MAX) by (nonlinear_arith)
        requires
            0 <= net_out <= a <= u64::MAX,
            denom() == 1_000_000,
    ;
    assert(g > 0) by (nonlinear_arith)
        requires
            net_out * gap >= d * reserve_in,
            d > 0,
            reserve_in > 0,
            gap > 0,
            g >= net_out,
    ;
    let fee_out = g - net_out;
    assert(split_fits(fee_out, protocol_fee_rate, fund_fee_rate)) by (nonlinear_arith)
        requires
            0 <= fee_out <= g <= a <= u64::MAX,
            protocol_fee_rate + fund_fee_rate <= 1_000_000,
    ;
}

/// Fee conservation: the protocol and fund shares of a fee add up to no more
/// than the fee, so `fee == protocol + fund + retained` with `retained >= 0`.
pub proof fn lemma_fee_conservation(fee: u128, protocol_fee_rate: u64, fund_fee_rate: u64)
    requires
        protocol_fee_rate + fund_fee_rate <= FEE_RATE_DENOMINATOR_VALUE,
    ensures
        fee_share(fee as int, protocol_fee_rate as int) + fee_share(
            fee as int,
            fund_fee_rate as int,
        ) <= fee,
{
    let p = fee * protocol_fee_rate;
    let f = fee * fund_fee_rate;
    assert(p >= 0 && f >= 0 && p + f <= fee * denom()) by (nonlinear_arith)
        requires
            p == fee * protocol_fee_rate,
            f == fee * fund_fee_rate,
            protocol_fee_rate + fund_fee_rate <= denom(),
            fee >= 0,
    ;
    vstd::arithmetic::div_mod::lemma_fundamental_div_mod(p, denom());
    vstd::arithmetic::div_mod::lemma_fundamental_div_mod(f, denom());
    vstd::arithmetic::div_mod::lemma_mod_pos_bound(p, denom());
    vstd::arithmetic::div_mod::lemma_mod_pos_bound(f, denom());
    let qp = p / denom();
    let qf = f / denom();
    assert(qp + qf <= fee) by (nonlinear_arith)
        requires
            p == denom() * qp + p % denom(),
            f == denom() * qf + f % denom(),
            p % denom() >= 0,
            f % denom() >= 0,
            p + f <= fee * denom(),
            denom() > 0,
    ;
}

/// The parts of a base-output trade's fee: protocol and fund within the fee,
/// the fee within the gross input.
pub proof fn lemma_base_output_fee_parts(
    amount_out: u128,
    reserve_in: u128,
    reserve_out: u128,
    fee_rate: u64,
    protocol_fee_rate: u64,
    fund_fee_rate: u64,
)
    requires
        fee_rate < FEE_RATE_DENOMINATOR_VALUE,
        protocol_fee_rate + fund_fee_rate <= FEE_RATE_DENOMINATOR_VALUE,
        base_output_result(
            amount_out,
            reserve_in,
            reserve_out,
            fee_rate,
            protocol_fee_rate,
            fund_fee_rate,
        ) is Some,
    ensures
        ({
            let r = base_output_result(
                amount_out,
                reserve_in,
                reserve_out,
                fee_rate,
                protocol_fee_rate,
                fund_fee_rate,
            )->0;
            r.protocol_fee + r.fund_fee <= r.dynamic_fee <= r.source_amount_swapped
        }),
{
    let gap = reserve_out - amount_out;
    assert(amount_out * reserve_in >= 0) by (nonlinear_arith);
    lemma_ceil_div_bounds(amount_out * reserve_in, gap);
    let net = net_input_for_output(amount_out as int, reserve_in as int, reserve_out as int);
    lemma_gross_up_ge(net, fee_rate as int);
    let fee = gross_up(net, fee_rate as int) - net;
    lemma_fee_conservation(fee as u128, protocol_fee_rate, fund_fee_rate);
}

/// The parts of a base-input trade's fee: protocol and fund within the fee,
/// the fee within the gross input.
pub proof fn lemma_base_input_fee_parts(
    amount_in: u128,
    reserve_in: u128,
    reserve_out: u128,
    fee_rate: u64,
    protocol_fee_rate: u64,
    fund_fee_rate: u64,
)
    requires
        fee_rate < FEE_RATE_DENOMINATOR_VALUE,
        protocol_fee_rate + fund_fee_rate <= FEE_RATE_DENOMINATOR_VALUE,
        base_input_result(
            amount_in,
            reserve_in,
            reserve_out,
            fee_rate,
            protocol_fee_rate,
            fund_fee_rate,
        ) is Some,
    ensures
        ({
            let r = base_input_result(
                amount_in,
                reserve_in,
                reserve_out,
                fee_rate,
                protocol_fee_rate,
                fund_fee_rate,
            )->0;
            r.protocol_fee + r.fund_fee <= r.dynamic_fee <= r.source_amount_swapped
        }),
{
    lemma_trading_fee_le(amount_in as int, fee_rate as int);
    let fee = trading_fee(amount_in as int, fee_rate as int);
    lemma_fee_conservation(fee as u128, protocol_fee_rate, fund_fee_rate);
}

} // verus!
