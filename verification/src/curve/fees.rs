//! Fees in parts per million: the trade fee and the creator fee round up,
//! the protocol and fund shares of a trade fee round down.

use vstd::prelude::*;
use crate::math::{lemma_ceil_div, lemma_floor_div, lemma_u64_product_fits};

verus! {

/// Fee rates are expressed in parts per this denominator.
pub const FEE_RATE_DENOMINATOR: u64 = 1_000_000;

/// The share `amount * rate / 1_000_000` of an amount, rounded down.
pub open spec fn fee_floor(amount: int, rate: int) -> int {
    (amount * rate) / 1_000_000
}

/// The share `amount * rate / 1_000_000` of an amount, rounded up.
pub open spec fn fee_ceil(amount: int, rate: int) -> int {
    (amount * rate + 999_999) / 1_000_000
}

/// The gross amount that leaves `net` once the trade fee at `rate` is taken
/// from it: `net * 1_000_000 / (1_000_000 - rate)`, rounded up.
pub open spec fn gross_for_net(net: int, rate: int) -> int {
    (net * 1_000_000 + (1_000_000 - rate - 1)) / (1_000_000 - rate)
}

/// What the rounded-down share is in 128-bit arithmetic: `None` when the
/// product `amount * rate` does not fit.
pub open spec fn checked_fee_floor(amount: u128, rate: u64) -> Option<u128> {
    if amount * rate <= u128::MAX {
        Some(fee_floor(amount as int, rate as int) as u128)
    } else {
        None
    }
}

/// What the rounded-up share is in 128-bit arithmetic: `None` when the
/// product `amount * rate`, or that product plus `999_999`, does not fit.
pub open spec fn checked_fee_ceil(amount: u128, rate: u64) -> Option<u128> {
    if amount * rate + 999_999 <= u128::MAX {
        Some(fee_ceil(amount as int, rate as int) as u128)
    } else {
        None
    }
}

/// What grossing up a net amount is in 128-bit arithmetic: `None` when the
/// rate leaves nothing of an amount (`rate >= 1_000_000`), or when the
/// dividend after rounding up does not fit.
pub open spec fn checked_gross_for_net(net: u128, rate: u64) -> Option<u128> {
    if rate >= 1_000_000 || net * 1_000_000 + (1_000_000 - rate - 1) > u128::MAX {
        None
    } else {
        Some(gross_for_net(net as int, rate as int) as u128)
    }
}

/// `amount * rate / 1_000_000`, rounded down.
fn floor_div(amount: u128, rate: u64) -> (r: Option<u128>)
    ensures
        r == checked_fee_floor(amount, rate),
{
    let product = amount.checked_mul(rate as u128)?;
    product.checked_div(FEE_RATE_DENOMINATOR as u128)
}

/// `amount * rate / 1_000_000`, rounded up.
fn ceil_div(amount: u128, rate: u64) -> (r: Option<u128>)
    ensures
        r == checked_fee_ceil(amount, rate),
{
    let x = amount.checked_mul(rate as u128)?;
    let y = FEE_RATE_DENOMINATOR as u128;
    let num = x.checked_add(y - 1)?;
    num.checked_div(y)
}

/// Trade fee on a gross amount: rounds up, so the pool never collects less
/// than the stated rate.
pub fn trade_fee(amount: u128, rate: u64) -> (r: Option<u128>)
    ensures
        r == checked_fee_ceil(amount, rate),
{
    ceil_div(amount, rate)
}

/// Protocol share carved out of a trade fee: rounds down.
pub fn protocol_fee(trade_fee: u128, rate: u64) -> (r: Option<u128>)
    ensures
        r == checked_fee_floor(trade_fee, rate),
{
    floor_div(trade_fee, rate)
}

/// Fund share carved out of a trade fee: rounds down.
pub fn fund_fee(trade_fee: u128, rate: u64) -> (r: Option<u128>)
    ensures
        r == checked_fee_floor(trade_fee, rate),
{
    floor_div(trade_fee, rate)
}

/// Creator fee on an amount: rounds up.
pub fn creator_fee(amount: u128, rate: u64) -> (r: Option<u128>)
    ensures
        r == checked_fee_ceil(amount, rate),
{
    ceil_div(amount, rate)
}

/// The gross amount to pay in so that `net_amount` is left once the trade
/// fee at `rate` is taken from it: rounds up, so the pool never prices more
/// than it was paid after fees.
pub fn gross_amount(net_amount: u128, rate: u64) -> (r: Option<u128>)
    ensures
        r == checked_gross_for_net(net_amount, rate),
{
    let scaled = net_amount.checked_mul(FEE_RATE_DENOMINATOR as u128)?;
    let kept = (FEE_RATE_DENOMINATOR as u128).checked_sub(rate as u128)?;
    if kept == 0 {
        return None;
    }
    let dividend = scaled.checked_add(kept - 1)?;
    dividend.checked_div(kept)
}

/// The direction of each rounding: a share that rounds down never exceeds
/// the stated rate of the amount, and a fee that rounds up never falls short
/// of it; either is less than one unit away from it.
pub proof fn lemma_fee_rounding(amount: int, rate: int)
    requires
        0 <= amount,
        0 <= rate,
    ensures
        0 <= fee_floor(amount, rate) <= fee_ceil(amount, rate) <= fee_floor(amount, rate) + 1,
        fee_floor(amount, rate) * 1_000_000 <= amount * rate,
        amount * rate <= fee_ceil(amount, rate) * 1_000_000,
        amount * rate < fee_floor(amount, rate) * 1_000_000 + 1_000_000,
        fee_ceil(amount, rate) * 1_000_000 < amount * rate + 1_000_000,
{
    assert(0 <= amount * rate) by (nonlinear_arith)
        requires
            0 <= amount,
            0 <= rate,
    ;
    lemma_floor_div(amount * rate, 1_000_000);
    lemma_ceil_div(amount * rate, 1_000_000);
}

/// Fee conservation: under rates that together stay below the whole, the
/// protocol and the fund share carved out of a trade fee never add up to
/// more than that fee, and to less than it where there is a fee at all.
pub proof fn lemma_fee_split_within_trade_fee(trade_fee: int, protocol_rate: int, fund_rate: int)
    requires
        0 <= trade_fee,
        0 <= protocol_rate,
        0 <= fund_rate,
        protocol_rate + fund_rate < 1_000_000,
    ensures
        0 <= fee_floor(trade_fee, protocol_rate),
        0 <= fee_floor(trade_fee, fund_rate),
        fee_floor(trade_fee, protocol_rate) + fee_floor(trade_fee, fund_rate) <= trade_fee,
        0 < trade_fee ==> fee_floor(trade_fee, protocol_rate) + fee_floor(trade_fee, fund_rate)
            < trade_fee,
{
    assert(0 <= trade_fee * protocol_rate && 0 <= trade_fee * fund_rate) by (nonlinear_arith)
        requires
            0 <= trade_fee,
            0 <= protocol_rate,
            0 <= fund_rate,
    ;
    lemma_floor_div(trade_fee * protocol_rate, 1_000_000);
    lemma_floor_div(trade_fee * fund_rate, 1_000_000);
    assert(trade_fee * protocol_rate + trade_fee * fund_rate <= trade_fee * 999_999)
        by (nonlinear_arith)
        requires
            0 <= trade_fee,
            protocol_rate + fund_rate <= 999_999,
    ;
}

/// Fee conservation in 128-bit arithmetic: where both shares of a trade fee
/// exist, they add up to no more than the fee, and both exist for every
/// trade fee that fits 64 bits.
pub proof fn lemma_checked_fee_split(trade_fee: u128, protocol_rate: u64, fund_rate: u64)
    requires
        protocol_rate + fund_rate < 1_000_000,
    ensures
        checked_fee_floor(trade_fee, protocol_rate) matches Some(protocol) ==> (checked_fee_floor(
            trade_fee,
            fund_rate,
        ) matches Some(fund) ==> protocol + fund <= trade_fee),
        trade_fee <= u64::MAX ==> checked_fee_floor(trade_fee, protocol_rate) is Some
            && checked_fee_floor(trade_fee, fund_rate) is Some,
{
    lemma_fee_split_within_trade_fee(trade_fee as int, protocol_rate as int, fund_rate as int);
    if trade_fee <= u64::MAX {
        lemma_u64_product_fits(trade_fee as u64, protocol_rate);
        lemma_u64_product_fits(trade_fee as u64, fund_rate);
    }
}

/// A fee that rounds up stays within the amount it is taken from, as long
/// as the rate is at most the whole.
pub proof fn lemma_fee_ceil_within_amount(amount: int, rate: int)
    requires
        0 <= amount,
        0 <= rate <= 1_000_000,
    ensures
        0 <= fee_ceil(amount, rate) <= amount,
{
    assert(0 <= amount * rate <= amount * 1_000_000) by (nonlinear_arith)
        requires
            0 <= amount,
            0 <= rate <= 1_000_000,
    ;
    lemma_ceil_div(amount * rate, 1_000_000);
}

/// Grossing up a net amount and taking the trade fee from the result gives
/// the net amount back, exactly.
pub proof fn lemma_gross_for_net_inverts_fee(net: int, rate: int)
    requires
        0 <= net,
        0 <= rate < 1_000_000,
    ensures
        net <= gross_for_net(net, rate) <= net * 1_000_000,
        gross_for_net(net, rate) - fee_ceil(gross_for_net(net, rate), rate) == net,
{
    let d = 1_000_000 - rate;
    let g = gross_for_net(net, rate);
    lemma_ceil_div(net * 1_000_000, d);
    assert(net <= g) by (nonlinear_arith)
        requires
            net * 1_000_000 <= g * d,
            0 < d <= 1_000_000,
            0 <= net,
    ;
    assert(g <= net * 1_000_000) by (nonlinear_arith)
        requires
            g * d < net * 1_000_000 + d,
            1 <= d,
            0 <= net,
    ;
    lemma_ceil_div(g * rate, 1_000_000);
    assert(g * d == g * 1_000_000 - g * rate) by (nonlinear_arith)
        requires
            d == 1_000_000 - rate,
    ;
}

/// Under valid rates the three shares accrued on a trade stay within the
/// gross amount that the trade pays in, so the vault that receives the gross
/// amount still covers the fees accrued in it.
pub proof fn lemma_accrued_shares_within_gross(
    amount: int,
    trade_rate: int,
    protocol_rate: int,
    fund_rate: int,
    creator_rate: int,
)
    requires
        0 <= amount,
        0 <= trade_rate,
        0 <= protocol_rate,
        0 <= fund_rate,
        0 <= creator_rate,
        trade_rate + creator_rate < 1_000_000,
        protocol_rate + fund_rate < 1_000_000,
    ensures
        fee_floor(fee_ceil(amount, trade_rate), protocol_rate) + fee_floor(
            fee_ceil(amount, trade_rate),
            fund_rate,
        ) + fee_ceil(amount, creator_rate) <= amount,
{
    let fee = fee_ceil(amount, trade_rate);
    lemma_fee_ceil_within_amount(amount, trade_rate);
    lemma_fee_ceil_within_amount(amount, creator_rate);
    lemma_fee_split_within_trade_fee(fee, protocol_rate, fund_rate);
    if 0 < fee {
        lemma_ceil_div(amount * trade_rate, 1_000_000);
        lemma_ceil_div(amount * creator_rate, 1_000_000);
        assert(amount * trade_rate + amount * creator_rate <= amount * 999_999)
            by (nonlinear_arith)
            requires
                0 <= amount,
                trade_rate + creator_rate <= 999_999,
        ;
    }
}

} // verus!
