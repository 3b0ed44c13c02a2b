//! Swap for an exact output.

use vstd::prelude::*;
use crate::curve::constant_product::{
    input_for_exact_output,
    lemma_exact_output_keeps_product,
    lemma_input_for_exact_output_bounds,
    swap_base_output_without_fees,
};
use crate::curve::fees::{gross_amount, gross_for_net, lemma_gross_for_net_inverts_fee};
use crate::curve::guard::{check_constant_product, product_kept};
use crate::error::ErrorCode;
use crate::instructions::fee_split::split_fees;
use crate::math::lemma_u64_product_fits;
use crate::states::config::AmmConfig;
use crate::states::pool::{PoolState, PoolStatusBitIndex, TradeDirection};
use crate::states::quote::SwapQuote;

verus! {

/// What an exact-output swap comes to: the reason it is rejected, or the
/// quote it is accepted at. Rejections are tested in the order written.
///
/// The curve gives the input to price for the output; that input is grossed
/// up by the trade fee rate, and the fees are taken from the gross input.
/// What is left of the gross input after the trade fee is the priced input
/// again. No rejection for the product of the reserves appears: an input
/// rounded up cannot lower it, so the guard that every swap passes through
/// never fires.
pub open spec fn exact_output_swap(
    pool: PoolState,
    config: AmmConfig,
    direction: TradeDirection,
    vault_0_amount: u64,
    vault_1_amount: u64,
    amount_out: u64,
    maximum_amount_in: u64,
    current_time: u64,
) -> Result<SwapQuote, ErrorCode> {
    let reserve_in = pool.clean_reserve_in(direction, vault_0_amount, vault_1_amount);
    let reserve_out = pool.clean_reserve_out(direction, vault_0_amount, vault_1_amount);
    let net = input_for_exact_output(amount_out as int, reserve_in, reserve_out);
    let gross = gross_for_net(net, config.trade_fee_rate as int);
    let fee = config.trade_fee_on(gross);
    let protocol = config.protocol_share(gross);
    let fund = config.fund_share(gross);
    let creator = config.creator_share(gross, pool.creator_fee_active);
    if !pool.enabled(PoolStatusBitIndex::Swap) || current_time < pool.open_time {
        Err(ErrorCode::SwapBlocked)
    } else if amount_out == 0 {
        Err(ErrorCode::InvalidTokenAmount)
    } else if !pool.fees_covered(vault_0_amount, vault_1_amount) {
        Err(ErrorCode::MathOverflow)
    } else if amount_out >= reserve_out {
        Err(ErrorCode::InsufficientLiquidity)
    } else if net > u64::MAX || config.trade_fee_rate >= 1_000_000 || !config.shares_fit(
        gross,
        pool.creator_fee_active,
    ) || !pool.can_accrue(direction, protocol, fund, creator) {
        Err(ErrorCode::MathOverflow)
    } else if gross > maximum_amount_in {
        Err(ErrorCode::SlippageExceeded)
    } else {
        Ok(
            SwapQuote {
                direction,
                input_amount: gross as u64,
                output_amount: amount_out,
                trade_fee: fee as u64,
                protocol_fee: protocol as u64,
                fund_fee: fund as u64,
                creator_fee: creator as u64,
                net_input: net as u64,
                input_reserve_after: (reserve_in + net) as u128,
                output_reserve_after: (reserve_out - amount_out) as u128,
            },
        )
    }
}

/// Invariant monotonicity: every accepted exact-output swap, whatever the
/// rates, leaves reserves whose product is at least the product before.
pub proof fn lemma_exact_output_swap_keeps_product(
    pool: PoolState,
    config: AmmConfig,
    direction: TradeDirection,
    vault_0_amount: u64,
    vault_1_amount: u64,
    amount_out: u64,
    maximum_amount_in: u64,
    current_time: u64,
)
    requires
        exact_output_swap(
            pool,
            config,
            direction,
            vault_0_amount,
            vault_1_amount,
            amount_out,
            maximum_amount_in,
            current_time,
        ) is Ok,
    ensures
        ({
            let quote = exact_output_swap(
                pool,
                config,
                direction,
                vault_0_amount,
                vault_1_amount,
                amount_out,
                maximum_amount_in,
                current_time,
            )->Ok_0;
            let reserve_in = pool.clean_reserve_in(direction, vault_0_amount, vault_1_amount);
            let reserve_out = pool.clean_reserve_out(direction, vault_0_amount, vault_1_amount);
            &&& quote.input_reserve_after == reserve_in + quote.net_input
            &&& quote.output_reserve_after == reserve_out - quote.output_amount
            &&& quote.net_input == quote.input_amount - quote.trade_fee
            &&& reserve_in * reserve_out <= quote.input_reserve_after * quote.output_reserve_after
        }),
{
    let reserve_in = pool.clean_reserve_in(direction, vault_0_amount, vault_1_amount);
    let reserve_out = pool.clean_reserve_out(direction, vault_0_amount, vault_1_amount);
    let net = input_for_exact_output(amount_out as int, reserve_in, reserve_out);
    lemma_input_for_exact_output_bounds(amount_out as int, reserve_in, reserve_out);
    lemma_gross_for_net_inverts_fee(net, config.trade_fee_rate as int);
    lemma_exact_output_keeps_product(amount_out as int, reserve_in, reserve_out, net);
}

/// What holds of every exact-output swap that is accepted under valid rates.
/// The fee shares are conserved: protocol and fund share stay within the
/// trade fee, and all that accrues stays within the gross input. The gross
/// input less the trade fee is exactly the input that the curve asks for the
/// output, and the output leaves the clean output reserve non-empty. Once
/// the host has moved the amounts, each vault still covers the fees accrued
/// in its token. And where no creator fee accrues, the clean reserves that
/// the next operation finds have a product no lower than before.
pub proof fn lemma_exact_output_swap_accounting(
    pool: PoolState,
    config: AmmConfig,
    direction: TradeDirection,
    vault_0_amount: u64,
    vault_1_amount: u64,
    amount_out: u64,
    maximum_amount_in: u64,
    current_time: u64,
)
    requires
        config.rates_valid(),
        exact_output_swap(
            pool,
            config,
            direction,
            vault_0_amount,
            vault_1_amount,
            amount_out,
            maximum_amount_in,
            current_time,
        ) is Ok,
    ensures
        ({
            let quote = exact_output_swap(
                pool,
                config,
                direction,
                vault_0_amount,
                vault_1_amount,
                amount_out,
                maximum_amount_in,
                current_time,
            )->Ok_0;
            let after = pool.with_fees_accrued(
                direction,
                quote.protocol_fee,
                quote.fund_fee,
                quote.creator_fee,
            );
            let reserve_in = pool.clean_reserve_in(direction, vault_0_amount, vault_1_amount);
            let reserve_out = pool.clean_reserve_out(direction, vault_0_amount, vault_1_amount);
            &&& quote.protocol_fee + quote.fund_fee <= quote.trade_fee
            &&& quote.trade_fee + quote.net_input == quote.input_amount
            &&& quote.net_input == input_for_exact_output(
                amount_out as int,
                reserve_in,
                reserve_out,
            )
            &&& quote.protocol_fee + quote.fund_fee + quote.creator_fee <= quote.input_amount
            &&& quote.input_amount <= maximum_amount_in
            &&& 0 < quote.output_amount < reserve_out
            &&& after.total_fees_0() <= quote.vault_0_after(vault_0_amount)
            &&& after.total_fees_1() <= quote.vault_1_after(vault_1_amount)
            &&& quote.creator_fee == 0 ==> product_kept(
                reserve_in,
                reserve_out,
                reserve_in + quote.input_amount - quote.protocol_fee - quote.fund_fee,
                reserve_out - quote.output_amount,
            )
        }),
{
    let reserve_in = pool.clean_reserve_in(direction, vault_0_amount, vault_1_amount);
    let reserve_out = pool.clean_reserve_out(direction, vault_0_amount, vault_1_amount);
    let net = input_for_exact_output(amount_out as int, reserve_in, reserve_out);
    let gross = gross_for_net(net, config.trade_fee_rate as int);
    lemma_input_for_exact_output_bounds(amount_out as int, reserve_in, reserve_out);
    lemma_gross_for_net_inverts_fee(net, config.trade_fee_rate as int);
    config.lemma_fee_conservation(gross, pool.creator_fee_active);
    let kept = gross - config.protocol_share(gross) - config.fund_share(gross);
    lemma_exact_output_keeps_product(amount_out as int, reserve_in, reserve_out, kept);
}

/// Swaps what the curve and the fees ask for an exact output. The swap must
/// be enabled and the pool open, the output positive and less than the clean
/// output reserve, and the gross input at most the caller's maximum. An
/// output that would drain the output reserve is refused before anything is
/// divided by what would be left. The pool accrues the fee shares of an
/// accepted swap and is left as it was by a rejected one. An accepted swap
/// never lowers the product of the clean reserves.
pub fn swap_base_output(
    pool_state: &mut PoolState,
    amm_config: &AmmConfig,
    direction: TradeDirection,
    vault_0_amount: u64,
    vault_1_amount: u64,
    amount_out: u64,
    maximum_amount_in: u64,
    current_time: u64,
) -> (r: Result<SwapQuote, ErrorCode>)
    ensures
        r == exact_output_swap(
            *old(pool_state),
            *amm_config,
            direction,
            vault_0_amount,
            vault_1_amount,
            amount_out,
            maximum_amount_in,
            current_time,
        ),
        match r {
            Ok(quote) => {
                &&& *final(pool_state) == old(pool_state).with_fees_accrued(
                    direction,
                    quote.protocol_fee,
                    quote.fund_fee,
                    quote.creator_fee,
                )
                &&& quote.net_input == quote.input_amount - quote.trade_fee
                &&& product_kept(
                    old(pool_state).clean_reserve_in(direction, vault_0_amount, vault_1_amount),
                    old(pool_state).clean_reserve_out(direction, vault_0_amount, vault_1_amount),
                    quote.input_reserve_after as int,
                    quote.output_reserve_after as int,
                )
            },
            Err(_) => *final(pool_state) == *old(pool_state),
        },
{
    if !pool_state.is_enabled(PoolStatusBitIndex::Swap) {
        return Err(ErrorCode::SwapBlocked);
    }
    if current_time < pool_state.open_time {
        return Err(ErrorCode::SwapBlocked);
    }
    if amount_out == 0 {
        return Err(ErrorCode::InvalidTokenAmount);
    }
    let (clean_0, clean_1) = match pool_state.vault_amount_without_fee(
        vault_0_amount,
        vault_1_amount,
    ) {
        Ok(clean) => clean,
        Err(e) => { return Err(e); },
    };
    let (reserve_in, reserve_out) = match direction {
        TradeDirection::ZeroForOne => (clean_0, clean_1),
        TradeDirection::OneForZero => (clean_1, clean_0),
    };
    if amount_out >= reserve_out {
        return Err(ErrorCode::InsufficientLiquidity);
    }
    proof {
        lemma_u64_product_fits(reserve_in, amount_out);
        lemma_u64_product_fits(reserve_in, reserve_out);
        lemma_input_for_exact_output_bounds(
            amount_out as int,
            reserve_in as int,
            reserve_out as int,
        );
    }
    let input_without_fee = match swap_base_output_without_fees(
        amount_out as u128,
        reserve_in as u128,
        reserve_out as u128,
    ) {
        Some(input) => input,
        None => { return Err(ErrorCode::MathOverflow); },
    };
    if input_without_fee > u64::MAX as u128 {
        return Err(ErrorCode::MathOverflow);
    }
    proof {
        if amm_config.trade_fee_rate < 1_000_000 {
            lemma_gross_for_net_inverts_fee(
                input_without_fee as int,
                amm_config.trade_fee_rate as int,
            );
        }
    }
    let gross = match gross_amount(input_without_fee, amm_config.trade_fee_rate) {
        Some(gross) => gross,
        None => { return Err(ErrorCode::MathOverflow); },
    };
    let (fee, protocol, fund, creator) = match split_fees(
        gross,
        amm_config,
        pool_state.creator_fee_active,
    ) {
        Some(split) => split,
        None => { return Err(ErrorCode::MathOverflow); },
    };
    let mut accrued = *pool_state;
    match accrued.accrue_fees(direction, protocol, fund, creator) {
        Ok(()) => {},
        Err(e) => { return Err(e); },
    }
    if gross > maximum_amount_in as u128 {
        return Err(ErrorCode::SlippageExceeded);
    }
    let net: u128 = gross - fee;
    let input_reserve_after: u128 = reserve_in as u128 + net;
    let output_reserve_after: u128 = (reserve_out - amount_out) as u128;
    proof {
        lemma_exact_output_keeps_product(
            amount_out as int,
            reserve_in as int,
            reserve_out as int,
            net as int,
        );
    }
    match check_constant_product(
        reserve_in as u128,
        reserve_out as u128,
        input_reserve_after,
        output_reserve_after,
    ) {
        Ok(()) => {},
        Err(e) => { return Err(e); },
    }
    *pool_state = accrued;
    Ok(
        SwapQuote {
            direction,
            input_amount: gross as u64,
            output_amount: amount_out,
            trade_fee: fee as u64,
            protocol_fee: protocol,
            fund_fee: fund,
            creator_fee: creator,
            net_input: net as u64,
            input_reserve_after,
            output_reserve_after,
        },
    )
}

} // verus!
