//! Swap of an exact input.

use vstd::prelude::*;
use crate::curve::constant_product::{
    lemma_exact_input_keeps_product,
    lemma_output_for_exact_input_bounds,
    output_for_exact_input,
    swap_base_input_without_fees,
};
use crate::curve::guard::{check_constant_product, product_kept};
use crate::error::ErrorCode;
use crate::instructions::fee_split::split_fees;
use crate::math::lemma_u64_product_fits;
use crate::states::config::AmmConfig;
use crate::states::pool::{PoolState, PoolStatusBitIndex, TradeDirection};
use crate::states::quote::SwapQuote;

verus! {

/// What an exact-input swap comes to: the reason it is rejected, or the
/// quote it is accepted at. Rejections are tested in the order written.
///
/// The trade fee is taken from the gross input and the rest is priced on the
/// clean reserves. No rejection for the product of the reserves appears: an
/// output rounded down cannot lower it, so the guard that every swap passes
/// through never fires.
pub open spec fn exact_input_swap(
    pool: PoolState,
    config: AmmConfig,
    direction: TradeDirection,
    vault_0_amount: u64,
    vault_1_amount: u64,
    amount_in: u64,
    minimum_amount_out: u64,
    current_time: u64,
) -> Result<SwapQuote, ErrorCode> {
    let reserve_in = pool.clean_reserve_in(direction, vault_0_amount, vault_1_amount);
    let reserve_out = pool.clean_reserve_out(direction, vault_0_amount, vault_1_amount);
    let fee = config.trade_fee_on(amount_in as int);
    let protocol = config.protocol_share(amount_in as int);
    let fund = config.fund_share(amount_in as int);
    let creator = config.creator_share(amount_in as int, pool.creator_fee_active);
    let net = amount_in - fee;
    let output = output_for_exact_input(net, reserve_in, reserve_out);
    if !pool.enabled(PoolStatusBitIndex::Swap) || current_time < pool.open_time {
        Err(ErrorCode::SwapBlocked)
    } else if amount_in == 0 {
        Err(ErrorCode::InvalidTokenAmount)
    } else if !pool.fees_covered(vault_0_amount, vault_1_amount) || !config.shares_fit(
        amount_in as int,
        pool.creator_fee_active,
    ) || !pool.can_accrue(direction, protocol, fund, creator) || reserve_in + net == 0 {
        Err(ErrorCode::MathOverflow)
    } else if output == 0 {
        Err(ErrorCode::ZeroTradingTokens)
    } else if output < minimum_amount_out {
        Err(ErrorCode::SlippageExceeded)
    } else {
        Ok(
            SwapQuote {
                direction,
                input_amount: amount_in,
                output_amount: output as u64,
                trade_fee: fee as u64,
                protocol_fee: protocol as u64,
                fund_fee: fund as u64,
                creator_fee: creator as u64,
                net_input: net as u64,
                input_reserve_after: (reserve_in + net) as u128,
                output_reserve_after: (reserve_out - output) as u128,
            },
        )
    }
}

/// Invariant monotonicity: every accepted exact-input swap, whatever the
/// rates, leaves reserves whose product is at least the product before.
pub proof fn lemma_exact_input_swap_keeps_product(
    pool: PoolState,
    config: AmmConfig,
    direction: TradeDirection,
    vault_0_amount: u64,
    vault_1_amount: u64,
    amount_in: u64,
    minimum_amount_out: u64,
    current_time: u64,
)
    requires
        exact_input_swap(
            pool,
            config,
            direction,
            vault_0_amount,
            vault_1_amount,
            amount_in,
            minimum_amount_out,
            current_time,
        ) is Ok,
    ensures
        ({
            let quote = exact_input_swap(
                pool,
                config,
                direction,
                vault_0_amount,
                vault_1_amount,
                amount_in,
                minimum_amount_out,
                current_time,
            )->Ok_0;
            let reserve_in = pool.clean_reserve_in(direction, vault_0_amount, vault_1_amount);
            let reserve_out = pool.clean_reserve_out(direction, vault_0_amount, vault_1_amount);
            &&& quote.input_reserve_after == reserve_in + quote.net_input
            &&& quote.output_reserve_after == reserve_out - quote.output_amount
            &&& reserve_in * reserve_out <= quote.input_reserve_after * quote.output_reserve_after
        }),
{
    let reserve_in = pool.clean_reserve_in(direction, vault_0_amount, vault_1_amount);
    let reserve_out = pool.clean_reserve_out(direction, vault_0_amount, vault_1_amount);
    let net = amount_in - config.trade_fee_on(amount_in as int);
    lemma_output_for_exact_input_bounds(net, reserve_in, reserve_out);
    lemma_exact_input_keeps_product(net, reserve_in, reserve_out);
}

/// What holds of every exact-input swap that is accepted under valid rates.
/// The fee shares are conserved: protocol and fund share stay within the
/// trade fee, and all that accrues stays within the gross input. The output
/// is positive and within the clean output reserve. Once the host has moved
/// the amounts, each vault still covers the fees accrued in its token. And
/// where no creator fee accrues, the clean reserves that the next operation
/// finds have a product no lower than before.
pub proof fn lemma_exact_input_swap_accounting(
    pool: PoolState,
    config: AmmConfig,
    direction: TradeDirection,
    vault_0_amount: u64,
    vault_1_amount: u64,
    amount_in: u64,
    minimum_amount_out: u64,
    current_time: u64,
)
    requires
        config.rates_valid(),
        exact_input_swap(
            pool,
            config,
            direction,
            vault_0_amount,
            vault_1_amount,
            amount_in,
            minimum_amount_out,
            current_time,
        ) is Ok,
    ensures
        ({
            let quote = exact_input_swap(
                pool,
                config,
                direction,
                vault_0_amount,
                vault_1_amount,
                amount_in,
                minimum_amount_out,
                current_time,
            )->Ok_0;
            let after = pool.with_fees_accrued(
                direction,
                quote.protocol_fee,
                quote.fund_fee,
                quote.creator_fee,
            );
            let reserve_in = pool.clean_reserve_in(direction, vault_0_amount, vault_1_amount);
            let reserve_out = pool.clean_reserve_out(direction, vault_0_amount, vault_1_amount);
            &&& quote.protocol_fee + quote.fund_fee <= quote.trade_fee
            &&& quote.trade_fee + quote.net_input == quote.input_amount
            &&& quote.protocol_fee + quote.fund_fee + quote.creator_fee <= quote.input_amount
            &&& 0 < quote.output_amount <= reserve_out
            &&& minimum_amount_out <= quote.output_amount
            &&& after.total_fees_0() <= quote.vault_0_after(vault_0_amount)
            &&& after.total_fees_1() <= quote.vault_1_after(vault_1_amount)
            &&& quote.creator_fee == 0 ==> product_kept(
                reserve_in,
                reserve_out,
                reserve_in + quote.input_amount - quote.protocol_fee - quote.fund_fee,
                reserve_out - quote.output_amount,
            )
        }),
{
    let reserve_in = pool.clean_reserve_in(direction, vault_0_amount, vault_1_amount);
    let reserve_out = pool.clean_reserve_out(direction, vault_0_amount, vault_1_amount);
    config.lemma_fee_conservation(amount_in as int, pool.creator_fee_active);
    let fee = config.trade_fee_on(amount_in as int);
    let net = amount_in - fee;
    let kept = amount_in - config.protocol_share(amount_in as int) - config.fund_share(
        amount_in as int,
    );
    let output = output_for_exact_input(net, reserve_in, reserve_out);
    lemma_output_for_exact_input_bounds(net, reserve_in, reserve_out);
    lemma_exact_input_keeps_product(net, reserve_in, reserve_out);
    assert((reserve_in + net) * (reserve_out - output) <= (reserve_in + kept) * (reserve_out
        - output)) by (nonlinear_arith)
        requires
            net <= kept,
            0 <= reserve_out - output,
    ;
}

/// Swaps an exact input for what the curve gives for it. The swap must be
/// enabled and the pool open, the input positive, the output positive and at
/// least the caller's minimum. The pool accrues the fee shares of an accepted
/// swap and is left as it was by a rejected one. An accepted swap never
/// lowers the product of the clean reserves.
pub fn swap(
    pool_state: &mut PoolState,
    amm_config: &AmmConfig,
    direction: TradeDirection,
    vault_0_amount: u64,
    vault_1_amount: u64,
    amount_in: u64,
    minimum_amount_out: u64,
    current_time: u64,
) -> (r: Result<SwapQuote, ErrorCode>)
    ensures
        r == exact_input_swap(
            *old(pool_state),
            *amm_config,
            direction,
            vault_0_amount,
            vault_1_amount,
            amount_in,
            minimum_amount_out,
            current_time,
        ),
        match r {
            Ok(quote) => {
                &&& *final(pool_state) == old(pool_state).with_fees_accrued(
                    direction,
                    quote.protocol_fee,
                    quote.fund_fee,
                    quote.creator_fee,
                )
                &&& product_kept(
                    old(pool_state).clean_reserve_in(direction, vault_0_amount, vault_1_amount),
                    old(pool_state).clean_reserve_out(direction, vault_0_amount, vault_1_amount),
                    quote.input_reserve_after as int,
                    quote.output_reserve_after as int,
                )
            },
            Err(_) => *final(pool_state) == *old(pool_state),
        },
{
    if !pool_state.is_enabled(PoolStatusBitIndex::Swap) {
        return Err(ErrorCode::SwapBlocked);
    }
    if current_time < pool_state.open_time {
        return Err(ErrorCode::SwapBlocked);
    }
    if amount_in == 0 {
        return Err(ErrorCode::InvalidTokenAmount);
    }
    let (clean_0, clean_1) = match pool_state.vault_amount_without_fee(
        vault_0_amount,
        vault_1_amount,
    ) {
        Ok(clean) => clean,
        Err(e) => { return Err(e); },
    };
    let (reserve_in, reserve_out) = match direction {
        TradeDirection::ZeroForOne => (clean_0, clean_1),
        TradeDirection::OneForZero => (clean_1, clean_0),
    };
    let (fee, protocol, fund, creator) = match split_fees(
        amount_in as u128,
        amm_config,
        pool_state.creator_fee_active,
    ) {
        Some(split) => split,
        None => { return Err(ErrorCode::MathOverflow); },
    };
    let mut accrued = *pool_state;
    match accrued.accrue_fees(direction, protocol, fund, creator) {
        Ok(()) => {},
        Err(e) => { return Err(e); },
    }
    let net: u64 = amount_in - (fee as u64);
    proof {
        lemma_u64_product_fits(net, reserve_out);
        lemma_u64_product_fits(reserve_in, reserve_out);
        if reserve_in + net > 0 {
            lemma_output_for_exact_input_bounds(net as int, reserve_in as int, reserve_out as int);
            lemma_exact_input_keeps_product(net as int, reserve_in as int, reserve_out as int);
        }
    }
    let output = match swap_base_input_without_fees(
        net as u128,
        reserve_in as u128,
        reserve_out as u128,
    ) {
        Some(output) => output,
        None => { return Err(ErrorCode::MathOverflow); },
    };
    if output == 0 {
        return Err(ErrorCode::ZeroTradingTokens);
    }
    if output > u64::MAX as u128 {
        return Err(ErrorCode::MathOverflow);
    }
    let output = output as u64;
    if output < minimum_amount_out {
        return Err(ErrorCode::SlippageExceeded);
    }
    let input_reserve_after: u128 = reserve_in as u128 + net as u128;
    let output_reserve_after: u128 = (reserve_out - output) as u128;
    match check_constant_product(
        reserve_in as u128,
        reserve_out as u128,
        input_reserve_after,
        output_reserve_after,
    ) {
        Ok(()) => {},
        Err(e) => { return Err(e); },
    }
    *pool_state = accrued;
    Ok(
        SwapQuote {
            direction,
            input_amount: amount_in,
            output_amount: output,
            trade_fee: fee as u64,
            protocol_fee: protocol,
            fund_fee: fund,
            creator_fee: creator,
            net_input: net,
            input_reserve_after,
            output_reserve_after,
        },
    )
}

} // verus!
