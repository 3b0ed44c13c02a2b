//! Withdrawal of both assets for burned liquidity.

use vstd::prelude::*;
use crate::curve::liquidity::{redeem_liquidity_for_withdraw, withdraw_amount};
use crate::math::lemma_floor_div;
use crate::error::ErrorCode;
use crate::states::pool::{PoolState, PoolStatusBitIndex};
use crate::states::quote::LiquidityQuote;

verus! {

/// What a withdrawal comes to: the reason it is rejected, or the amounts it
/// is accepted at. Rejections are tested in the order written.
pub open spec fn withdraw_outcome(
    pool: PoolState,
    vault_0_amount: u64,
    vault_1_amount: u64,
    lp_amount: u64,
    minimum_token_0_amount: u64,
    minimum_token_1_amount: u64,
) -> Result<LiquidityQuote, ErrorCode> {
    let amount_0 = withdraw_amount(
        lp_amount as int,
        pool.lp_supply as int,
        pool.clean_reserve_0(vault_0_amount),
    );
    let amount_1 = withdraw_amount(
        lp_amount as int,
        pool.lp_supply as int,
        pool.clean_reserve_1(vault_1_amount),
    );
    if !pool.enabled(PoolStatusBitIndex::Withdraw) {
        Err(ErrorCode::WithdrawDisabled)
    } else if lp_amount == 0 {
        Err(ErrorCode::InvalidLPAmount)
    } else if pool.lp_supply == 0 {
        Err(ErrorCode::PoolNotInitialized)
    } else if !pool.fees_covered(vault_0_amount, vault_1_amount) || amount_0 > u64::MAX || amount_1
        > u64::MAX {
        Err(ErrorCode::MathOverflow)
    } else if amount_0 == 0 || amount_1 == 0 {
        Err(ErrorCode::ZeroTradingTokens)
    } else if amount_0 < minimum_token_0_amount || amount_1 < minimum_token_1_amount {
        Err(ErrorCode::SlippageExceeded)
    } else if lp_amount > pool.lp_supply {
        Err(ErrorCode::MathOverflow)
    } else {
        Ok(
            LiquidityQuote {
                lp_amount,
                token_0_amount: amount_0 as u64,
                token_1_amount: amount_1 as u64,
            },
        )
    }
}

/// The pool as an accepted withdrawal of `lp_amount` leaves it.
pub open spec fn pool_after_withdraw(pool: PoolState, lp_amount: u64) -> PoolState {
    PoolState { lp_supply: (pool.lp_supply - lp_amount) as u64, ..pool }
}

/// An accepted withdrawal pays out something of both assets and no more of
/// either than its clean reserve, so each vault still covers the fees
/// accrued in its token once the host has paid the amounts out.
pub proof fn lemma_withdraw_within_reserves(
    pool: PoolState,
    vault_0_amount: u64,
    vault_1_amount: u64,
    lp_amount: u64,
    minimum_token_0_amount: u64,
    minimum_token_1_amount: u64,
)
    requires
        withdraw_outcome(
            pool,
            vault_0_amount,
            vault_1_amount,
            lp_amount,
            minimum_token_0_amount,
            minimum_token_1_amount,
        ) is Ok,
    ensures
        ({
            let paid = withdraw_outcome(
                pool,
                vault_0_amount,
                vault_1_amount,
                lp_amount,
                minimum_token_0_amount,
                minimum_token_1_amount,
            )->Ok_0;
            &&& 0 < paid.token_0_amount <= pool.clean_reserve_0(vault_0_amount)
            &&& 0 < paid.token_1_amount <= pool.clean_reserve_1(vault_1_amount)
            &&& pool.total_fees_0() <= vault_0_amount - paid.token_0_amount
            &&& pool.total_fees_1() <= vault_1_amount - paid.token_1_amount
        }),
{
    let supply = pool.lp_supply as int;
    let liquidity = lp_amount as int;
    let reserve_0 = pool.clean_reserve_0(vault_0_amount);
    let reserve_1 = pool.clean_reserve_1(vault_1_amount);
    assert(0 <= liquidity * reserve_0 <= supply * reserve_0) by (nonlinear_arith)
        requires
            0 <= liquidity <= supply,
            0 <= reserve_0,
    ;
    assert(0 <= liquidity * reserve_1 <= supply * reserve_1) by (nonlinear_arith)
        requires
            0 <= liquidity <= supply,
            0 <= reserve_1,
    ;
    lemma_floor_div(liquidity * reserve_0, supply);
    lemma_floor_div(liquidity * reserve_1, supply);
    let paid_0 = withdraw_amount(liquidity, supply, reserve_0);
    let paid_1 = withdraw_amount(liquidity, supply, reserve_1);
    assert(paid_0 <= reserve_0) by (nonlinear_arith)
        requires
            paid_0 * supply <= supply * reserve_0,
            0 < supply,
    ;
    assert(paid_1 <= reserve_1) by (nonlinear_arith)
        requires
            paid_1 * supply <= supply * reserve_1,
            0 < supply,
    ;
}

/// Redeems liquidity for its proportional share of both clean reserves,
/// each rounded down. A withdrawal that would pay out nothing of either
/// asset is refused. An accepted withdrawal lowers the supply by the
/// liquidity burned; a rejected one leaves the pool as it was.
pub fn withdraw(
    pool_state: &mut PoolState,
    vault_0_amount: u64,
    vault_1_amount: u64,
    lp_amount: u64,
    minimum_token_0_amount: u64,
    minimum_token_1_amount: u64,
) -> (r: Result<LiquidityQuote, ErrorCode>)
    ensures
        r == withdraw_outcome(
            *old(pool_state),
            vault_0_amount,
            vault_1_amount,
            lp_amount,
            minimum_token_0_amount,
            minimum_token_1_amount,
        ),
        match r {
            Ok(_) => *final(pool_state) == pool_after_withdraw(*old(pool_state), lp_amount),
            Err(_) => *final(pool_state) == *old(pool_state),
        },
{
    if !pool_state.is_enabled(PoolStatusBitIndex::Withdraw) {
        return Err(ErrorCode::WithdrawDisabled);
    }
    if lp_amount == 0 {
        return Err(ErrorCode::InvalidLPAmount);
    }
    if pool_state.lp_supply == 0 {
        return Err(ErrorCode::PoolNotInitialized);
    }
    let (clean_0, clean_1) = match pool_state.vault_amount_without_fee(
        vault_0_amount,
        vault_1_amount,
    ) {
        Ok(clean) => clean,
        Err(e) => { return Err(e); },
    };
    let token_0_amount = match redeem_liquidity_for_withdraw(
        lp_amount,
        pool_state.lp_supply,
        clean_0,
    ) {
        Some(amount) => amount,
        None => { return Err(ErrorCode::MathOverflow); },
    };
    let token_1_amount = match redeem_liquidity_for_withdraw(
        lp_amount,
        pool_state.lp_supply,
        clean_1,
    ) {
        Some(amount) => amount,
        None => { return Err(ErrorCode::MathOverflow); },
    };
    if token_0_amount == 0 || token_1_amount == 0 {
        return Err(ErrorCode::ZeroTradingTokens);
    }
    if token_0_amount < minimum_token_0_amount {
        return Err(ErrorCode::SlippageExceeded);
    }
    if token_1_amount < minimum_token_1_amount {
        return Err(ErrorCode::SlippageExceeded);
    }
    let lp_supply = match pool_state.lp_supply.checked_sub(lp_amount) {
        Some(supply) => supply,
        None => { return Err(ErrorCode::MathOverflow); },
    };
    pool_state.lp_supply = lp_supply;
    Ok(LiquidityQuote { lp_amount, token_0_amount, token_1_amount })
}

} // verus!
