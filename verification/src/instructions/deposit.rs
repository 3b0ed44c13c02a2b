//! Deposit of both assets for newly issued liquidity.

use vstd::prelude::*;
use crate::curve::liquidity::{
    deposit_amount,
    issue_liquidity_for_deposit,
    lemma_deposit_then_withdraw_never_gains,
};
use crate::error::ErrorCode;
use crate::instructions::withdraw::withdraw_outcome;
use crate::math::lemma_ceil_div;
use crate::states::pool::{PoolState, PoolStatusBitIndex};
use crate::states::quote::LiquidityQuote;

verus! {

/// What a deposit comes to: the reason it is rejected, or the amounts it is
/// accepted at. Rejections are tested in the order written.
pub open spec fn deposit_outcome(
    pool: PoolState,
    vault_0_amount: u64,
    vault_1_amount: u64,
    lp_amount: u64,
    maximum_token_0_amount: u64,
    maximum_token_1_amount: u64,
) -> Result<LiquidityQuote, ErrorCode> {
    let amount_0 = deposit_amount(
        lp_amount as int,
        pool.lp_supply as int,
        pool.clean_reserve_0(vault_0_amount),
    );
    let amount_1 = deposit_amount(
        lp_amount as int,
        pool.lp_supply as int,
        pool.clean_reserve_1(vault_1_amount),
    );
    if !pool.enabled(PoolStatusBitIndex::Deposit) {
        Err(ErrorCode::DepositDisabled)
    } else if lp_amount == 0 {
        Err(ErrorCode::InvalidLPAmount)
    } else if pool.lp_supply == 0 {
        Err(ErrorCode::PoolNotInitialized)
    } else if !pool.fees_covered(vault_0_amount, vault_1_amount) || amount_0 > u64::MAX || amount_1
        > u64::MAX {
        Err(ErrorCode::MathOverflow)
    } else if amount_0 > maximum_token_0_amount || amount_1 > maximum_token_1_amount {
        Err(ErrorCode::MaximumAmountExceed)
    } else if pool.lp_supply + lp_amount > u64::MAX {
        Err(ErrorCode::MathOverflow)
    } else {
        Ok(
            LiquidityQuote {
                lp_amount,
                token_0_amount: amount_0 as u64,
                token_1_amount: amount_1 as u64,
            },
        )
    }
}

/// The pool as an accepted deposit of `lp_amount` leaves it.
pub open spec fn pool_after_deposit(pool: PoolState, lp_amount: u64) -> PoolState {
    PoolState { lp_supply: (pool.lp_supply + lp_amount) as u64, ..pool }
}

/// Liquidity proportionality: where a deposit is accepted and the same
/// liquidity is withdrawn at once, from the vaults as the deposit left them,
/// the withdrawal returns no more of either asset than the deposit supplied.
/// Rounding is a loss to the one who deposits and withdraws, never a gain.
pub proof fn lemma_deposit_then_withdraw(
    pool: PoolState,
    vault_0_amount: u64,
    vault_1_amount: u64,
    lp_amount: u64,
    maximum_token_0_amount: u64,
    maximum_token_1_amount: u64,
    minimum_token_0_amount: u64,
    minimum_token_1_amount: u64,
)
    requires
        deposit_outcome(
            pool,
            vault_0_amount,
            vault_1_amount,
            lp_amount,
            maximum_token_0_amount,
            maximum_token_1_amount,
        ) matches Ok(deposited) && vault_0_amount + deposited.token_0_amount <= u64::MAX
            && vault_1_amount + deposited.token_1_amount <= u64::MAX && withdraw_outcome(
            pool_after_deposit(pool, lp_amount),
            (vault_0_amount + deposited.token_0_amount) as u64,
            (vault_1_amount + deposited.token_1_amount) as u64,
            lp_amount,
            minimum_token_0_amount,
            minimum_token_1_amount,
        ) is Ok,
    ensures
        ({
            let deposited = deposit_outcome(
                pool,
                vault_0_amount,
                vault_1_amount,
                lp_amount,
                maximum_token_0_amount,
                maximum_token_1_amount,
            )->Ok_0;
            let withdrawn = withdraw_outcome(
                pool_after_deposit(pool, lp_amount),
                (vault_0_amount + deposited.token_0_amount) as u64,
                (vault_1_amount + deposited.token_1_amount) as u64,
                lp_amount,
                minimum_token_0_amount,
                minimum_token_1_amount,
            )->Ok_0;
            &&& withdrawn.token_0_amount <= deposited.token_0_amount
            &&& withdrawn.token_1_amount <= deposited.token_1_amount
        }),
{
    lemma_deposit_then_withdraw_never_gains(
        lp_amount as int,
        pool.lp_supply as int,
        pool.clean_reserve_0(vault_0_amount),
    );
    lemma_deposit_then_withdraw_never_gains(
        lp_amount as int,
        pool.lp_supply as int,
        pool.clean_reserve_1(vault_1_amount),
    );
}

/// An accepted deposit keeps each vault covering the fees accrued in its
/// token, and asks for something of an asset wherever its clean reserve is
/// not empty.
pub proof fn lemma_deposit_keeps_fees_covered(
    pool: PoolState,
    vault_0_amount: u64,
    vault_1_amount: u64,
    lp_amount: u64,
    maximum_token_0_amount: u64,
    maximum_token_1_amount: u64,
)
    requires
        deposit_outcome(
            pool,
            vault_0_amount,
            vault_1_amount,
            lp_amount,
            maximum_token_0_amount,
            maximum_token_1_amount,
        ) is Ok,
    ensures
        ({
            let paid = deposit_outcome(
                pool,
                vault_0_amount,
                vault_1_amount,
                lp_amount,
                maximum_token_0_amount,
                maximum_token_1_amount,
            )->Ok_0;
            let after = pool_after_deposit(pool, lp_amount);
            &&& after.total_fees_0() <= vault_0_amount + paid.token_0_amount
            &&& after.total_fees_1() <= vault_1_amount + paid.token_1_amount
            &&& 0 < pool.clean_reserve_0(vault_0_amount) ==> 0 < paid.token_0_amount
            &&& 0 < pool.clean_reserve_1(vault_1_amount) ==> 0 < paid.token_1_amount
            &&& paid.token_0_amount <= maximum_token_0_amount
            &&& paid.token_1_amount <= maximum_token_1_amount
        }),
{
    let liquidity = lp_amount as int;
    let supply = pool.lp_supply as int;
    let reserve_0 = pool.clean_reserve_0(vault_0_amount);
    let reserve_1 = pool.clean_reserve_1(vault_1_amount);
    assert(0 <= liquidity * reserve_0 && (0 < reserve_0 ==> 0 < liquidity * reserve_0))
        by (nonlinear_arith)
        requires
            0 < liquidity,
            0 <= reserve_0,
    ;
    assert(0 <= liquidity * reserve_1 && (0 < reserve_1 ==> 0 < liquidity * reserve_1))
        by (nonlinear_arith)
        requires
            0 < liquidity,
            0 <= reserve_1,
    ;
    lemma_ceil_div(liquidity * reserve_0, supply);
    lemma_ceil_div(liquidity * reserve_1, supply);
}

/// The same liquidity, priced for a deposit and for a withdrawal against one
/// and the same pool and vaults, costs the deposit at least what it returns
/// to the withdrawal, asset by asset.
pub proof fn lemma_deposit_costs_what_withdraw_returns(
    pool: PoolState,
    vault_0_amount: u64,
    vault_1_amount: u64,
    lp_amount: u64,
    maximum_token_0_amount: u64,
    maximum_token_1_amount: u64,
    minimum_token_0_amount: u64,
    minimum_token_1_amount: u64,
)
    requires
        deposit_outcome(
            pool,
            vault_0_amount,
            vault_1_amount,
            lp_amount,
            maximum_token_0_amount,
            maximum_token_1_amount,
        ) is Ok,
        withdraw_outcome(
            pool,
            vault_0_amount,
            vault_1_amount,
            lp_amount,
            minimum_token_0_amount,
            minimum_token_1_amount,
        ) is Ok,
    ensures
        withdraw_outcome(
            pool,
            vault_0_amount,
            vault_1_amount,
            lp_amount,
            minimum_token_0_amount,
            minimum_token_1_amount,
        )->Ok_0.token_0_amount <= deposit_outcome(
            pool,
            vault_0_amount,
            vault_1_amount,
            lp_amount,
            maximum_token_0_amount,
            maximum_token_1_amount,
        )->Ok_0.token_0_amount,
        withdraw_outcome(
            pool,
            vault_0_amount,
            vault_1_amount,
            lp_amount,
            minimum_token_0_amount,
            minimum_token_1_amount,
        )->Ok_0.token_1_amount <= deposit_outcome(
            pool,
            vault_0_amount,
            vault_1_amount,
            lp_amount,
            maximum_token_0_amount,
            maximum_token_1_amount,
        )->Ok_0.token_1_amount,
{
    lemma_deposit_then_withdraw_never_gains(
        lp_amount as int,
        pool.lp_supply as int,
        pool.clean_reserve_0(vault_0_amount),
    );
    lemma_deposit_then_withdraw_never_gains(
        lp_amount as int,
        pool.lp_supply as int,
        pool.clean_reserve_1(vault_1_amount),
    );
}

/// Issues liquidity against its proportional share of both clean reserves,
/// each rounded up. An accepted deposit raises the supply by the liquidity
/// issued; a rejected one leaves the pool as it was.
pub fn deposit(
    pool_state: &mut PoolState,
    vault_0_amount: u64,
    vault_1_amount: u64,
    lp_amount: u64,
    maximum_token_0_amount: u64,
    maximum_token_1_amount: u64,
) -> (r: Result<LiquidityQuote, ErrorCode>)
    ensures
        r == deposit_outcome(
            *old(pool_state),
            vault_0_amount,
            vault_1_amount,
            lp_amount,
            maximum_token_0_amount,
            maximum_token_1_amount,
        ),
        match r {
            Ok(_) => *final(pool_state) == pool_after_deposit(*old(pool_state), lp_amount),
            Err(_) => *final(pool_state) == *old(pool_state),
        },
{
    if !pool_state.is_enabled(PoolStatusBitIndex::Deposit) {
        return Err(ErrorCode::DepositDisabled);
    }
    if lp_amount == 0 {
        return Err(ErrorCode::InvalidLPAmount);
    }
    if pool_state.lp_supply == 0 {
        return Err(ErrorCode::PoolNotInitialized);
    }
    let (clean_0, clean_1) = match pool_state.vault_amount_without_fee(
        vault_0_amount,
        vault_1_amount,
    ) {
        Ok(clean) => clean,
        Err(e) => { return Err(e); },
    };
    let token_0_amount = match issue_liquidity_for_deposit(
        lp_amount,
        pool_state.lp_supply,
        clean_0,
    ) {
        Some(amount) => amount,
        None => { return Err(ErrorCode::MathOverflow); },
    };
    let token_1_amount = match issue_liquidity_for_deposit(
        lp_amount,
        pool_state.lp_supply,
        clean_1,
    ) {
        Some(amount) => amount,
        None => { return Err(ErrorCode::MathOverflow); },
    };
    if token_0_amount > maximum_token_0_amount {
        return Err(ErrorCode::MaximumAmountExceed);
    }
    if token_1_amount > maximum_token_1_amount {
        return Err(ErrorCode::MaximumAmountExceed);
    }
    let lp_supply = match pool_state.lp_supply.checked_add(lp_amount) {
        Some(supply) => supply,
        None => { return Err(ErrorCode::MathOverflow); },
    };
    pool_state.lp_supply = lp_supply;
    Ok(LiquidityQuote { lp_amount, token_0_amount, token_1_amount })
}

} // verus!
