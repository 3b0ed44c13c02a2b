//! Liquidity shares: what a deposit owes, what a withdrawal returns and what
//! a seed mints.

use vstd::prelude::*;
use crate::error::ErrorCode;
use crate::math::{isqrt, lemma_ceil_div, lemma_floor_div, lemma_u64_product_fits, sqrt_floor};

verus! {

/// Liquidity units withheld from circulation for good when a pool is seeded,
/// so that the supply can never be redeemed down to zero.
pub const MINIMUM_LIQUIDITY: u64 = 100;

/// What a deposit owes of one asset for `liquidity` new units: the
/// proportional share `liquidity * reserve / supply`, rounded up.
pub open spec fn deposit_amount(liquidity: int, supply: int, reserve: int) -> int {
    (liquidity * reserve + (supply - 1)) / supply
}

/// What a withdrawal of `liquidity` units returns of one asset: the
/// proportional share `liquidity * reserve / supply`, rounded down.
pub open spec fn withdraw_amount(liquidity: int, supply: int, reserve: int) -> int {
    (liquidity * reserve) / supply
}

/// Liquidity that a seed of the two amounts mints: the square root of their
/// product, rounded down.
pub open spec fn seed_amount(amount_0: int, amount_1: int) -> int {
    sqrt_floor(amount_0 * amount_1)
}

/// The amount of one asset that a deposit must supply for the requested
/// liquidity. `None` where the supply is zero or the amount does not fit.
pub fn issue_liquidity_for_deposit(
    requested_liquidity: u64,
    liquidity_supply: u64,
    clean_reserve: u64,
) -> (r: Option<u64>)
    ensures
        r == if liquidity_supply == 0 || deposit_amount(
            requested_liquidity as int,
            liquidity_supply as int,
            clean_reserve as int,
        ) > u64::MAX {
            None
        } else {
            Some(
                deposit_amount(
                    requested_liquidity as int,
                    liquidity_supply as int,
                    clean_reserve as int,
                ) as u64,
            )
        },
{
    if liquidity_supply == 0 {
        return None;
    }
    proof {
        lemma_u64_product_fits(requested_liquidity, clean_reserve);
    }
    let product = (requested_liquidity as u128) * (clean_reserve as u128);
    let amount = (product + (liquidity_supply as u128 - 1)) / (liquidity_supply as u128);
    if amount > u64::MAX as u128 {
        None
    } else {
        Some(amount as u64)
    }
}

/// The amount of one asset that a withdrawal of the burned liquidity
/// returns. `None` where the supply is zero or the amount does not fit.
pub fn redeem_liquidity_for_withdraw(
    burned_liquidity: u64,
    liquidity_supply: u64,
    clean_reserve: u64,
) -> (r: Option<u64>)
    ensures
        r == if liquidity_supply == 0 || withdraw_amount(
            burned_liquidity as int,
            liquidity_supply as int,
            clean_reserve as int,
        ) > u64::MAX {
            None
        } else {
            Some(
                withdraw_amount(
                    burned_liquidity as int,
                    liquidity_supply as int,
                    clean_reserve as int,
                ) as u64,
            )
        },
{
    if liquidity_supply == 0 {
        return None;
    }
    proof {
        lemma_u64_product_fits(burned_liquidity, clean_reserve);
    }
    let product = (burned_liquidity as u128) * (clean_reserve as u128);
    let amount = product / (liquidity_supply as u128);
    if amount > u64::MAX as u128 {
        None
    } else {
        Some(amount as u64)
    }
}

/// The liquidity that seeding a pool with the two amounts mints, the locked
/// minimum included. Refused unless it exceeds that minimum.
pub fn seed_liquidity(amount_0: u64, amount_1: u64) -> (r: Result<u64, ErrorCode>)
    ensures
        match r {
            Ok(minted) => {
                &&& minted == seed_amount(amount_0 as int, amount_1 as int)
                &&& minted > MINIMUM_LIQUIDITY
            },
            Err(e) => {
                &&& e == ErrorCode::InsufficientTokensToMint
                &&& seed_amount(amount_0 as int, amount_1 as int) <= MINIMUM_LIQUIDITY
            },
        },
{
    proof {
        lemma_u64_product_fits(amount_0, amount_1);
    }
    let product = (amount_0 as u128) * (amount_1 as u128);
    let minted = isqrt(product);
    if minted > MINIMUM_LIQUIDITY {
        Ok(minted)
    } else {
        Err(ErrorCode::InsufficientTokensToMint)
    }
}

/// The direction of each rounding: a deposit supplies at least the
/// proportional share of the reserve and a withdrawal returns at most that
/// share; either is less than one unit away from it.
pub proof fn lemma_liquidity_rounding(liquidity: int, supply: int, reserve: int)
    requires
        0 <= liquidity,
        0 < supply,
        0 <= reserve,
    ensures
        withdraw_amount(liquidity, supply, reserve) * supply <= liquidity * reserve,
        liquidity * reserve <= deposit_amount(liquidity, supply, reserve) * supply,
        liquidity * reserve < withdraw_amount(liquidity, supply, reserve) * supply + supply,
        deposit_amount(liquidity, supply, reserve) * supply < liquidity * reserve + supply,
{
    lemma_floor_div(liquidity * reserve, supply);
    lemma_ceil_div(liquidity * reserve, supply);
}

/// Liquidity proportionality: liquidity that is deposited and withdrawn
/// again at once returns no more of an asset than the deposit supplied,
/// whether the withdrawal is measured against the pool as the deposit left
/// it or against the pool as it was. Rounding is a loss, never a gain.
pub proof fn lemma_deposit_then_withdraw_never_gains(liquidity: int, supply: int, reserve: int)
    requires
        0 <= liquidity,
        0 < supply,
        0 <= reserve,
    ensures
        0 <= deposit_amount(liquidity, supply, reserve),
        0 <= withdraw_amount(
            liquidity,
            supply + liquidity,
            reserve + deposit_amount(liquidity, supply, reserve),
        ) <= deposit_amount(liquidity, supply, reserve),
        0 <= withdraw_amount(liquidity, supply, reserve) <= deposit_amount(
            liquidity,
            supply,
            reserve,
        ),
{
    let d = deposit_amount(liquidity, supply, reserve);
    assert(0 <= liquidity * reserve) by (nonlinear_arith)
        requires
            0 <= liquidity,
            0 <= reserve,
    ;
    lemma_ceil_div(liquidity * reserve, supply);
    lemma_floor_div(liquidity * reserve, supply);
    let w_same = withdraw_amount(liquidity, supply, reserve);
    assert(w_same <= d) by (nonlinear_arith)
        requires
            w_same * supply <= liquidity * reserve,
            liquidity * reserve <= d * supply,
            0 < supply,
    ;
    let w = withdraw_amount(liquidity, supply + liquidity, reserve + d);
    assert(0 <= liquidity * (reserve + d)) by (nonlinear_arith)
        requires
            0 <= liquidity,
            0 <= reserve,
            0 <= d,
    ;
    lemma_floor_div(liquidity * (reserve + d), supply + liquidity);
    assert(w <= d) by (nonlinear_arith)
        requires
            w * (supply + liquidity) <= liquidity * (reserve + d),
            liquidity * reserve <= d * supply,
            0 < supply,
            0 <= liquidity,
    ;
}

} // verus!
