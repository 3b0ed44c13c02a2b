//! Collection of the creator fees.

use vstd::prelude::*;
use crate::error::ErrorCode;
use crate::states::identity::Identity;
use crate::states::pool::PoolState;

verus! {

/// The pool once its creator fees were collected in `current_epoch`.
pub open spec fn pool_after_creator_collect(pool: PoolState, current_epoch: u64) -> PoolState {
    PoolState {
        creator_token_0_fee: 0,
        creator_token_1_fee: 0,
        recent_epoch: current_epoch,
        ..pool
    }
}

/// Collecting creator fees keeps each vault covering the fees accrued in
/// its token: what the host pays out of a vault was counted among them.
pub proof fn lemma_creator_collect_keeps_fees_covered(
    pool: PoolState,
    vault_0_amount: u64,
    vault_1_amount: u64,
    current_epoch: u64,
)
    requires
        pool.fees_covered(vault_0_amount, vault_1_amount),
    ensures
        pool_after_creator_collect(pool, current_epoch).total_fees_0() <= vault_0_amount
            - pool.creator_token_0_fee,
        pool_after_creator_collect(pool, current_epoch).total_fees_1() <= vault_1_amount
            - pool.creator_token_1_fee,
        pool_after_creator_collect(pool, current_epoch).clean_reserve_0(
            (vault_0_amount - pool.creator_token_0_fee) as u64,
        ) == pool.clean_reserve_0(vault_0_amount),
        pool_after_creator_collect(pool, current_epoch).clean_reserve_1(
            (vault_1_amount - pool.creator_token_1_fee) as u64,
        ) == pool.clean_reserve_1(vault_1_amount),
{
}

/// Hands the pool's creator the creator fees accrued in both tokens, as the
/// pair of amounts for the host to pay out of the two vaults, and clears
/// both accumulators. Refused unless the caller is the pool's creator and
/// some fee has accrued; a refusal leaves the pool as it was.
pub fn collect_creator_fee(pool_state: &mut PoolState, owner: Identity, current_epoch: u64) -> (r:
    Result<(u64, u64), ErrorCode>)
    ensures
        r == if owner != old(pool_state).pool_creator {
            Err::<(u64, u64), ErrorCode>(ErrorCode::InvalidOwner)
        } else if old(pool_state).creator_token_0_fee == 0 && old(pool_state).creator_token_1_fee
            == 0 {
            Err(ErrorCode::CreatorFeeNotAccumulated)
        } else {
            Ok((old(pool_state).creator_token_0_fee, old(pool_state).creator_token_1_fee))
        },
        match r {
            Ok(_) => *final(pool_state) == pool_after_creator_collect(
                *old(pool_state),
                current_epoch,
            ),
            Err(_) => *final(pool_state) == *old(pool_state),
        },
{
    if owner != pool_state.pool_creator {
        return Err(ErrorCode::InvalidOwner);
    }
    let fee_0 = pool_state.creator_token_0_fee;
    let fee_1 = pool_state.creator_token_1_fee;
    if fee_0 == 0 && fee_1 == 0 {
        return Err(ErrorCode::CreatorFeeNotAccumulated);
    }
    pool_state.creator_token_0_fee = 0;
    pool_state.creator_token_1_fee = 0;
    pool_state.recent_epoch = current_epoch;
    Ok((fee_0, fee_1))
}

} // verus!
