//! Collection of the protocol fees.

use vstd::prelude::*;
use crate::error::ErrorCode;
use crate::states::config::AmmConfig;
use crate::states::identity::Identity;
use crate::states::pool::PoolState;

verus! {

/// The pool once its protocol fees were collected in `current_epoch`.
pub open spec fn pool_after_protocol_collect(pool: PoolState, current_epoch: u64) -> PoolState {
    PoolState {
        protocol_token_0_fee: 0,
        protocol_token_1_fee: 0,
        recent_epoch: current_epoch,
        ..pool
    }
}

/// Collecting protocol fees keeps each vault covering the fees accrued in
/// its token: what the host pays out of a vault was counted among them.
pub proof fn lemma_protocol_collect_keeps_fees_covered(
    pool: PoolState,
    vault_0_amount: u64,
    vault_1_amount: u64,
    current_epoch: u64,
)
    requires
        pool.fees_covered(vault_0_amount, vault_1_amount),
    ensures
        pool_after_protocol_collect(pool, current_epoch).total_fees_0() <= vault_0_amount
            - pool.protocol_token_0_fee,
        pool_after_protocol_collect(pool, current_epoch).total_fees_1() <= vault_1_amount
            - pool.protocol_token_1_fee,
        pool_after_protocol_collect(pool, current_epoch).clean_reserve_0(
            (vault_0_amount - pool.protocol_token_0_fee) as u64,
        ) == pool.clean_reserve_0(vault_0_amount),
        pool_after_protocol_collect(pool, current_epoch).clean_reserve_1(
            (vault_1_amount - pool.protocol_token_1_fee) as u64,
        ) == pool.clean_reserve_1(vault_1_amount),
{
}

/// Hands the config's protocol owner the protocol fees accrued in both
/// tokens, as the pair of amounts for the host to pay out of the two vaults,
/// and clears both accumulators. Refused unless the caller is the protocol
/// owner and some fee has accrued; a refusal leaves the pool as it was.
pub fn collect_protocol_fee(
    pool_state: &mut PoolState,
    amm_config: &AmmConfig,
    owner: Identity,
    current_epoch: u64,
) -> (r: Result<(u64, u64), ErrorCode>)
    ensures
        r == if owner != amm_config.protocol_owner {
            Err::<(u64, u64), ErrorCode>(ErrorCode::InvalidOwner)
        } else if old(pool_state).protocol_token_0_fee == 0 && old(pool_state).protocol_token_1_fee
            == 0 {
            Err(ErrorCode::ProtocolFeeNotAccumulated)
        } else {
            Ok((old(pool_state).protocol_token_0_fee, old(pool_state).protocol_token_1_fee))
        },
        match r {
            Ok(_) => *final(pool_state) == pool_after_protocol_collect(
                *old(pool_state),
                current_epoch,
            ),
            Err(_) => *final(pool_state) == *old(pool_state),
        },
{
    if owner != amm_config.protocol_owner {
        return Err(ErrorCode::InvalidOwner);
    }
    let fee_0 = pool_state.protocol_token_0_fee;
    let fee_1 = pool_state.protocol_token_1_fee;
    if fee_0 == 0 && fee_1 == 0 {
        return Err(ErrorCode::ProtocolFeeNotAccumulated);
    }
    pool_state.protocol_token_0_fee = 0;
    pool_state.protocol_token_1_fee = 0;
    pool_state.recent_epoch = current_epoch;
    Ok((fee_0, fee_1))
}

} // verus!
