//! The seed: the first deposit, which creates the pool.

use vstd::prelude::*;
use crate::curve::liquidity::{seed_amount, seed_liquidity, MINIMUM_LIQUIDITY};
use crate::error::ErrorCode;
use crate::math::{lemma_sqrt_floor_exists, lemma_square_monotonic, lemma_u64_product_fits};
use crate::states::config::AmmConfig;
use crate::states::identity::Identity;
use crate::states::pool::{PoolState, PoolStatusBitIndex};
use crate::states::quote::SeedQuote;

verus! {

/// The identities that a new pool is made of.
#[derive(Clone, Copy, Debug, PartialEq, Eq)]
pub struct PoolKeys {
    pub amm_config: Identity,
    pub pool_creator: Identity,
    pub token_0_mint: Identity,
    pub token_1_mint: Identity,
    pub token_0_vault: Identity,
    pub token_1_vault: Identity,
    pub lp_mint: Identity,
}

/// The pool as a seed leaves it: all operations enabled, no fee accrued,
/// creator fees accruing, and the whole of the minted liquidity as supply.
pub open spec fn seeded_pool(
    keys: PoolKeys,
    minted: u64,
    open_time: u64,
    current_epoch: u64,
) -> PoolState {
    PoolState {
        amm_config: keys.amm_config,
        pool_creator: keys.pool_creator,
        token_0_mint: keys.token_0_mint,
        token_1_mint: keys.token_1_mint,
        token_0_vault: keys.token_0_vault,
        token_1_vault: keys.token_1_vault,
        lp_mint: keys.lp_mint,
        lp_supply: minted,
        status: 0,
        open_time,
        recent_epoch: current_epoch,
        protocol_token_0_fee: 0,
        protocol_token_1_fee: 0,
        fund_token_0_fee: 0,
        fund_token_1_fee: 0,
        creator_fee_active: true,
        creator_token_0_fee: 0,
        creator_token_1_fee: 0,
    }
}

/// What seeding a pool comes to: the reason it is rejected, or the new pool
/// and what the host is to move. Rejections are tested in the order written.
pub open spec fn initialize_outcome(
    config: AmmConfig,
    keys: PoolKeys,
    fee_receiver: Identity,
    init_amount_0: u64,
    init_amount_1: u64,
    open_time: u64,
    current_epoch: u64,
) -> Result<(PoolState, SeedQuote), ErrorCode> {
    let minted = seed_amount(init_amount_0 as int, init_amount_1 as int);
    if fee_receiver != config.fund_owner {
        Err(ErrorCode::InvalidFeeReceiver)
    } else if init_amount_0 == 0 || init_amount_1 == 0 {
        Err(ErrorCode::InvalidTokenAmount)
    } else if config.disable_create_pool {
        Err(ErrorCode::PoolCreationDisabled)
    } else if minted <= MINIMUM_LIQUIDITY {
        Err(ErrorCode::InsufficientTokensToMint)
    } else {
        Ok(
            (
                seeded_pool(keys, minted as u64, open_time, current_epoch),
                SeedQuote {
                    token_0_amount: init_amount_0,
                    token_1_amount: init_amount_1,
                    creator_lp_amount: (minted - MINIMUM_LIQUIDITY) as u64,
                    locked_lp_amount: MINIMUM_LIQUIDITY,
                    create_pool_fee: config.create_pool_fee,
                },
            ),
        )
    }
}

/// What holds of every seeded pool: every operation is enabled, no fee
/// is accrued, so that the seed amounts are the clean reserves, and the
/// supply is the creator's liquidity and the locked minimum together.
pub proof fn lemma_seeded_pool(
    config: AmmConfig,
    keys: PoolKeys,
    fee_receiver: Identity,
    init_amount_0: u64,
    init_amount_1: u64,
    open_time: u64,
    current_epoch: u64,
)
    requires
        initialize_outcome(
            config,
            keys,
            fee_receiver,
            init_amount_0,
            init_amount_1,
            open_time,
            current_epoch,
        ) is Ok,
    ensures
        ({
            let (pool, seed) = initialize_outcome(
                config,
                keys,
                fee_receiver,
                init_amount_0,
                init_amount_1,
                open_time,
                current_epoch,
            )->Ok_0;
            &&& pool.enabled(PoolStatusBitIndex::Deposit)
            &&& pool.enabled(PoolStatusBitIndex::Withdraw)
            &&& pool.enabled(PoolStatusBitIndex::Swap)
            &&& pool.clean_reserve_0(init_amount_0) == init_amount_0
            &&& pool.clean_reserve_1(init_amount_1) == init_amount_1
            &&& pool.lp_supply == seed.creator_lp_amount + seed.locked_lp_amount
            &&& 0 < seed.creator_lp_amount
            &&& pool.lp_supply * pool.lp_supply <= init_amount_0 * init_amount_1
            &&& init_amount_0 * init_amount_1 < (pool.lp_supply + 1) * (pool.lp_supply + 1)
        }),
{
    let minted = seed_amount(init_amount_0 as int, init_amount_1 as int);
    let pool = seeded_pool(keys, minted as u64, open_time, current_epoch);
    pool.lemma_status_bits();
    assert(0 <= init_amount_0 * init_amount_1) by (nonlinear_arith);
    lemma_sqrt_floor_exists(init_amount_0 * init_amount_1);
    lemma_u64_product_fits(init_amount_0, init_amount_1);
    if minted > u64::MAX {
        lemma_square_monotonic(0x1_0000_0000_0000_0000, minted);
    }
}

/// Seeds a pool with its first two amounts. The liquidity minted is the
/// square root of their product, rounded down; all of it counts as supply,
/// and the creator receives it less the minimum that stays locked for good.
/// Returns the new pool and what the host is to move: both amounts into the
/// vaults, the creator's liquidity, and the config's pool creation fee to
/// the fee receiver, who must be the config's fund owner.
pub fn initialize(
    amm_config: &AmmConfig,
    keys: PoolKeys,
    fee_receiver: Identity,
    init_amount_0: u64,
    init_amount_1: u64,
    open_time: u64,
    current_epoch: u64,
) -> (r: Result<(PoolState, SeedQuote), ErrorCode>)
    ensures
        r == initialize_outcome(
            *amm_config,
            keys,
            fee_receiver,
            init_amount_0,
            init_amount_1,
            open_time,
            current_epoch,
        ),
{
    if fee_receiver != amm_config.fund_owner {
        return Err(ErrorCode::InvalidFeeReceiver);
    }
    if init_amount_0 == 0 || init_amount_1 == 0 {
        return Err(ErrorCode::InvalidTokenAmount);
    }
    if amm_config.disable_create_pool {
        return Err(ErrorCode::PoolCreationDisabled);
    }
    let minted = match seed_liquidity(init_amount_0, init_amount_1) {
        Ok(minted) => minted,
        Err(e) => { return Err(e); },
    };
    let pool_state = PoolState {
        amm_config: keys.amm_config,
        pool_creator: keys.pool_creator,
        token_0_mint: keys.token_0_mint,
        token_1_mint: keys.token_1_mint,
        token_0_vault: keys.token_0_vault,
        token_1_vault: keys.token_1_vault,
        lp_mint: keys.lp_mint,
        lp_supply: minted,
        status: 0,
        open_time,
        recent_epoch: current_epoch,
        protocol_token_0_fee: 0,
        protocol_token_1_fee: 0,
        fund_token_0_fee: 0,
        fund_token_1_fee: 0,
        creator_fee_active: true,
        creator_token_0_fee: 0,
        creator_token_1_fee: 0,
    };
    Ok(
        (
            pool_state,
            SeedQuote {
                token_0_amount: init_amount_0,
                token_1_amount: init_amount_1,
                creator_lp_amount: minted - MINIMUM_LIQUIDITY,
                locked_lp_amount: MINIMUM_LIQUIDITY,
                create_pool_fee: amm_config.create_pool_fee,
            },
        ),
    )
}

} // verus!
