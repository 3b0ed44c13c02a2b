//! Creation of a fee tier.

use vstd::prelude::*;
use crate::curve::fees::FEE_RATE_DENOMINATOR;
use crate::error::ErrorCode;
use crate::states::config::AmmConfig;
use crate::states::identity::Identity;

verus! {

/// Creates a fee tier. Only the administrator may, and only with rates that
/// leave something of an amount: the trade and creator rate together, and
/// the protocol and fund rate together, must stay below the whole. The
/// administrator becomes the protocol owner, and the config accepts new pools.
pub fn create_amm_config(
    owner: Identity,
    admin: Identity,
    index: u16,
    trade_fee_rate: u64,
    creator_fee_rate: u64,
    protocol_fee_rate: u64,
    fund_fee_rate: u64,
    create_pool_fee: u64,
    fund_owner: Identity,
) -> (r: Result<AmmConfig, ErrorCode>)
    ensures
        r == if owner != admin {
            Err::<AmmConfig, ErrorCode>(ErrorCode::InvalidOwner)
        } else if trade_fee_rate + creator_fee_rate >= 1_000_000 || protocol_fee_rate
            + fund_fee_rate >= 1_000_000 {
            Err(ErrorCode::FeeExceedHundredPercentage)
        } else {
            Ok(
                AmmConfig {
                    index,
                    trade_fee_rate,
                    protocol_fee_rate,
                    fund_fee_rate,
                    creator_fee_rate,
                    create_pool_fee,
                    protocol_owner: owner,
                    fund_owner,
                    disable_create_pool: false,
                },
            )
        },
        r matches Ok(config) ==> config.rates_valid(),
{
    if owner != admin {
        return Err(ErrorCode::InvalidOwner);
    }
    if trade_fee_rate >= FEE_RATE_DENOMINATOR || creator_fee_rate >= FEE_RATE_DENOMINATOR
        || trade_fee_rate + creator_fee_rate >= FEE_RATE_DENOMINATOR {
        return Err(ErrorCode::FeeExceedHundredPercentage);
    }
    if protocol_fee_rate >= FEE_RATE_DENOMINATOR || fund_fee_rate >= FEE_RATE_DENOMINATOR
        || protocol_fee_rate + fund_fee_rate >= FEE_RATE_DENOMINATOR {
        return Err(ErrorCode::FeeExceedHundredPercentage);
    }
    Ok(
        AmmConfig {
            index,
            trade_fee_rate,
            protocol_fee_rate,
            fund_fee_rate,
            creator_fee_rate,
            create_pool_fee,
            protocol_owner: owner,
            fund_owner,
            disable_create_pool: false,
        },
    )
}

} // verus!
