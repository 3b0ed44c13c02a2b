//! The fees on one swap, taken together.

use vstd::prelude::*;
use crate::curve::fees::{creator_fee, fund_fee, protocol_fee, trade_fee};
use crate::math::{lemma_ceil_div, lemma_floor_div};
use crate::states::config::AmmConfig;

verus! {

/// The largest gross amount that a swap ever takes fees on: what grossing up
/// a 64-bit net amount can reach.
pub const MAX_GROSS_AMOUNT: u128 = 0xFFFF_FFFF_FFFF_FFFF * 1_000_000;

/// The trade fee on a gross amount and its protocol, fund and creator
/// shares, in that order. `None` where the fees cannot be taken and booked.
pub(crate) fn split_fees(gross: u128, config: &AmmConfig, creator_fee_active: bool) -> (r: Option<
    (u128, u64, u64, u64),
>)
    requires
        gross <= MAX_GROSS_AMOUNT,
    ensures
        match r {
            Some((fee, protocol, fund, creator)) => {
                &&& config.shares_fit(gross as int, creator_fee_active)
                &&& fee == config.trade_fee_on(gross as int)
                &&& protocol == config.protocol_share(gross as int)
                &&& fund == config.fund_share(gross as int)
                &&& creator == config.creator_share(gross as int, creator_fee_active)
            },
            None => !config.shares_fit(gross as int, creator_fee_active),
        },
{
    proof {
        let g = gross as int;
        assert(0 <= g * config.trade_fee_rate && 0 <= g * config.creator_fee_rate)
            by (nonlinear_arith)
            requires
                0 <= g,
        ;
        lemma_ceil_div(g * config.trade_fee_rate, 1_000_000);
        lemma_ceil_div(g * config.creator_fee_rate, 1_000_000);
    }
    let fee = match trade_fee(gross, config.trade_fee_rate) {
        Some(fee) => fee,
        None => { return None; },
    };
    if fee > gross {
        return None;
    }
    proof {
        let f = fee as int;
        assert(0 <= f * config.protocol_fee_rate && 0 <= f * config.fund_fee_rate)
            by (nonlinear_arith)
            requires
                0 <= f,
        ;
        lemma_floor_div(f * config.protocol_fee_rate, 1_000_000);
        lemma_floor_div(f * config.fund_fee_rate, 1_000_000);
    }
    let protocol = match protocol_fee(fee, config.protocol_fee_rate) {
        Some(share) => share,
        None => { return None; },
    };
    let fund = match fund_fee(fee, config.fund_fee_rate) {
        Some(share) => share,
        None => { return None; },
    };
    let creator = if creator_fee_active {
        match creator_fee(gross, config.creator_fee_rate) {
            Some(share) => share,
            None => { return None; },
        }
    } else {
        0
    };
    if protocol > u64::MAX as u128 || fund > u64::MAX as u128 || creator > u64::MAX as u128 {
        return None;
    }
    Some((fee, protocol as u64, fund as u64, creator as u64))
}

} // verus!
