//! The fee tier that a pool belongs to.

use vstd::prelude::*;
use crate::curve::fees::{
    fee_ceil,
    fee_floor,
    lemma_accrued_shares_within_gross,
    lemma_fee_ceil_within_amount,
    lemma_fee_split_within_trade_fee,
};
use crate::states::identity::Identity;

verus! {

/// One fee tier. Rates are in parts per million.
#[derive(Clone, Copy, Debug, PartialEq, Eq)]
pub struct AmmConfig {
    pub index: u16,
    pub trade_fee_rate: u64,
    pub protocol_fee_rate: u64,
    pub fund_fee_rate: u64,
    pub creator_fee_rate: u64,
    /// Flat fee charged once when a pool is created.
    pub create_pool_fee: u64,
    pub protocol_owner: Identity,
    pub fund_owner: Identity,
    pub disable_create_pool: bool,
}

impl AmmConfig {
    /// The rates that a config is created with: trade and creator rate
    /// together, and protocol and fund rate together, stay below the whole.
    pub open spec fn rates_valid(&self) -> bool {
        &&& self.trade_fee_rate + self.creator_fee_rate < 1_000_000
        &&& self.protocol_fee_rate + self.fund_fee_rate < 1_000_000
    }

    /// The trade fee on a gross amount.
    pub open spec fn trade_fee_on(&self, gross: int) -> int {
        fee_ceil(gross, self.trade_fee_rate as int)
    }

    /// The protocol's share of the trade fee on a gross amount.
    pub open spec fn protocol_share(&self, gross: int) -> int {
        fee_floor(self.trade_fee_on(gross), self.protocol_fee_rate as int)
    }

    /// The fund's share of the trade fee on a gross amount.
    pub open spec fn fund_share(&self, gross: int) -> int {
        fee_floor(self.trade_fee_on(gross), self.fund_fee_rate as int)
    }

    /// The creator fee on a gross amount: taken from the amount itself, not
    /// from the trade fee, and only while the pool accrues creator fees.
    pub open spec fn creator_share(&self, gross: int, creator_fee_active: bool) -> int {
        if creator_fee_active {
            fee_ceil(gross, self.creator_fee_rate as int)
        } else {
            0
        }
    }

    /// Whether the fees on a gross amount can be taken and booked: the trade
    /// fee stays within the amount, and each share fits an accumulator.
    pub open spec fn shares_fit(&self, gross: int, creator_fee_active: bool) -> bool {
        &&& self.trade_fee_on(gross) <= gross
        &&& self.protocol_share(gross) <= u64::MAX
        &&& self.fund_share(gross) <= u64::MAX
        &&& self.creator_share(gross, creator_fee_active) <= u64::MAX
    }

    /// Fee conservation under valid rates: the trade fee stays within the
    /// gross amount, the protocol and fund shares together stay within the
    /// trade fee, and all that accrues stays within the gross amount.
    pub proof fn lemma_fee_conservation(&self, gross: int, creator_fee_active: bool)
        requires
            self.rates_valid(),
            0 <= gross,
        ensures
            0 <= self.trade_fee_on(gross) <= gross,
            0 <= self.protocol_share(gross),
            0 <= self.fund_share(gross),
            0 <= self.creator_share(gross, creator_fee_active),
            self.protocol_share(gross) + self.fund_share(gross) <= self.trade_fee_on(gross),
            self.protocol_share(gross) + self.fund_share(gross) + self.creator_share(
                gross,
                creator_fee_active,
            ) <= gross,
    {
        lemma_fee_ceil_within_amount(gross, self.trade_fee_rate as int);
        lemma_fee_ceil_within_amount(gross, self.creator_fee_rate as int);
        lemma_fee_split_within_trade_fee(
            self.trade_fee_on(gross),
            self.protocol_fee_rate as int,
            self.fund_fee_rate as int,
        );
        lemma_accrued_shares_within_gross(
            gross,
            self.trade_fee_rate as int,
            self.protocol_fee_rate as int,
            self.fund_fee_rate as int,
            self.creator_fee_rate as int,
        );
    }
}

} // verus!
