//! What accepted operations come to: the amounts for the host to move.

use vstd::prelude::*;
use crate::states::pool::TradeDirection;

verus! {

/// What one accepted swap comes to. The host moves `input_amount` from the
/// trader into the input vault and `output_amount` from the output vault to
/// the trader; the rest records how the amounts came about.
#[derive(Clone, Copy, Debug, PartialEq, Eq)]
pub struct SwapQuote {
    pub direction: TradeDirection,
    /// Gross input, the trade fee included.
    pub input_amount: u64,
    pub output_amount: u64,
    pub trade_fee: u64,
    pub protocol_fee: u64,
    pub fund_fee: u64,
    pub creator_fee: u64,
    /// Input that is priced on the curve: the gross input less the trade fee.
    pub net_input: u64,
    /// Input reserve that the invariant is checked on after the trade.
    pub input_reserve_after: u128,
    /// Output reserve that the invariant is checked on after the trade.
    pub output_reserve_after: u128,
}

impl SwapQuote {
    /// The balance of the token 0 vault once the host has moved the swap's
    /// amounts.
    pub open spec fn vault_0_after(&self, vault_0_amount: u64) -> int {
        match self.direction {
            TradeDirection::ZeroForOne => vault_0_amount + self.input_amount,
            TradeDirection::OneForZero => vault_0_amount - self.output_amount,
        }
    }

    /// The balance of the token 1 vault once the host has moved the swap's
    /// amounts.
    pub open spec fn vault_1_after(&self, vault_1_amount: u64) -> int {
        match self.direction {
            TradeDirection::ZeroForOne => vault_1_amount - self.output_amount,
            TradeDirection::OneForZero => vault_1_amount + self.input_amount,
        }
    }
}

/// What one accepted deposit or withdrawal comes to: the liquidity units
/// to mint or burn, and the amount of each asset to move into the vaults or
/// out of them.
#[derive(Clone, Copy, Debug, PartialEq, Eq)]
pub struct LiquidityQuote {
    pub lp_amount: u64,
    pub token_0_amount: u64,
    pub token_1_amount: u64,
}

/// What seeding a pool comes to, beside the pool itself: the two amounts to
/// move into the vaults, the liquidity to mint to the creator, the liquidity
/// that no one ever receives, and the flat fee to pay to the fee receiver.
#[derive(Clone, Copy, Debug, PartialEq, Eq)]
pub struct SeedQuote {
    pub token_0_amount: u64,
    pub token_1_amount: u64,
    pub creator_lp_amount: u64,
    pub locked_lp_amount: u64,
    pub create_pool_fee: u64,
}

} // verus!
