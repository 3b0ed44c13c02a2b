//! The pool: accrued fees, liquidity supply, status bits and opening time.

use vstd::prelude::*;
use crate::error::ErrorCode;
use crate::states::identity::Identity;

verus! {

/// The operations that a pool's status byte can disable, each by one bit.
#[derive(Clone, Copy, Debug, PartialEq, Eq, Structural)]
pub enum PoolStatusBitIndex {
    Deposit,
    Withdraw,
    Swap,
}

impl PoolStatusBitIndex {
    /// The position of the operation's bit in the status byte.
    pub open spec fn bit(self) -> u8 {
        match self {
            PoolStatusBitIndex::Deposit => 0,
            PoolStatusBitIndex::Withdraw => 1,
            PoolStatusBitIndex::Swap => 2,
        }
    }
}

/// Which asset a trade pays in: token 0 for token 1, or the reverse.
#[derive(Clone, Copy, Debug, PartialEq, Eq, Structural)]
pub enum TradeDirection {
    ZeroForOne,
    OneForZero,
}

/// One pool. The vault balances themselves are not stored: every operation is
/// handed the balances as they are now, and the reserves that prices are
/// quoted on are those balances less the fees accrued here.
#[derive(Clone, Copy, Debug, PartialEq, Eq)]
pub struct PoolState {
    pub amm_config: Identity,
    pub pool_creator: Identity,
    pub token_0_mint: Identity,
    pub token_1_mint: Identity,
    pub token_0_vault: Identity,
    pub token_1_vault: Identity,
    pub lp_mint: Identity,
    /// Liquidity units outstanding, the locked minimum included.
    pub lp_supply: u64,
    /// One bit per operation; a set bit disables it.
    pub status: u8,
    /// Swaps are refused before this time.
    pub open_time: u64,
    /// The epoch of the last operation that stamped the pool.
    pub recent_epoch: u64,
    pub protocol_token_0_fee: u64,
    pub protocol_token_1_fee: u64,
    pub fund_token_0_fee: u64,
    pub fund_token_1_fee: u64,
    /// Whether trades accrue a creator fee.
    pub creator_fee_active: bool,
    pub creator_token_0_fee: u64,
    pub creator_token_1_fee: u64,
}

impl PoolState {
    /// Whether the status byte leaves the operation enabled.
    pub open spec fn enabled(&self, action: PoolStatusBitIndex) -> bool {
        self.status & (1u8 << action.bit()) == 0
    }

    /// Fees accrued in token 0 and not yet collected.
    pub open spec fn total_fees_0(&self) -> int {
        self.protocol_token_0_fee + self.fund_token_0_fee + self.creator_token_0_fee
    }

    /// Fees accrued in token 1 and not yet collected.
    pub open spec fn total_fees_1(&self) -> int {
        self.protocol_token_1_fee + self.fund_token_1_fee + self.creator_token_1_fee
    }

    /// The pool's invariant against the vault balances: each vault holds at
    /// least the fees accrued in its token.
    pub open spec fn fees_covered(&self, vault_0_amount: u64, vault_1_amount: u64) -> bool {
        &&& self.total_fees_0() <= vault_0_amount
        &&& self.total_fees_1() <= vault_1_amount
    }

    /// Token 0 reserve that prices are quoted on.
    pub open spec fn clean_reserve_0(&self, vault_0_amount: u64) -> int {
        vault_0_amount - self.total_fees_0()
    }

    /// Token 1 reserve that prices are quoted on.
    pub open spec fn clean_reserve_1(&self, vault_1_amount: u64) -> int {
        vault_1_amount - self.total_fees_1()
    }

    /// The clean reserve of the asset that a trade in `direction` pays in.
    pub open spec fn clean_reserve_in(
        &self,
        direction: TradeDirection,
        vault_0_amount: u64,
        vault_1_amount: u64,
    ) -> int {
        match direction {
            TradeDirection::ZeroForOne => self.clean_reserve_0(vault_0_amount),
            TradeDirection::OneForZero => self.clean_reserve_1(vault_1_amount),
        }
    }

    /// The clean reserve of the asset that a trade in `direction` pays out.
    pub open spec fn clean_reserve_out(
        &self,
        direction: TradeDirection,
        vault_0_amount: u64,
        vault_1_amount: u64,
    ) -> int {
        match direction {
            TradeDirection::ZeroForOne => self.clean_reserve_1(vault_1_amount),
            TradeDirection::OneForZero => self.clean_reserve_0(vault_0_amount),
        }
    }

    /// Whether the three amounts can be added to the accumulators of the
    /// asset that a trade in `direction` pays in.
    pub open spec fn can_accrue(
        &self,
        direction: TradeDirection,
        protocol_amount: int,
        fund_amount: int,
        creator_amount: int,
    ) -> bool {
        match direction {
            TradeDirection::ZeroForOne => {
                &&& self.protocol_token_0_fee + protocol_amount <= u64::MAX
                &&& self.fund_token_0_fee + fund_amount <= u64::MAX
                &&& self.creator_token_0_fee + creator_amount <= u64::MAX
            },
            TradeDirection::OneForZero => {
                &&& self.protocol_token_1_fee + protocol_amount <= u64::MAX
                &&& self.fund_token_1_fee + fund_amount <= u64::MAX
                &&& self.creator_token_1_fee + creator_amount <= u64::MAX
            },
        }
    }

    /// The pool after the three amounts were added to the accumulators of
    /// the asset that a trade in `direction` pays in.
    pub open spec fn with_fees_accrued(
        self,
        direction: TradeDirection,
        protocol_amount: u64,
        fund_amount: u64,
        creator_amount: u64,
    ) -> PoolState {
        match direction {
            TradeDirection::ZeroForOne => PoolState {
                protocol_token_0_fee: (self.protocol_token_0_fee + protocol_amount) as u64,
                fund_token_0_fee: (self.fund_token_0_fee + fund_amount) as u64,
                creator_token_0_fee: (self.creator_token_0_fee + creator_amount) as u64,
                ..self
            },
            TradeDirection::OneForZero => PoolState {
                protocol_token_1_fee: (self.protocol_token_1_fee + protocol_amount) as u64,
                fund_token_1_fee: (self.fund_token_1_fee + fund_amount) as u64,
                creator_token_1_fee: (self.creator_token_1_fee + creator_amount) as u64,
                ..self
            },
        }
    }

    /// Accrual only ever raises the accumulators of the asset paid in, each
    /// by its amount, and touches nothing else of the pool.
    pub proof fn lemma_accrual_only_grows(
        self,
        direction: TradeDirection,
        protocol_amount: u64,
        fund_amount: u64,
        creator_amount: u64,
    )
        requires
            self.can_accrue(
                direction,
                protocol_amount as int,
                fund_amount as int,
                creator_amount as int,
            ),
        ensures
            ({
                let after = self.with_fees_accrued(
                    direction,
                    protocol_amount,
                    fund_amount,
                    creator_amount,
                );
                &&& after.protocol_token_0_fee >= self.protocol_token_0_fee
                &&& after.protocol_token_1_fee >= self.protocol_token_1_fee
                &&& after.fund_token_0_fee >= self.fund_token_0_fee
                &&& after.fund_token_1_fee >= self.fund_token_1_fee
                &&& after.creator_token_0_fee >= self.creator_token_0_fee
                &&& after.creator_token_1_fee >= self.creator_token_1_fee
                &&& after.total_fees_0() + after.total_fees_1() == self.total_fees_0()
                    + self.total_fees_1() + protocol_amount + fund_amount + creator_amount
                &&& direction == TradeDirection::ZeroForOne ==> after.total_fees_1()
                    == self.total_fees_1()
                &&& direction == TradeDirection::OneForZero ==> after.total_fees_0()
                    == self.total_fees_0()
                &&& after.lp_supply == self.lp_supply
                &&& after.status == self.status
                &&& after.open_time == self.open_time
            }),
    {
    }

    /// A status byte of zero, which a new pool has, enables every operation,
    /// and each operation answers to its own bit alone.
    pub proof fn lemma_status_bits(&self)
        ensures
            self.status == 0 ==> self.enabled(PoolStatusBitIndex::Deposit) && self.enabled(
                PoolStatusBitIndex::Withdraw,
            ) && self.enabled(PoolStatusBitIndex::Swap),
            self.enabled(PoolStatusBitIndex::Deposit) <==> self.status % 2 == 0,
            self.enabled(PoolStatusBitIndex::Withdraw) <==> (self.status / 2) % 2 == 0,
            self.enabled(PoolStatusBitIndex::Swap) <==> (self.status / 4) % 2 == 0,
    {
        let status = self.status;
        assert((status & (1u8 << 0u8) == 0) <==> status % 2 == 0) by (bit_vector);
        assert((status & (1u8 << 1u8) == 0) <==> (status / 2) % 2 == 0) by (bit_vector);
        assert((status & (1u8 << 2u8) == 0) <==> (status / 4) % 2 == 0) by (bit_vector);
    }

    /// Which way a trade between the two vaults goes. Both must be vaults of
    /// this pool, and they must differ.
    pub fn trade_direction(&self, input_vault: &Identity, output_vault: &Identity) -> (r: Result<
        TradeDirection,
        ErrorCode,
    >)
        ensures
            r == if (*input_vault != self.token_0_vault && *input_vault != self.token_1_vault) || (
            *output_vault != self.token_0_vault && *output_vault != self.token_1_vault) {
                Err::<TradeDirection, ErrorCode>(ErrorCode::InvalidVault)
            } else if *input_vault == *output_vault {
                Err(ErrorCode::SameVault)
            } else if *input_vault == self.token_0_vault {
                Ok(TradeDirection::ZeroForOne)
            } else {
                Ok(TradeDirection::OneForZero)
            },
    {
        let input_is_0 = *input_vault == self.token_0_vault;
        let input_is_1 = *input_vault == self.token_1_vault;
        let output_is_0 = *output_vault == self.token_0_vault;
        let output_is_1 = *output_vault == self.token_1_vault;
        if !(input_is_0 || input_is_1) || !(output_is_0 || output_is_1) {
            return Err(ErrorCode::InvalidVault);
        }
        if *input_vault == *output_vault {
            return Err(ErrorCode::SameVault);
        }
        if input_is_0 {
            Ok(TradeDirection::ZeroForOne)
        } else {
            Ok(TradeDirection::OneForZero)
        }
    }

    /// Whether the operation is enabled: its bit in the status byte is clear.
    pub fn is_enabled(&self, action: PoolStatusBitIndex) -> (r: bool)
        ensures
            r == self.enabled(action),
    {
        let index: u8 = match action {
            PoolStatusBitIndex::Deposit => 0,
            PoolStatusBitIndex::Withdraw => 1,
            PoolStatusBitIndex::Swap => 2,
        };
        let mask: u8 = 1u8 << index;
        self.status & mask == 0
    }

    /// The reserves that prices are quoted on: each vault balance less the
    /// fees accrued in its token. Fails where a vault holds less than those
    /// fees, which no sequence of operations on a consistent pool brings about.
    pub fn vault_amount_without_fee(&self, vault_0_amount: u64, vault_1_amount: u64) -> (r: Result<
        (u64, u64),
        ErrorCode,
    >)
        ensures
            match r {
                Ok((clean_0, clean_1)) => {
                    &&& self.fees_covered(vault_0_amount, vault_1_amount)
                    &&& clean_0 == self.clean_reserve_0(vault_0_amount)
                    &&& clean_1 == self.clean_reserve_1(vault_1_amount)
                },
                Err(e) => {
                    &&& !self.fees_covered(vault_0_amount, vault_1_amount)
                    &&& e == ErrorCode::MathOverflow
                },
            },
    {
        let total_fees_0 = match self.protocol_token_0_fee.checked_add(self.fund_token_0_fee) {
            Some(partial) => match partial.checked_add(self.creator_token_0_fee) {
                Some(total) => total,
                None => { return Err(ErrorCode::MathOverflow); },
            },
            None => { return Err(ErrorCode::MathOverflow); },
        };
        let total_fees_1 = match self.protocol_token_1_fee.checked_add(self.fund_token_1_fee) {
            Some(partial) => match partial.checked_add(self.creator_token_1_fee) {
                Some(total) => total,
                None => { return Err(ErrorCode::MathOverflow); },
            },
            None => { return Err(ErrorCode::MathOverflow); },
        };
        match (vault_0_amount.checked_sub(total_fees_0), vault_1_amount.checked_sub(total_fees_1)) {
            (Some(clean_0), Some(clean_1)) => Ok((clean_0, clean_1)),
            _ => Err(ErrorCode::MathOverflow),
        }
    }

    /// Adds the three amounts to the accumulators of the asset that a trade
    /// in `direction` pays in. Fails, and changes nothing, where one of the
    /// sums does not fit.
    pub fn accrue_fees(
        &mut self,
        direction: TradeDirection,
        protocol_amount: u64,
        fund_amount: u64,
        creator_amount: u64,
    ) -> (r: Result<(), ErrorCode>)
        ensures
            match r {
                Ok(()) => {
                    &&& old(self).can_accrue(
                        direction,
                        protocol_amount as int,
                        fund_amount as int,
                        creator_amount as int,
                    )
                    &&& *final(self) == old(self).with_fees_accrued(
                        direction,
                        protocol_amount,
                        fund_amount,
                        creator_amount,
                    )
                },
                Err(e) => {
                    &&& !old(self).can_accrue(
                        direction,
                        protocol_amount as int,
                        fund_amount as int,
                        creator_amount as int,
                    )
                    &&& e == ErrorCode::MathOverflow
                    &&& *final(self) == *old(self)
                },
            },
    {
        match direction {
            TradeDirection::ZeroForOne => {
                match (
                    self.protocol_token_0_fee.checked_add(protocol_amount),
                    self.fund_token_0_fee.checked_add(fund_amount),
                    self.creator_token_0_fee.checked_add(creator_amount),
                ) {
                    (Some(protocol), Some(fund), Some(creator)) => {
                        self.protocol_token_0_fee = protocol;
                        self.fund_token_0_fee = fund;
                        self.creator_token_0_fee = creator;
                        Ok(())
                    },
                    _ => Err(ErrorCode::MathOverflow),
                }
            },
            TradeDirection::OneForZero => {
                match (
                    self.protocol_token_1_fee.checked_add(protocol_amount),
                    self.fund_token_1_fee.checked_add(fund_amount),
                    self.creator_token_1_fee.checked_add(creator_amount),
                ) {
                    (Some(protocol), Some(fund), Some(creator)) => {
                        self.protocol_token_1_fee = protocol;
                        self.fund_token_1_fee = fund;
                        self.creator_token_1_fee = creator;
                        Ok(())
                    },
                    _ => Err(ErrorCode::MathOverflow),
                }
            },
        }
    }
}

} // verus!
