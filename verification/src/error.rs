//! The reasons for which the engine rejects an operation.

use vstd::prelude::*;

verus! {

/// Why an operation was rejected. A rejected operation changes nothing.
#[derive(Clone, Copy, Debug, PartialEq, Eq, Structural)]
pub enum ErrorCode {
    /// The caller is not the identity stored for this right.
    InvalidOwner,
    /// A pair of fee rates adds up to the whole amount or more.
    FeeExceedHundredPercentage,
    /// The config no longer accepts new pools.
    PoolCreationDisabled,
    /// The seed liquidity does not exceed the locked minimum.
    InsufficientTokensToMint,
    /// A vault is not one of the pool's two vaults.
    InvalidVault,
    /// Input and output vault are the same.
    SameVault,
    /// Deposits are disabled for this pool.
    DepositDisabled,
    /// The liquidity amount is zero.
    InvalidLPAmount,
    /// A token amount is zero.
    InvalidTokenAmount,
    /// The pool has no liquidity supply yet.
    PoolNotInitialized,
    /// A deposit would cost more than the caller's maximum.
    MaximumAmountExceed,
    /// An intermediate or final amount does not fit, or a fee accumulator
    /// exceeds the vault balance it is held in.
    MathOverflow,
    /// Withdrawals are disabled for this pool.
    WithdrawDisabled,
    /// The output is below the caller's minimum, or the input above the
    /// caller's maximum.
    SlippageExceeded,
    /// An amount to be paid out is zero.
    ZeroTradingTokens,
    /// A mint does not belong to the vault it is used with.
    MintMismatch,
    /// Swaps are disabled for this pool, or the pool is not open yet.
    SwapBlocked,
    /// The product of the reserves would decrease.
    ConstantProductInvariant,
    /// The receiver of the pool creation fee is not the config's fund owner.
    InvalidFeeReceiver,
    /// The requested output would drain the output side of the pool.
    InsufficientLiquidity,
    /// No creator fee has accumulated in either asset.
    CreatorFeeNotAccumulated,
    /// No protocol fee has accumulated in either asset.
    ProtocolFeeNotAccumulated,
    /// No fund fee has accumulated in either asset.
    FundFeeNotAccumulated,
}

} // verus!
