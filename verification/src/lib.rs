//! The accounting engine of a constant-product market maker.
//!
//! Given the balances of a pool's two vaults, the engine quotes swaps on the
//! curve `x * y = k`, splits the trade fee among its claimants, keeps the
//! fees that are owed but not yet collected apart from the reserves that
//! prices are quoted on, and prices liquidity for deposits and withdrawals.
//! Every amount is an integer, and every rounding goes against the one who
//! trades, deposits or withdraws.
//!
//! The engine moves no tokens and stores nothing. An operation takes the pool
//! as it is, the vault balances as they are now and the caller's arguments; it
//! either rejects the request and leaves the pool untouched, or updates the
//! pool and returns the amounts for the host to move.
//!
//! - [`curve`]: the curve, the fees, the liquidity shares and the guard on
//!   the product of the reserves;
//! - [`states`]: the fee tier, the pool and the quotes;
//! - [`instructions`]: the operations;
//! - [`math`]: integer square root and the facts about division that the
//!   proofs rest on.

pub mod curve;
pub mod error;
pub mod instructions;
pub mod math;
pub mod states;
