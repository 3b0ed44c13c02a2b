//! The operations. Each takes the pool as it is and the vault balances as
//! they are now, and either rejects the request, leaving the pool untouched,
//! or updates the pool and returns the amounts for the host to move.

pub mod collect_creator_fee;
pub mod collect_fund_fee;
pub mod collect_protocol_fee;
pub mod create_config;
pub mod deposit;
pub mod fee_split;
pub mod initialize;
pub mod swap_base_input;
pub mod swap_base_output;
pub mod withdraw;

pub use collect_creator_fee::collect_creator_fee;
pub use collect_fund_fee::collect_fund_fee;
pub use collect_protocol_fee::collect_protocol_fee;
pub use create_config::create_amm_config;
pub use deposit::deposit;
pub use initialize::{initialize, PoolKeys};
pub use swap_base_input::swap;
pub use swap_base_output::swap_base_output;
pub use withdraw::withdraw;
