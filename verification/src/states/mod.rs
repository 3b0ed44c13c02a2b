//! The records that the engine works on and the quotes that it returns.

pub mod config;
pub mod identity;
pub mod pool;
pub mod quote;

pub use config::AmmConfig;
pub use identity::Identity;
pub use pool::{PoolState, PoolStatusBitIndex, TradeDirection};
pub use quote::{LiquidityQuote, SeedQuote, SwapQuote};
