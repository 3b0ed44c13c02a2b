//! Pure arithmetic: the curve, the fees, the liquidity shares and the guard
//! on the product of the reserves.

pub mod constant_product;
pub mod fees;
pub mod guard;
pub mod liquidity;

pub use constant_product::{swap_base_input_without_fees, swap_base_output_without_fees};
pub use fees::{
    creator_fee, fund_fee, gross_amount, protocol_fee, trade_fee, FEE_RATE_DENOMINATOR,
};
pub use guard::check_constant_product;
pub use liquidity::{
    issue_liquidity_for_deposit, redeem_liquidity_for_withdraw, seed_liquidity, MINIMUM_LIQUIDITY,
};
