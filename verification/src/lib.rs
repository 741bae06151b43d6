//! Accounting core of a constant-product automated market maker: reserve
//! bookkeeping, fee-adjusted swap pricing, proportional deposit sizing,
//! slippage enforcement, and the all-or-nothing contract binding token
//! movement to state mutation.

pub mod curve;
pub mod deposit;
pub mod error;
pub mod initialize;
pub mod state;
pub mod swap;
