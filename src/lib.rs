//! Rolling low / median / high fee-rate estimation from confirmed blocks.
//!
//! Fee rates are fixed-point integers: a rate of `RATE_SCALE` is one unit of
//! fee per unit of scalar cost.

pub mod cost;
pub mod fee_rate;
pub mod percentile;
pub mod receipt;
pub mod smoother;
pub mod store;
pub mod estimator;
pub mod laws;
