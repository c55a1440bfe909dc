//! A two-asset constant-product liquidity pool with proportional ownership
//! shares, swap fees with an optional treasury cut, and a time-weighted
//! cumulative price accumulator.

pub mod error;
pub mod exchange;
pub mod fee;
pub mod laws;
pub mod math;
pub mod model;
pub mod shares;
pub mod types;
pub mod xcmp;
