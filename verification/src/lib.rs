//! Pricing and sizing for a two-asset constant-product liquidity pool.

pub mod curve;
pub mod error;
pub mod instructions;
pub mod state;
pub mod utils;
