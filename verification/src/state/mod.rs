//! The records the pool keeps: its configuration and its own state.

pub mod config;
pub mod pool;
