//! The decisions of each instruction: what is checked, in which order, and
//! which amounts are moved.  Reading accounts and moving tokens is left to
//! the caller.

pub mod admin;
pub mod deposit;
pub mod initialize;
pub mod swap_base_input;
pub mod swap_base_output;
pub mod withdraw;
