//! Helpers shared by the curve and the instructions.

pub mod math;
