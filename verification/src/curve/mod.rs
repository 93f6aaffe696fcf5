//! The curve: fee model, rounding divisions, swap math and share conversion.

pub mod calculator;
pub mod constant_product;
pub mod division;
pub mod fees;
pub mod theorems;
