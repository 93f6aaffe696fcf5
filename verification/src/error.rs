//! Failures that the pool's computations and settlement decisions report.

use vstd::prelude::*;

verus! {

/// Every way in which an operation on the pool can be turned down.
#[derive(Clone, Copy, Debug, PartialEq, Eq, Structural)]
pub enum ErrorCode {
    /// The pool or its configuration does not admit the operation now.
    NotApproved,
    /// The vaults handed in are not the pool's two vaults in either order.
    InvalidVault,
    /// A parameter selector that the operation does not know.
    InvalidInput,
    /// The amount computed lies beyond the bound the caller set.
    ExceededSlippage,
    /// One of the mints is of a kind that pools are not created for.
    NotSupportMint,
    /// The initial liquidity does not cover the locked minimum.
    InitLpAmountTooLess,
    /// An amount that must be positive was zero.
    RequireGtViolated,
    /// A quantity left the range of the integer type that carries it.
    ArithmeticOverflow,
    /// A pool was to be created with an empty reserve.
    DegenerateInitialSupply,
    /// A swap would hand out nothing.
    ZeroTradingOutput,
    /// A share conversion has no supply to divide by, or yields nothing.
    ZeroComputedAmount,
    /// A swap asks for the whole output reserve or more.
    InsufficientLiquidity,
    /// The fee-adjusted product of the reserves would fall.
    InvariantViolated,
}

} // verus!
