//! The fee model: a single linear rate over a fixed denominator.

use vstd::prelude::*;
use crate::curve::division::{ceil_div, divide_rounded, lemma_ceil_div_bounds, RoundDirection};
use crate::error::ErrorCode;

verus! {

/// The scale of a fee rate: a rate of `r` takes `r` parts in a million.
pub const FEE_RATE_DENOMINATOR_VALUE: u64 = 1_000_000;

/// The fee owed on `amount` at `trade_fee_rate`: the exact share, rounded up.
pub open spec fn trading_fee_spec(amount: nat, trade_fee_rate: nat) -> nat {
    ceil_div(amount * trade_fee_rate, FEE_RATE_DENOMINATOR_VALUE as nat)
}

/// The least gross amount whose part after the fee share covers
/// `post_fee_amount`.
pub open spec fn pre_fee_amount_spec(post_fee_amount: nat, trade_fee_rate: nat) -> nat
    recommends
        trade_fee_rate < FEE_RATE_DENOMINATOR_VALUE,
{
    ceil_div(
        post_fee_amount * (FEE_RATE_DENOMINATOR_VALUE as nat),
        (FEE_RATE_DENOMINATOR_VALUE - trade_fee_rate) as nat,
    )
}

/// [`trading_fee_spec`] on 128-bit values: nothing is computed where the
/// product of amount and rate does not fit.
pub open spec fn trading_fee_checked(amount: u128, trade_fee_rate: u64) -> Result<nat, ErrorCode> {
    if amount * trade_fee_rate > u128::MAX {
        Err(ErrorCode::ArithmeticOverflow)
    } else {
        Ok(trading_fee_spec(amount as nat, trade_fee_rate as nat))
    }
}

/// [`pre_fee_amount_spec`] on 128-bit values: nothing is computed where the
/// amount scaled by the denominator does not fit.
pub open spec fn pre_fee_amount_checked(post_fee_amount: u128, trade_fee_rate: u64) -> Result<
    nat,
    ErrorCode,
> {
    if post_fee_amount * FEE_RATE_DENOMINATOR_VALUE > u128::MAX {
        Err(ErrorCode::ArithmeticOverflow)
    } else {
        Ok(pre_fee_amount_spec(post_fee_amount as nat, trade_fee_rate as nat))
    }
}

/// A fee is never under-collected, never exceeds the amount it is charged
/// on while the rate stays within the denominator, and a zero rate charges
/// nothing.
pub proof fn lemma_trading_fee_bounds(amount: nat, trade_fee_rate: nat)
    requires
        trade_fee_rate <= FEE_RATE_DENOMINATOR_VALUE,
    ensures
        trading_fee_spec(amount, trade_fee_rate) * FEE_RATE_DENOMINATOR_VALUE >= amount
            * trade_fee_rate,
        trading_fee_spec(amount, trade_fee_rate) <= amount,
        trade_fee_rate == 0 ==> trading_fee_spec(amount, trade_fee_rate) == 0,
        amount == 0 ==> trading_fee_spec(amount, trade_fee_rate) == 0,
{
    let d = FEE_RATE_DENOMINATOR_VALUE as nat;
    let fee = trading_fee_spec(amount, trade_fee_rate);
    lemma_ceil_div_bounds(amount * trade_fee_rate, d);
    assert(fee <= amount) by (nonlinear_arith)
        requires
            d > 0,
            trade_fee_rate <= d,
            fee * d < amount * trade_fee_rate + d,
    ;
    if trade_fee_rate == 0 || amount == 0 {
        assert(amount * trade_fee_rate == 0) by (nonlinear_arith)
            requires
                trade_fee_rate == 0 || amount == 0,
        ;
    }
}

/// What is left of an amount once its fee is taken grows with the amount.
pub proof fn lemma_amount_after_fee_monotonic(smaller: nat, larger: nat, trade_fee_rate: nat)
    requires
        smaller <= larger,
        trade_fee_rate <= FEE_RATE_DENOMINATOR_VALUE,
    ensures
        smaller - trading_fee_spec(smaller, trade_fee_rate) <= larger - trading_fee_spec(
            larger,
            trade_fee_rate,
        ),
{
    let d = FEE_RATE_DENOMINATOR_VALUE as nat;
    let f1 = trading_fee_spec(smaller, trade_fee_rate);
    let f2 = trading_fee_spec(larger, trade_fee_rate);
    lemma_ceil_div_bounds(smaller * trade_fee_rate, d);
    lemma_ceil_div_bounds(larger * trade_fee_rate, d);
    assert(f2 - f1 <= larger - smaller) by (nonlinear_arith)
        requires
            d > 0,
            smaller <= larger,
            trade_fee_rate <= d,
            f1 * d >= smaller * trade_fee_rate,
            f2 * d < larger * trade_fee_rate + d,
    ;
}

/// The fee computations.
pub struct Fees {}

impl Fees {
    /// The fee owed on `amount`: `amount * trade_fee_rate / 1_000_000`,
    /// rounded up so that the pool is never short.  Fails only where the
    /// product does not fit in 128 bits.
    pub fn trading_fee(amount: u128, trade_fee_rate: u64) -> (fee: Result<u128, ErrorCode>)
        ensures
            match fee {
                Ok(value) => trading_fee_checked(amount, trade_fee_rate) == Ok::<nat, ErrorCode>(
                    value as nat,
                ),
                Err(e) => trading_fee_checked(amount, trade_fee_rate) == Err::<nat, ErrorCode>(e),
            },
    {
        match amount.checked_mul(trade_fee_rate as u128) {
            None => Err(ErrorCode::ArithmeticOverflow),
            Some(product) => Ok(
                divide_rounded(product, FEE_RATE_DENOMINATOR_VALUE as u128, RoundDirection::Ceiling),
            ),
        }
    }

    /// The gross amount to take in so that `post_fee_amount` is left once the
    /// fee is charged: `post_fee_amount * 1_000_000 / (1_000_000 - rate)`,
    /// rounded up.  Fails only where the product does not fit in 128 bits.
    pub fn calculate_pre_fee_amount(post_fee_amount: u128, trade_fee_rate: u64) -> (gross: Result<
        u128,
        ErrorCode,
    >)
        requires
            trade_fee_rate < FEE_RATE_DENOMINATOR_VALUE,
        ensures
            match gross {
                Ok(value) => pre_fee_amount_checked(post_fee_amount, trade_fee_rate) == Ok::<
                    nat,
                    ErrorCode,
                >(value as nat),
                Err(e) => pre_fee_amount_checked(post_fee_amount, trade_fee_rate) == Err::<
                    nat,
                    ErrorCode,
                >(e),
            },
    {
        match post_fee_amount.checked_mul(FEE_RATE_DENOMINATOR_VALUE as u128) {
            None => Err(ErrorCode::ArithmeticOverflow),
            Some(scaled) => Ok(
                divide_rounded(
                    scaled,
                    (FEE_RATE_DENOMINATOR_VALUE - trade_fee_rate) as u128,
                    RoundDirection::Ceiling,
                ),
            ),
        }
    }
}

} // verus!
