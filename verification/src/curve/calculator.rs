//! The entry point of the curve: swaps with their fee, share conversion and
//! the check on a new pool's reserves.

use vstd::prelude::*;
use crate::curve::constant_product::{
    lemma_source_reserve_for_output_bound,
    lp_tokens_to_trading_tokens_checked,
    source_reserve_for_output,
    swap_base_input_without_fees_spec,
    ConstantProductCurve,
    TradingTokenAmounts,
    TradingTokenResult,
};
use crate::curve::division::{lemma_ceil_div_bounds, RoundDirection};
use crate::curve::fees::{
    lemma_trading_fee_bounds,
    pre_fee_amount_spec,
    trading_fee_spec,
    Fees,
    FEE_RATE_DENOMINATOR_VALUE,
};
use crate::error::ErrorCode;

verus! {

/// Which of the pool's two assets comes in.
#[derive(Clone, Copy, Debug, PartialEq, Eq, Structural)]
pub enum TradeDirection {
    /// The first asset comes in, the second goes out.
    ZeroForOne,
    /// The second asset comes in, the first goes out.
    OneForZero,
}

/// What a swap does to the pool, as mathematical quantities.
pub struct SwapAmounts {
    /// The source reserve once the input, fee included, has joined it.
    pub new_swap_source_amount: nat,
    /// The destination reserve once the output has left it.
    pub new_swap_destination_amount: nat,
    /// What the trader pays, fee included.
    pub source_amount_swapped: nat,
    /// What the trader receives.
    pub destination_amount_swapped: nat,
    /// The part of the payment that is fee.
    pub trade_fee: nat,
}

impl SwapAmounts {
    /// The product of the reserves after the swap, with the fee left out of
    /// the source reserve.
    pub open spec fn constant_after(self) -> int {
        (self.new_swap_source_amount - self.trade_fee) * self.new_swap_destination_amount
    }
}

/// What a swap does to the pool, as the machine carries it.
#[derive(Clone, Copy, Debug, PartialEq, Eq)]
pub struct SwapResult {
    /// The source reserve once the input, fee included, has joined it.
    pub new_swap_source_amount: u128,
    /// The destination reserve once the output has left it.
    pub new_swap_destination_amount: u128,
    /// What the trader pays, fee included.
    pub source_amount_swapped: u128,
    /// What the trader receives.
    pub destination_amount_swapped: u128,
    /// The part of the payment that is fee.
    pub trade_fee: u128,
}

impl View for SwapResult {
    type V = SwapAmounts;

    open spec fn view(&self) -> SwapAmounts {
        SwapAmounts {
            new_swap_source_amount: self.new_swap_source_amount as nat,
            new_swap_destination_amount: self.new_swap_destination_amount as nat,
            source_amount_swapped: self.source_amount_swapped as nat,
            destination_amount_swapped: self.destination_amount_swapped as nat,
            trade_fee: self.trade_fee as nat,
        }
    }
}

/// A swap that fixes what comes in.  The fee is charged on the whole input
/// and stays in the source reserve; what is left of the input moves the
/// price.
pub open spec fn swap_base_input_spec(
    source_amount: nat,
    swap_source_amount: nat,
    swap_destination_amount: nat,
    trade_fee_rate: nat,
) -> Result<SwapAmounts, ErrorCode>
    recommends
        trade_fee_rate < FEE_RATE_DENOMINATOR_VALUE,
{
    let trade_fee = trading_fee_spec(source_amount, trade_fee_rate);
    let source_amount_less_fees = (source_amount - trade_fee) as nat;
    match swap_base_input_without_fees_spec(
        source_amount_less_fees,
        swap_source_amount,
        swap_destination_amount,
    ) {
        Err(e) => Err(e),
        Ok(destination_amount_swapped) => Ok(
            SwapAmounts {
                new_swap_source_amount: swap_source_amount + source_amount,
                new_swap_destination_amount: (swap_destination_amount
                    - destination_amount_swapped) as nat,
                source_amount_swapped: source_amount,
                destination_amount_swapped,
                trade_fee,
            },
        ),
    }
}

/// [`swap_base_input_spec`] on 128-bit values: nothing is computed where
/// the fee's product, the product of the reserves or the new source reserve
/// does not fit.
pub open spec fn swap_base_input_checked(
    source_amount: u128,
    swap_source_amount: u128,
    swap_destination_amount: u128,
    trade_fee_rate: u64,
) -> Result<SwapAmounts, ErrorCode> {
    if source_amount * trade_fee_rate > u128::MAX || swap_source_amount + source_amount
        > u128::MAX || swap_source_amount * swap_destination_amount > u128::MAX {
        Err(ErrorCode::ArithmeticOverflow)
    } else {
        swap_base_input_spec(
            source_amount as nat,
            swap_source_amount as nat,
            swap_destination_amount as nat,
            trade_fee_rate as nat,
        )
    }
}

/// What must join the source reserve, before the fee, for
/// `destination_amount` to go out.
pub open spec fn source_amount_less_fees_for_output(
    destination_amount: nat,
    swap_source_amount: nat,
    swap_destination_amount: nat,
) -> nat
    recommends
        destination_amount < swap_destination_amount,
{
    (source_reserve_for_output(destination_amount, swap_source_amount, swap_destination_amount)
        - swap_source_amount) as nat
}

/// A swap that fixes what goes out.  What the product rule asks for is
/// grossed up so that it is left once the fee is taken.
pub open spec fn swap_base_output_spec(
    destination_amount: nat,
    swap_source_amount: nat,
    swap_destination_amount: nat,
    trade_fee_rate: nat,
) -> Result<SwapAmounts, ErrorCode>
    recommends
        trade_fee_rate < FEE_RATE_DENOMINATOR_VALUE,
{
    if destination_amount >= swap_destination_amount {
        Err(ErrorCode::InsufficientLiquidity)
    } else {
        let source_amount_less_fees = source_amount_less_fees_for_output(
            destination_amount,
            swap_source_amount,
            swap_destination_amount,
        );
        let source_amount = pre_fee_amount_spec(source_amount_less_fees, trade_fee_rate);
        Ok(
            SwapAmounts {
                new_swap_source_amount: swap_source_amount + source_amount,
                new_swap_destination_amount: (swap_destination_amount - destination_amount) as nat,
                source_amount_swapped: source_amount,
                destination_amount_swapped: destination_amount,
                trade_fee: (source_amount - source_amount_less_fees) as nat,
            },
        )
    }
}

/// [`swap_base_output_spec`] on 128-bit values: a request within the
/// reserve is still turned down where the product of the reserves, the
/// scaled net input or the new source reserve does not fit.
pub open spec fn swap_base_output_checked(
    destination_amount: u128,
    swap_source_amount: u128,
    swap_destination_amount: u128,
    trade_fee_rate: u64,
) -> Result<SwapAmounts, ErrorCode> {
    let source_amount_less_fees = source_amount_less_fees_for_output(
        destination_amount as nat,
        swap_source_amount as nat,
        swap_destination_amount as nat,
    );
    if destination_amount < swap_destination_amount && (swap_source_amount
        * swap_destination_amount > u128::MAX || source_amount_less_fees
        * FEE_RATE_DENOMINATOR_VALUE > u128::MAX || swap_source_amount + pre_fee_amount_spec(
        source_amount_less_fees,
        trade_fee_rate as nat,
    ) > u128::MAX) {
        Err(ErrorCode::ArithmeticOverflow)
    } else {
        swap_base_output_spec(
            destination_amount as nat,
            swap_source_amount as nat,
            swap_destination_amount as nat,
            trade_fee_rate as nat,
        )
    }
}

/// A gross amount is never below the net amount it was raised from.
pub proof fn lemma_pre_fee_amount_bound(post_fee_amount: nat, trade_fee_rate: nat)
    requires
        trade_fee_rate < FEE_RATE_DENOMINATOR_VALUE,
    ensures
        pre_fee_amount_spec(post_fee_amount, trade_fee_rate) >= post_fee_amount,
{
    let d = FEE_RATE_DENOMINATOR_VALUE as nat;
    let m = (d - trade_fee_rate) as nat;
    let g = pre_fee_amount_spec(post_fee_amount, trade_fee_rate);
    lemma_ceil_div_bounds(post_fee_amount * d, m);
    assert(g >= post_fee_amount) by (nonlinear_arith)
        requires
            0 < m <= d,
            g * m >= post_fee_amount * d,
    ;
}

/// The curve's operations, gathered in one place.
pub struct CurveCalculator {}

impl CurveCalculator {
    /// Turns down a pool that would start with an empty reserve.
    pub fn validate_supply(token_0_amount: u64, token_1_amount: u64) -> (checked: Result<
        (),
        ErrorCode,
    >)
        ensures
            checked is Ok <==> token_0_amount > 0 && token_1_amount > 0,
            checked matches Err(e) ==> e == ErrorCode::DegenerateInitialSupply,
    {
        if token_0_amount == 0 || token_1_amount == 0 {
            Err(ErrorCode::DegenerateInitialSupply)
        } else {
            Ok(())
        }
    }

    /// Prices a swap of exactly `source_amount` into the pool.
    pub fn swap_base_input(
        source_amount: u128,
        swap_source_amount: u128,
        swap_destination_amount: u128,
        trade_fee_rate: u64,
    ) -> (swap: Result<SwapResult, ErrorCode>)
        requires
            trade_fee_rate < FEE_RATE_DENOMINATOR_VALUE,
        ensures
            match swap {
                Ok(result) => swap_base_input_checked(
                    source_amount,
                    swap_source_amount,
                    swap_destination_amount,
                    trade_fee_rate,
                ) == Ok::<SwapAmounts, ErrorCode>(result@),
                Err(e) => swap_base_input_checked(
                    source_amount,
                    swap_source_amount,
                    swap_destination_amount,
                    trade_fee_rate,
                ) == Err::<SwapAmounts, ErrorCode>(e),
            },
    {
        let trade_fee: u128 = match Fees::trading_fee(source_amount, trade_fee_rate) {
            Ok(trade_fee) => trade_fee,
            Err(e) => { return Err(e); },
        };
        let new_swap_source_amount: u128 = match swap_source_amount.checked_add(source_amount) {
            Some(sum) => sum,
            None => { return Err(ErrorCode::ArithmeticOverflow); },
        };
        proof {
            lemma_trading_fee_bounds(source_amount as nat, trade_fee_rate as nat);
        }
        let source_amount_less_fees: u128 = source_amount - trade_fee;
        let destination_amount_swapped: u128 =
            match ConstantProductCurve::swap_base_input_without_fees(
            source_amount_less_fees,
            swap_source_amount,
            swap_destination_amount,
        ) {
            Ok(amount) => amount,
            Err(e) => { return Err(e); },
        };
        Ok(
            SwapResult {
                new_swap_source_amount,
                new_swap_destination_amount: swap_destination_amount - destination_amount_swapped,
                source_amount_swapped: source_amount,
                destination_amount_swapped,
                trade_fee,
            },
        )
    }

    /// Prices a swap of exactly `destination_amount` out of the pool.
    pub fn swap_base_output(
        destination_amount: u128,
        swap_source_amount: u128,
        swap_destination_amount: u128,
        trade_fee_rate: u64,
    ) -> (swap: Result<SwapResult, ErrorCode>)
        requires
            trade_fee_rate < FEE_RATE_DENOMINATOR_VALUE,
        ensures
            match swap {
                Ok(result) => swap_base_output_checked(
                    destination_amount,
                    swap_source_amount,
                    swap_destination_amount,
                    trade_fee_rate,
                ) == Ok::<SwapAmounts, ErrorCode>(result@),
                Err(e) => swap_base_output_checked(
                    destination_amount,
                    swap_source_amount,
                    swap_destination_amount,
                    trade_fee_rate,
                ) == Err::<SwapAmounts, ErrorCode>(e),
            },
    {
        let source_amount_less_fees: u128 =
            match ConstantProductCurve::swap_base_output_without_fees(
            destination_amount,
            swap_source_amount,
            swap_destination_amount,
        ) {
            Ok(amount) => amount,
            Err(e) => { return Err(e); },
        };
        let source_amount: u128 = match Fees::calculate_pre_fee_amount(
            source_amount_less_fees,
            trade_fee_rate,
        ) {
            Ok(amount) => amount,
            Err(e) => { return Err(e); },
        };
        let new_swap_source_amount: u128 = match swap_source_amount.checked_add(source_amount) {
            Some(sum) => sum,
            None => { return Err(ErrorCode::ArithmeticOverflow); },
        };
        proof {
            lemma_pre_fee_amount_bound(source_amount_less_fees as nat, trade_fee_rate as nat);
            lemma_source_reserve_for_output_bound(
                destination_amount as nat,
                swap_source_amount as nat,
                swap_destination_amount as nat,
            );
        }
        Ok(
            SwapResult {
                new_swap_source_amount,
                new_swap_destination_amount: swap_destination_amount - destination_amount,
                source_amount_swapped: source_amount,
                destination_amount_swapped: destination_amount,
                trade_fee: source_amount - source_amount_less_fees,
            },
        )
    }

    /// Converts pool shares into the amounts of the two assets behind them.
    pub fn lp_tokens_to_trading_tokens(
        lp_token_amount: u128,
        lp_token_supply: u128,
        swap_token_0_amount: u128,
        swap_token_1_amount: u128,
        round_direction: RoundDirection,
    ) -> (amounts: Result<TradingTokenResult, ErrorCode>)
        ensures
            match amounts {
                Ok(result) => lp_tokens_to_trading_tokens_checked(
                    lp_token_amount,
                    lp_token_supply,
                    swap_token_0_amount,
                    swap_token_1_amount,
                    round_direction,
                ) == Ok::<TradingTokenAmounts, ErrorCode>(result@),
                Err(e) => lp_tokens_to_trading_tokens_checked(
                    lp_token_amount,
                    lp_token_supply,
                    swap_token_0_amount,
                    swap_token_1_amount,
                    round_direction,
                ) == Err::<TradingTokenAmounts, ErrorCode>(e),
            },
    {
        ConstantProductCurve::lp_tokens_to_trading_tokens(
            lp_token_amount,
            lp_token_supply,
            swap_token_0_amount,
            swap_token_1_amount,
            round_direction,
        )
    }
}

} // verus!
