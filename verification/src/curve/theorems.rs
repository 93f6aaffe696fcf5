//! What holds of the curve on every input: the product of the reserves
//! across a swap, monotonic pricing, the exact fee and full redemption.

use vstd::prelude::*;
use crate::curve::calculator::{
    lemma_pre_fee_amount_bound,
    source_amount_less_fees_for_output,
    swap_base_input_checked,
    swap_base_input_spec,
    swap_base_output_spec,
};
use crate::curve::constant_product::{
    destination_reserve_after_input,
    lemma_destination_reserve_after_input_bound,
    lemma_source_reserve_for_output_bound,
    lp_tokens_to_trading_tokens_checked,
    lp_tokens_to_trading_tokens_spec,
    source_reserve_for_output,
    TradingTokenAmounts,
};
use crate::curve::division::{
    lemma_ceil_div_bounds,
    lemma_ceil_div_unique,
    lemma_div_mod_parts,
    lemma_div_of_multiple,
    lemma_floor_div_monotonic,
    RoundDirection,
};
use crate::curve::fees::{
    lemma_amount_after_fee_monotonic,
    lemma_trading_fee_bounds,
    pre_fee_amount_spec,
    trading_fee_spec,
    FEE_RATE_DENOMINATOR_VALUE,
};
use crate::error::ErrorCode;

verus! {

/// What is left of `source_amount` once its fee is taken.
pub open spec fn source_amount_less_fees(source_amount: nat, trade_fee_rate: nat) -> nat {
    (source_amount - trading_fee_spec(source_amount, trade_fee_rate)) as nat
}

/// A swap that fixes the input never raises the fee-adjusted product of the
/// reserves: the destination reserve is rounded down, so the product after
/// the swap is the largest multiple of the new net source reserve that does
/// not exceed the product before.
pub proof fn lemma_swap_base_input_product_never_grows(
    source_amount: nat,
    swap_source_amount: nat,
    swap_destination_amount: nat,
    trade_fee_rate: nat,
)
    requires
        trade_fee_rate < FEE_RATE_DENOMINATOR_VALUE,
        swap_base_input_spec(
            source_amount,
            swap_source_amount,
            swap_destination_amount,
            trade_fee_rate,
        ) is Ok,
    ensures
        ({
            let swap = swap_base_input_spec(
                source_amount,
                swap_source_amount,
                swap_destination_amount,
                trade_fee_rate,
            )->Ok_0;
            let product = swap_source_amount * swap_destination_amount;
            let divisor = swap_source_amount + source_amount_less_fees(
                source_amount,
                trade_fee_rate,
            );
            &&& swap.constant_after() == product - product % divisor
            &&& swap.constant_after() <= product
        }),
{
    let swap = swap_base_input_spec(
        source_amount,
        swap_source_amount,
        swap_destination_amount,
        trade_fee_rate,
    )->Ok_0;
    let net = source_amount_less_fees(source_amount, trade_fee_rate);
    let product = swap_source_amount * swap_destination_amount;
    let divisor = swap_source_amount + net;
    lemma_trading_fee_bounds(source_amount, trade_fee_rate);
    lemma_destination_reserve_after_input_bound(net, swap_source_amount, swap_destination_amount);
    lemma_div_mod_parts(product, divisor);
    let kept = destination_reserve_after_input(net, swap_source_amount, swap_destination_amount);
    assert(swap.new_swap_destination_amount == kept);
    assert(swap.new_swap_source_amount - swap.trade_fee == divisor);
    assert(swap.constant_after() == divisor * kept);
}

/// A swap that fixes the input keeps the fee-adjusted product of the
/// reserves, `(new source reserve - fee) * new destination reserve >=
/// source reserve * destination reserve`, whenever the new net source
/// reserve divides the product of the reserves.
pub proof fn lemma_swap_base_input_keeps_product(
    source_amount: nat,
    swap_source_amount: nat,
    swap_destination_amount: nat,
    trade_fee_rate: nat,
)
    requires
        trade_fee_rate < FEE_RATE_DENOMINATOR_VALUE,
        swap_base_input_spec(
            source_amount,
            swap_source_amount,
            swap_destination_amount,
            trade_fee_rate,
        ) is Ok,
        (swap_source_amount * swap_destination_amount) % (swap_source_amount
            + source_amount_less_fees(source_amount, trade_fee_rate)) == 0,
    ensures
        swap_base_input_spec(
            source_amount,
            swap_source_amount,
            swap_destination_amount,
            trade_fee_rate,
        )->Ok_0.constant_after() >= swap_source_amount * swap_destination_amount,
{
    lemma_swap_base_input_product_never_grows(
        source_amount,
        swap_source_amount,
        swap_destination_amount,
        trade_fee_rate,
    );
}

/// Where the new net source reserve does not divide the product of the
/// reserves, a swap that fixes the input lowers the fee-adjusted product.
pub proof fn lemma_swap_base_input_lowers_product(
    source_amount: nat,
    swap_source_amount: nat,
    swap_destination_amount: nat,
    trade_fee_rate: nat,
)
    requires
        trade_fee_rate < FEE_RATE_DENOMINATOR_VALUE,
        swap_base_input_spec(
            source_amount,
            swap_source_amount,
            swap_destination_amount,
            trade_fee_rate,
        ) is Ok,
        (swap_source_amount * swap_destination_amount) % (swap_source_amount
            + source_amount_less_fees(source_amount, trade_fee_rate)) != 0,
    ensures
        swap_base_input_spec(
            source_amount,
            swap_source_amount,
            swap_destination_amount,
            trade_fee_rate,
        )->Ok_0.constant_after() < swap_source_amount * swap_destination_amount,
{
    lemma_swap_base_input_product_never_grows(
        source_amount,
        swap_source_amount,
        swap_destination_amount,
        trade_fee_rate,
    );
}

/// A swap that fixes the output keeps the fee-adjusted product of the
/// reserves on every input: the source reserve it asks for is rounded up.
pub proof fn lemma_swap_base_output_keeps_product(
    destination_amount: nat,
    swap_source_amount: nat,
    swap_destination_amount: nat,
    trade_fee_rate: nat,
)
    requires
        trade_fee_rate < FEE_RATE_DENOMINATOR_VALUE,
        swap_base_output_spec(
            destination_amount,
            swap_source_amount,
            swap_destination_amount,
            trade_fee_rate,
        ) is Ok,
    ensures
        ({
            let swap = swap_base_output_spec(
                destination_amount,
                swap_source_amount,
                swap_destination_amount,
                trade_fee_rate,
            )->Ok_0;
            let product = swap_source_amount * swap_destination_amount;
            &&& swap.constant_after() >= product
            &&& swap.constant_after() < product + swap.new_swap_destination_amount
            &&& swap.trade_fee <= swap.source_amount_swapped
            &&& swap.source_amount_swapped <= swap.new_swap_source_amount
        }),
{
    let swap = swap_base_output_spec(
        destination_amount,
        swap_source_amount,
        swap_destination_amount,
        trade_fee_rate,
    )->Ok_0;
    let product = swap_source_amount * swap_destination_amount;
    let left = (swap_destination_amount - destination_amount) as nat;
    let needed = source_reserve_for_output(
        destination_amount,
        swap_source_amount,
        swap_destination_amount,
    );
    let net = source_amount_less_fees_for_output(
        destination_amount,
        swap_source_amount,
        swap_destination_amount,
    );
    lemma_source_reserve_for_output_bound(
        destination_amount,
        swap_source_amount,
        swap_destination_amount,
    );
    lemma_pre_fee_amount_bound(net, trade_fee_rate);
    lemma_ceil_div_bounds(product, left);
    assert(swap.new_swap_source_amount - swap.trade_fee == needed);
    assert(swap.constant_after() == needed * left);
}

/// For fixed reserves and rate, a larger input never buys less: if the
/// smaller input is priced, so is the larger one, and it receives at least
/// as much.
pub proof fn lemma_swap_base_input_monotonic(
    smaller_source_amount: nat,
    larger_source_amount: nat,
    swap_source_amount: nat,
    swap_destination_amount: nat,
    trade_fee_rate: nat,
)
    requires
        trade_fee_rate < FEE_RATE_DENOMINATOR_VALUE,
        smaller_source_amount <= larger_source_amount,
        swap_base_input_spec(
            smaller_source_amount,
            swap_source_amount,
            swap_destination_amount,
            trade_fee_rate,
        ) is Ok,
    ensures
        swap_base_input_spec(
            larger_source_amount,
            swap_source_amount,
            swap_destination_amount,
            trade_fee_rate,
        ) is Ok,
        swap_base_input_spec(
            smaller_source_amount,
            swap_source_amount,
            swap_destination_amount,
            trade_fee_rate,
        )->Ok_0.destination_amount_swapped <= swap_base_input_spec(
            larger_source_amount,
            swap_source_amount,
            swap_destination_amount,
            trade_fee_rate,
        )->Ok_0.destination_amount_swapped,
{
    let net_1 = source_amount_less_fees(smaller_source_amount, trade_fee_rate);
    let net_2 = source_amount_less_fees(larger_source_amount, trade_fee_rate);
    let product = swap_source_amount * swap_destination_amount;
    lemma_trading_fee_bounds(smaller_source_amount, trade_fee_rate);
    lemma_trading_fee_bounds(larger_source_amount, trade_fee_rate);
    lemma_amount_after_fee_monotonic(smaller_source_amount, larger_source_amount, trade_fee_rate);
    assert(net_1 <= net_2);
    lemma_floor_div_monotonic(
        product,
        swap_source_amount + net_2,
        product,
        swap_source_amount + net_1,
    );
}

/// The fee of a swap that fixes the input is the rate's share of the whole
/// input, rounded up.
pub proof fn lemma_swap_base_input_fee_exact(
    source_amount: nat,
    swap_source_amount: nat,
    swap_destination_amount: nat,
    trade_fee_rate: nat,
)
    requires
        swap_base_input_spec(
            source_amount,
            swap_source_amount,
            swap_destination_amount,
            trade_fee_rate,
        ) is Ok,
    ensures
        ({
            let swap = swap_base_input_spec(
                source_amount,
                swap_source_amount,
                swap_destination_amount,
                trade_fee_rate,
            )->Ok_0;
            &&& swap.source_amount_swapped == source_amount
            &&& swap.trade_fee == trading_fee_spec(swap.source_amount_swapped, trade_fee_rate)
        }),
{
}

/// The fee of a swap that fixes the output, the gross input less the net
/// input, is the rate's share of the gross input, rounded up.
pub proof fn lemma_swap_base_output_fee_exact(
    destination_amount: nat,
    swap_source_amount: nat,
    swap_destination_amount: nat,
    trade_fee_rate: nat,
)
    requires
        trade_fee_rate < FEE_RATE_DENOMINATOR_VALUE,
        swap_base_output_spec(
            destination_amount,
            swap_source_amount,
            swap_destination_amount,
            trade_fee_rate,
        ) is Ok,
    ensures
        ({
            let swap = swap_base_output_spec(
                destination_amount,
                swap_source_amount,
                swap_destination_amount,
                trade_fee_rate,
            )->Ok_0;
            &&& swap.destination_amount_swapped == destination_amount
            &&& swap.trade_fee == trading_fee_spec(swap.source_amount_swapped, trade_fee_rate)
        }),
{
    let net = source_amount_less_fees_for_output(
        destination_amount,
        swap_source_amount,
        swap_destination_amount,
    );
    lemma_pre_fee_amount_exact(net, trade_fee_rate);
}

/// Grossing an amount up and charging the fee on the gross amount leaves
/// the amount: the two roundings agree.
pub proof fn lemma_pre_fee_amount_exact(post_fee_amount: nat, trade_fee_rate: nat)
    requires
        trade_fee_rate < FEE_RATE_DENOMINATOR_VALUE,
    ensures
        pre_fee_amount_spec(post_fee_amount, trade_fee_rate) - trading_fee_spec(
            pre_fee_amount_spec(post_fee_amount, trade_fee_rate),
            trade_fee_rate,
        ) == post_fee_amount,
{
    let d = FEE_RATE_DENOMINATOR_VALUE as nat;
    let m = (d - trade_fee_rate) as nat;
    let gross = pre_fee_amount_spec(post_fee_amount, trade_fee_rate);
    lemma_pre_fee_amount_bound(post_fee_amount, trade_fee_rate);
    lemma_ceil_div_bounds(post_fee_amount * d, m);
    let fee = (gross - post_fee_amount) as nat;
    assert(fee * d >= gross * trade_fee_rate && fee * d < gross * trade_fee_rate + d)
        by (nonlinear_arith)
        requires
            m == d - trade_fee_rate,
            0 < m <= d,
            gross >= post_fee_amount,
            fee == gross - post_fee_amount,
            gross * m >= post_fee_amount * d,
            gross * m < post_fee_amount * d + m,
    ;
    lemma_ceil_div_unique(gross * trade_fee_rate, d, fee);
}

/// Redeeming every share returns both reserves whole, however the division
/// is rounded, as long as there are shares and the pool is not empty.
pub proof fn lemma_lp_tokens_full_supply(
    lp_token_supply: nat,
    swap_token_0_amount: nat,
    swap_token_1_amount: nat,
    round_direction: RoundDirection,
)
    requires
        lp_token_supply > 0,
        swap_token_0_amount > 0 || swap_token_1_amount > 0,
    ensures
        lp_tokens_to_trading_tokens_spec(
            lp_token_supply,
            lp_token_supply,
            swap_token_0_amount,
            swap_token_1_amount,
            round_direction,
        ) == Ok::<TradingTokenAmounts, ErrorCode>(
            TradingTokenAmounts {
                token_0_amount: swap_token_0_amount,
                token_1_amount: swap_token_1_amount,
            },
        ),
{
    lemma_div_of_multiple(swap_token_0_amount, lp_token_supply);
    lemma_div_of_multiple(swap_token_1_amount, lp_token_supply);
    assert(lp_token_supply * swap_token_0_amount == swap_token_0_amount * lp_token_supply)
        by (nonlinear_arith);
    assert(lp_token_supply * swap_token_1_amount == swap_token_1_amount * lp_token_supply)
        by (nonlinear_arith);
}

/// On amounts of 64 bits a swap that fixes the input never leaves the
/// 128-bit range, and what goes out and the fee are again amounts of 64
/// bits.
pub proof fn lemma_swap_base_input_fits(
    source_amount: u64,
    swap_source_amount: u64,
    swap_destination_amount: u64,
    trade_fee_rate: u64,
)
    requires
        trade_fee_rate < FEE_RATE_DENOMINATOR_VALUE,
    ensures
        swap_base_input_checked(
            source_amount as u128,
            swap_source_amount as u128,
            swap_destination_amount as u128,
            trade_fee_rate,
        ) == swap_base_input_spec(
            source_amount as nat,
            swap_source_amount as nat,
            swap_destination_amount as nat,
            trade_fee_rate as nat,
        ),
        swap_base_input_spec(
            source_amount as nat,
            swap_source_amount as nat,
            swap_destination_amount as nat,
            trade_fee_rate as nat,
        ) matches Ok(swap) ==> swap.trade_fee <= source_amount
            && swap.destination_amount_swapped <= swap_destination_amount
            && swap.new_swap_destination_amount < swap_destination_amount,
{
    assert(source_amount * trade_fee_rate <= u128::MAX) by (nonlinear_arith)
        requires
            source_amount <= u64::MAX,
            trade_fee_rate < 1_000_000,
    ;
    assert(swap_source_amount * swap_destination_amount <= u128::MAX) by (nonlinear_arith)
        requires
            swap_source_amount <= u64::MAX,
            swap_destination_amount <= u64::MAX,
    ;
    lemma_trading_fee_bounds(source_amount as nat, trade_fee_rate as nat);
}

/// On amounts of 64 bits a share conversion never leaves the 128-bit range.
pub proof fn lemma_lp_tokens_to_trading_tokens_fits(
    lp_token_amount: u64,
    lp_token_supply: u64,
    swap_token_0_amount: u64,
    swap_token_1_amount: u64,
    round_direction: RoundDirection,
)
    ensures
        lp_tokens_to_trading_tokens_checked(
            lp_token_amount as u128,
            lp_token_supply as u128,
            swap_token_0_amount as u128,
            swap_token_1_amount as u128,
            round_direction,
        ) == lp_tokens_to_trading_tokens_spec(
            lp_token_amount as nat,
            lp_token_supply as nat,
            swap_token_0_amount as nat,
            swap_token_1_amount as nat,
            round_direction,
        ),
{
    assert(lp_token_amount * swap_token_0_amount <= u128::MAX) by (nonlinear_arith)
        requires
            lp_token_amount <= u64::MAX,
            swap_token_0_amount <= u64::MAX,
    ;
    assert(lp_token_amount * swap_token_1_amount <= u128::MAX) by (nonlinear_arith)
        requires
            lp_token_amount <= u64::MAX,
            swap_token_1_amount <= u64::MAX,
    ;
}

} // verus!
