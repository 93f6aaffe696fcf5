use cpmm::curve::calculator::{CurveCalculator, SwapResult};
use cpmm::curve::constant_product::{ConstantProductCurve, TradingTokenResult};
use cpmm::curve::division::{divide_rounded, RoundDirection};
use cpmm::curve::fees::{Fees, FEE_RATE_DENOMINATOR_VALUE};
use cpmm::error::ErrorCode;
use cpmm::utils::math::integer_sqrt;

fn constant_after(swap: &SwapResult) -> u128 {
    (swap.new_swap_source_amount - swap.trade_fee) * swap.new_swap_destination_amount
}

#[test]
fn fee_denominator_is_one_million() {
    assert_eq!(FEE_RATE_DENOMINATOR_VALUE, 1_000_000);
}

#[test]
fn divide_rounded_floor_discards_the_remainder() {
    assert_eq!(divide_rounded(70, 3, RoundDirection::Floor), 23);
    assert_eq!(divide_rounded(69, 3, RoundDirection::Floor), 23);
    assert_eq!(divide_rounded(0, 3, RoundDirection::Floor), 0);
}

#[test]
fn divide_rounded_ceiling_counts_any_remainder() {
    assert_eq!(divide_rounded(70, 3, RoundDirection::Ceiling), 24);
    assert_eq!(divide_rounded(69, 3, RoundDirection::Ceiling), 23);
    assert_eq!(divide_rounded(1, 3, RoundDirection::Ceiling), 1);
    assert_eq!(divide_rounded(0, 3, RoundDirection::Ceiling), 0);
    assert_eq!(divide_rounded(u128::MAX, 1, RoundDirection::Ceiling), u128::MAX);
    assert_eq!(divide_rounded(u128::MAX, 2, RoundDirection::Ceiling), 1u128 << 127);
}

#[test]
fn trading_fee_rounds_up() {
    assert_eq!(Fees::trading_fee(10_000, 2_500), Ok(25));
    assert_eq!(Fees::trading_fee(10_001, 2_500), Ok(26));
    assert_eq!(Fees::trading_fee(1, 1), Ok(1));
    assert_eq!(Fees::trading_fee(399, 2_500), Ok(1));
    assert_eq!(Fees::trading_fee(400, 2_500), Ok(1));
    assert_eq!(Fees::trading_fee(401, 2_500), Ok(2));
}

#[test]
fn trading_fee_is_zero_at_rate_zero() {
    assert_eq!(Fees::trading_fee(0, 0), Ok(0));
    assert_eq!(Fees::trading_fee(1, 0), Ok(0));
    assert_eq!(Fees::trading_fee(u128::MAX, 0), Ok(0));
}

#[test]
fn trading_fee_is_zero_on_nothing() {
    assert_eq!(Fees::trading_fee(0, 5), Ok(0));
}

#[test]
fn trading_fee_overflow_is_reported() {
    let largest = u128::MAX / 2_500;
    assert_eq!(Fees::trading_fee(largest, 2_500), Ok(340282366920938463463374607431769));
    assert_eq!(Fees::trading_fee(largest + 1, 2_500), Err(ErrorCode::ArithmeticOverflow));
    assert_eq!(Fees::trading_fee(u128::MAX, 2), Err(ErrorCode::ArithmeticOverflow));
}

#[test]
fn pre_fee_amount_rounds_up() {
    assert_eq!(Fees::calculate_pre_fee_amount(9_975, 2_500), Ok(10_000));
    assert_eq!(Fees::calculate_pre_fee_amount(9_976, 2_500), Ok(10_002));
    assert_eq!(Fees::calculate_pre_fee_amount(1, 1), Ok(2));
    assert_eq!(Fees::calculate_pre_fee_amount(0, 999_999), Ok(0));
    assert_eq!(Fees::calculate_pre_fee_amount(1, 999_999), Ok(1_000_000));
}

#[test]
fn pre_fee_amount_is_the_amount_at_rate_zero() {
    assert_eq!(Fees::calculate_pre_fee_amount(12_345, 0), Ok(12_345));
}

#[test]
fn pre_fee_amount_overflow_is_reported() {
    let largest = u128::MAX / 1_000_000;
    assert!(Fees::calculate_pre_fee_amount(largest, 0).is_ok());
    assert_eq!(
        Fees::calculate_pre_fee_amount(largest + 1, 0),
        Err(ErrorCode::ArithmeticOverflow)
    );
}

#[test]
fn pre_fee_amount_less_its_fee_is_the_amount() {
    for rate in [0u64, 1, 2_500, 30_000, 500_000, 999_999] {
        for net in [0u128, 1, 2, 7, 399, 400, 401, 9_975, 9_976, 1_000_000, 123_456_789] {
            let gross = Fees::calculate_pre_fee_amount(net, rate).unwrap();
            let fee = Fees::trading_fee(gross, rate).unwrap();
            assert_eq!(gross - fee, net);
        }
    }
}

#[test]
fn validate_supply_rejects_an_empty_reserve() {
    assert_eq!(CurveCalculator::validate_supply(0, 5), Err(ErrorCode::DegenerateInitialSupply));
    assert_eq!(CurveCalculator::validate_supply(5, 0), Err(ErrorCode::DegenerateInitialSupply));
    assert_eq!(CurveCalculator::validate_supply(0, 0), Err(ErrorCode::DegenerateInitialSupply));
    assert_eq!(
        CurveCalculator::validate_supply(0, u64::MAX),
        Err(ErrorCode::DegenerateInitialSupply)
    );
    assert_eq!(
        CurveCalculator::validate_supply(u64::MAX, 0),
        Err(ErrorCode::DegenerateInitialSupply)
    );
}

#[test]
fn validate_supply_accepts_two_funded_reserves() {
    assert_eq!(CurveCalculator::validate_supply(1, 1), Ok(()));
    assert_eq!(CurveCalculator::validate_supply(u64::MAX, u64::MAX), Ok(()));
}

#[test]
fn swap_base_input_quarter_percent_on_even_pool() {
    let swap = CurveCalculator::swap_base_input(10_000, 1_000_000, 1_000_000, 2_500).unwrap();
    assert_eq!(swap.trade_fee, 25);
    assert_eq!(swap.source_amount_swapped - swap.trade_fee, 9_975);
    assert_eq!(swap.new_swap_destination_amount, 990_123);
    assert_eq!(swap.destination_amount_swapped, 9_877);
    assert_eq!(swap.source_amount_swapped, 10_000);
    assert_eq!(swap.new_swap_source_amount, 1_010_000);
}

#[test]
fn swap_base_input_whole_result() {
    assert_eq!(
        CurveCalculator::swap_base_input(100, 1_000, 1_000, 2_500),
        Ok(SwapResult {
            new_swap_source_amount: 1_100,
            new_swap_destination_amount: 909,
            source_amount_swapped: 100,
            destination_amount_swapped: 91,
            trade_fee: 1,
        })
    );
}

#[test]
fn swap_base_input_consumes_exactly_the_input() {
    for amount in [1u128, 2, 100, 10_000, 999_999, 5_000_000] {
        if let Ok(swap) = CurveCalculator::swap_base_input(amount, 1_000_000, 3_000_000, 2_500) {
            assert_eq!(swap.source_amount_swapped, amount);
            assert_eq!(swap.new_swap_source_amount, 1_000_000 + amount);
            assert_eq!(
                swap.new_swap_destination_amount + swap.destination_amount_swapped,
                3_000_000
            );
        }
    }
}

#[test]
fn swap_base_input_zero_output_is_rejected() {
    assert_eq!(
        CurveCalculator::swap_base_input(1, 1_000, 1_000, 2_500),
        Err(ErrorCode::ZeroTradingOutput)
    );
    assert_eq!(
        CurveCalculator::swap_base_input(0, 1_000, 1_000, 0),
        Err(ErrorCode::ZeroTradingOutput)
    );
    assert_eq!(
        CurveCalculator::swap_base_input(10, 1_000, 0, 0),
        Err(ErrorCode::ZeroTradingOutput)
    );
}

#[test]
fn swap_base_input_nothing_into_an_empty_reserve_is_rejected() {
    assert_eq!(
        CurveCalculator::swap_base_input(0, 0, 1_000, 0),
        Err(ErrorCode::ZeroTradingOutput)
    );
    assert_eq!(
        CurveCalculator::swap_base_input(1, 0, 1_000, 2_500),
        Err(ErrorCode::ZeroTradingOutput)
    );
}

#[test]
fn swap_base_input_overflow_is_reported() {
    assert_eq!(
        CurveCalculator::swap_base_input(u128::MAX, 1, 1, 2),
        Err(ErrorCode::ArithmeticOverflow)
    );
    assert_eq!(
        CurveCalculator::swap_base_input(u128::MAX, 1, 1, 0),
        Err(ErrorCode::ArithmeticOverflow)
    );
    assert_eq!(
        CurveCalculator::swap_base_input(1, 1u128 << 64, 1u128 << 64, 0),
        Err(ErrorCode::ArithmeticOverflow)
    );
}

#[test]
fn swap_base_input_keeps_the_product_when_the_division_is_exact() {
    let swap = CurveCalculator::swap_base_input(1_000, 1_000, 1_000, 0).unwrap();
    assert_eq!(swap.new_swap_destination_amount, 500);
    assert_eq!(swap.destination_amount_swapped, 500);
    assert_eq!(constant_after(&swap), 1_000_000);
    let swap = CurveCalculator::swap_base_input(3_000, 1_000, 1_000, 0).unwrap();
    assert_eq!(swap.destination_amount_swapped, 750);
    assert_eq!(constant_after(&swap), 1_000_000);
}

#[test]
fn swap_base_input_lowers_the_product_when_the_division_leaves_a_remainder() {
    let swap = CurveCalculator::swap_base_input(2_000, 1_000, 1_000, 0).unwrap();
    assert_eq!(swap.new_swap_destination_amount, 333);
    assert_eq!(swap.destination_amount_swapped, 667);
    assert_eq!(constant_after(&swap), 999_000);
    let swap = CurveCalculator::swap_base_input(10_000, 1_000_000, 1_000_000, 2_500).unwrap();
    assert_eq!(constant_after(&swap), 999_999_476_925);
}

#[test]
fn swap_base_input_product_after_is_product_less_remainder() {
    for amount in [1u128, 7, 100, 200, 5_000, 123_456] {
        for rate in [0u64, 2_500, 30_000] {
            if let Ok(swap) = CurveCalculator::swap_base_input(amount, 1_000, 777, rate) {
                let product = 1_000u128 * 777;
                let divisor = 1_000 + amount - swap.trade_fee;
                assert_eq!(constant_after(&swap), product - product % divisor);
            }
        }
    }
}

#[test]
fn swap_base_input_output_grows_with_the_input() {
    let mut last = 0u128;
    let mut priced = false;
    for amount in 0u128..3_000 {
        match CurveCalculator::swap_base_input(amount, 1_000, 1_000, 2_500) {
            Ok(swap) => {
                assert!(swap.destination_amount_swapped >= last);
                last = swap.destination_amount_swapped;
                priced = true;
            }
            Err(e) => {
                assert_eq!(e, ErrorCode::ZeroTradingOutput);
                assert!(!priced);
            }
        }
    }
    assert_eq!(
        CurveCalculator::swap_base_input(100, 1_000, 1_000, 2_500)
            .unwrap()
            .destination_amount_swapped,
        91
    );
    assert_eq!(
        CurveCalculator::swap_base_input(200, 1_000, 1_000, 2_500)
            .unwrap()
            .destination_amount_swapped,
        166
    );
    assert_eq!(
        CurveCalculator::swap_base_input(5_000, 1_000, 1_000, 2_500)
            .unwrap()
            .destination_amount_swapped,
        833
    );
}

#[test]
fn swap_base_input_fee_is_the_share_of_the_input() {
    for amount in [1u128, 399, 400, 401, 10_000, 10_001, 777_777] {
        if let Ok(swap) = CurveCalculator::swap_base_input(amount, 5_000_000, 9_000_000, 2_500) {
            assert_eq!(Ok(swap.trade_fee), Fees::trading_fee(amount, 2_500));
        }
    }
    let swap = CurveCalculator::swap_base_input(5_000, 1_000, 1_000, 2_500).unwrap();
    assert_eq!(swap.trade_fee, 13);
}

#[test]
fn swap_base_output_whole_reserve_is_insufficient_liquidity() {
    assert_eq!(
        CurveCalculator::swap_base_output(1_000_000, 1_000_000, 1_000_000, 2_500),
        Err(ErrorCode::InsufficientLiquidity)
    );
}

#[test]
fn swap_base_output_more_than_the_reserve_is_insufficient_liquidity() {
    assert_eq!(
        CurveCalculator::swap_base_output(1_000_001, 1_000_000, 1_000_000, 2_500),
        Err(ErrorCode::InsufficientLiquidity)
    );
    assert_eq!(
        CurveCalculator::swap_base_output(0, 1_000, 0, 0),
        Err(ErrorCode::InsufficientLiquidity)
    );
    assert_eq!(
        CurveCalculator::swap_base_output(u128::MAX, u128::MAX, u128::MAX, 0),
        Err(ErrorCode::InsufficientLiquidity)
    );
}

#[test]
fn swap_base_output_whole_result() {
    assert_eq!(
        CurveCalculator::swap_base_output(9_877, 1_000_000, 1_000_000, 2_500),
        Ok(SwapResult {
            new_swap_source_amount: 1_010_002,
            new_swap_destination_amount: 990_123,
            source_amount_swapped: 10_002,
            destination_amount_swapped: 9_877,
            trade_fee: 26,
        })
    );
    assert_eq!(
        CurveCalculator::swap_base_output(100, 1_000, 1_000, 2_500),
        Ok(SwapResult {
            new_swap_source_amount: 1_113,
            new_swap_destination_amount: 900,
            source_amount_swapped: 113,
            destination_amount_swapped: 100,
            trade_fee: 1,
        })
    );
}

#[test]
fn swap_base_output_produces_exactly_the_request() {
    for amount in [1u128, 2, 100, 9_877, 500_000, 999_999] {
        let swap = CurveCalculator::swap_base_output(amount, 1_000_000, 1_000_000, 2_500).unwrap();
        assert_eq!(swap.destination_amount_swapped, amount);
        assert_eq!(swap.new_swap_destination_amount, 1_000_000 - amount);
        assert_eq!(swap.new_swap_source_amount, 1_000_000 + swap.source_amount_swapped);
    }
}

#[test]
fn swap_base_output_of_nothing_costs_nothing() {
    assert_eq!(
        CurveCalculator::swap_base_output(0, 1_000, 1_000, 2_500),
        Ok(SwapResult {
            new_swap_source_amount: 1_000,
            new_swap_destination_amount: 1_000,
            source_amount_swapped: 0,
            destination_amount_swapped: 0,
            trade_fee: 0,
        })
    );
}

#[test]
fn swap_base_output_keeps_the_product() {
    for amount in [1u128, 2, 100, 9_877, 500_000, 999_999] {
        for rate in [0u64, 1, 2_500, 999_999] {
            let swap =
                CurveCalculator::swap_base_output(amount, 1_000_000, 1_000_000, rate).unwrap();
            assert!(constant_after(&swap) >= 1_000_000u128 * 1_000_000);
        }
    }
    let swap = CurveCalculator::swap_base_output(9_877, 1_000_000, 1_000_000, 2_500).unwrap();
    assert_eq!(constant_after(&swap), 1_000_000_467_048);
}

#[test]
fn swap_base_output_fee_is_the_share_of_the_gross_input() {
    for amount in [1u128, 2, 100, 9_877, 500_000, 999_999] {
        for rate in [0u64, 1, 2_500, 30_000, 999_999] {
            let swap =
                CurveCalculator::swap_base_output(amount, 1_000_000, 1_000_000, rate).unwrap();
            assert_eq!(Ok(swap.trade_fee), Fees::trading_fee(swap.source_amount_swapped, rate));
        }
    }
    let swap = CurveCalculator::swap_base_output(1, 1_000_000, 1_000_000, 2_500).unwrap();
    assert_eq!(swap.source_amount_swapped, 3);
    assert_eq!(swap.trade_fee, 1);
}

#[test]
fn swap_base_output_overflow_is_reported() {
    let full = u64::MAX as u128;
    assert_eq!(
        CurveCalculator::swap_base_output(full - 1, full, full, 2_500),
        Err(ErrorCode::ArithmeticOverflow)
    );
    assert_eq!(
        CurveCalculator::swap_base_output(1, 1u128 << 64, 1u128 << 64, 0),
        Err(ErrorCode::ArithmeticOverflow)
    );
}

#[test]
fn swap_base_input_without_fees_hands_out_the_rest() {
    assert_eq!(ConstantProductCurve::swap_base_input_without_fees(9_975, 1_000_000, 1_000_000), Ok(9_877));
    assert_eq!(ConstantProductCurve::swap_base_input_without_fees(1_000, 1_000, 1_000), Ok(500));
    assert_eq!(ConstantProductCurve::swap_base_input_without_fees(5, 0, 1_000), Ok(1_000));
    assert_eq!(
        ConstantProductCurve::swap_base_input_without_fees(0, 0, 1_000),
        Err(ErrorCode::ZeroTradingOutput)
    );
    assert_eq!(
        ConstantProductCurve::swap_base_input_without_fees(0, 10, 1_000),
        Err(ErrorCode::ZeroTradingOutput)
    );
    assert_eq!(
        ConstantProductCurve::swap_base_input_without_fees(1, u128::MAX, 1),
        Err(ErrorCode::ArithmeticOverflow)
    );
    assert_eq!(
        ConstantProductCurve::swap_base_input_without_fees(1, u128::MAX, 2),
        Err(ErrorCode::ArithmeticOverflow)
    );
}

#[test]
fn swap_base_output_without_fees_asks_for_the_rounded_up_input() {
    assert_eq!(ConstantProductCurve::swap_base_output_without_fees(9_877, 1_000_000, 1_000_000), Ok(9_976));
    assert_eq!(ConstantProductCurve::swap_base_output_without_fees(500, 1_000, 1_000), Ok(1_000));
    assert_eq!(ConstantProductCurve::swap_base_output_without_fees(100, 1_000, 1_000), Ok(112));
    assert_eq!(
        ConstantProductCurve::swap_base_output_without_fees(1_000, 1_000, 1_000),
        Err(ErrorCode::InsufficientLiquidity)
    );
    assert_eq!(
        ConstantProductCurve::swap_base_output_without_fees(1, u128::MAX, 2),
        Err(ErrorCode::ArithmeticOverflow)
    );
}

#[test]
fn lp_tokens_redeem_one_percent_rounding_up() {
    let amounts = CurveCalculator::lp_tokens_to_trading_tokens(
        1_000,
        100_000,
        500_000,
        250_000,
        RoundDirection::Ceiling,
    )
    .unwrap();
    assert_eq!(amounts.token_0_amount, 5_000);
    assert_eq!(amounts.token_1_amount, 2_500);
}

#[test]
fn lp_tokens_round_as_asked() {
    assert_eq!(
        CurveCalculator::lp_tokens_to_trading_tokens(7, 3, 10, 5, RoundDirection::Ceiling),
        Ok(TradingTokenResult { token_0_amount: 24, token_1_amount: 12 })
    );
    assert_eq!(
        CurveCalculator::lp_tokens_to_trading_tokens(7, 3, 10, 5, RoundDirection::Floor),
        Ok(TradingTokenResult { token_0_amount: 23, token_1_amount: 11 })
    );
    assert_eq!(
        ConstantProductCurve::lp_tokens_to_trading_tokens(7, 3, 10, 5, RoundDirection::Ceiling),
        Ok(TradingTokenResult { token_0_amount: 24, token_1_amount: 12 })
    );
}

#[test]
fn lp_tokens_full_supply_returns_both_reserves() {
    for round in [RoundDirection::Floor, RoundDirection::Ceiling] {
        for (supply, reserve_0, reserve_1) in [
            (100_000u128, 500_000u128, 250_000u128),
            (1, 1, 0),
            (7, 0, 13),
            (999_900, 2_000_000, 500_000),
            (u64::MAX as u128, u64::MAX as u128, 3),
        ] {
            assert_eq!(
                CurveCalculator::lp_tokens_to_trading_tokens(
                    supply, supply, reserve_0, reserve_1, round
                ),
                Ok(TradingTokenResult { token_0_amount: reserve_0, token_1_amount: reserve_1 })
            );
        }
    }
}

#[test]
fn lp_tokens_without_supply_are_rejected() {
    for round in [RoundDirection::Floor, RoundDirection::Ceiling] {
        assert_eq!(
            CurveCalculator::lp_tokens_to_trading_tokens(1, 0, 10, 10, round),
            Err(ErrorCode::ZeroComputedAmount)
        );
        assert_eq!(
            CurveCalculator::lp_tokens_to_trading_tokens(0, 0, 10, 10, round),
            Err(ErrorCode::ZeroComputedAmount)
        );
        assert_eq!(
            CurveCalculator::lp_tokens_to_trading_tokens(u128::MAX, 0, u128::MAX, 10, round),
            Err(ErrorCode::ZeroComputedAmount)
        );
    }
}

#[test]
fn lp_tokens_that_yield_nothing_are_rejected() {
    assert_eq!(
        CurveCalculator::lp_tokens_to_trading_tokens(1, 100, 10, 10, RoundDirection::Floor),
        Err(ErrorCode::ZeroComputedAmount)
    );
    assert_eq!(
        CurveCalculator::lp_tokens_to_trading_tokens(1, 100, 10, 10, RoundDirection::Ceiling),
        Ok(TradingTokenResult { token_0_amount: 1, token_1_amount: 1 })
    );
    assert_eq!(
        CurveCalculator::lp_tokens_to_trading_tokens(0, 100, 10, 10, RoundDirection::Ceiling),
        Err(ErrorCode::ZeroComputedAmount)
    );
    assert_eq!(
        CurveCalculator::lp_tokens_to_trading_tokens(5, 5, 0, 0, RoundDirection::Ceiling),
        Err(ErrorCode::ZeroComputedAmount)
    );
    assert_eq!(
        CurveCalculator::lp_tokens_to_trading_tokens(1, 100, 10, 100, RoundDirection::Floor),
        Ok(TradingTokenResult { token_0_amount: 0, token_1_amount: 1 })
    );
}

#[test]
fn lp_tokens_overflow_is_reported() {
    assert_eq!(
        CurveCalculator::lp_tokens_to_trading_tokens(2, 1, u128::MAX, 1, RoundDirection::Floor),
        Err(ErrorCode::ArithmeticOverflow)
    );
    assert_eq!(
        CurveCalculator::lp_tokens_to_trading_tokens(2, 1, 1, u128::MAX, RoundDirection::Ceiling),
        Err(ErrorCode::ArithmeticOverflow)
    );
}

#[test]
fn integer_sqrt_rounds_down() {
    assert_eq!(integer_sqrt(0), 0);
    assert_eq!(integer_sqrt(1), 1);
    assert_eq!(integer_sqrt(2), 1);
    assert_eq!(integer_sqrt(3), 1);
    assert_eq!(integer_sqrt(4), 2);
    assert_eq!(integer_sqrt(99), 9);
    assert_eq!(integer_sqrt(100), 10);
    assert_eq!(integer_sqrt(9_999), 99);
    assert_eq!(integer_sqrt(10_000), 100);
    assert_eq!(integer_sqrt(1_000_000_000_000), 1_000_000);
    assert_eq!(integer_sqrt(999_999_999_999), 999_999);
}

#[test]
fn integer_sqrt_of_the_largest_values() {
    let full = u64::MAX as u128;
    assert_eq!(integer_sqrt(full * full), u64::MAX);
    assert_eq!(integer_sqrt(full * full - 1), u64::MAX - 1);
    assert_eq!(integer_sqrt(u128::MAX), u64::MAX);
}
