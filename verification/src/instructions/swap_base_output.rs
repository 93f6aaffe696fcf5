//! A swap that fixes the amount going out.

use vstd::prelude::*;
use crate::curve::calculator::{swap_base_output_checked, CurveCalculator};
use crate::curve::theorems::lemma_swap_base_output_keeps_product;
use crate::error::ErrorCode;
use crate::instructions::swap_base_input::{
    check_constant_product,
    trade_direction,
    trade_direction_spec,
    SwapSettlement,
};
use crate::state::config::AmmConfig;
use crate::state::pool::{PoolState, PoolStatusBitIndex, VaultInfo};

verus! {

/// What a swap for exactly `amount_out` comes to.  In this order: the pool
/// must admit swaps and be open; the amount must be positive; the vaults
/// must be the pool's; the curve must price the swap; and the input must
/// stay within the trader's maximum.  The product of the reserves needs no
/// mention: such a swap never lowers it.
pub open spec fn process_swap_base_output_spec(
    pool_state: PoolState,
    amm_config: AmmConfig,
    input_vault: VaultInfo,
    output_vault: VaultInfo,
    block_timestamp: u64,
    amount_out: u64,
    max_amount_in: u64,
) -> Result<SwapSettlement, ErrorCode> {
    if !pool_state.status_enabled(PoolStatusBitIndex::Swap) || block_timestamp
        < pool_state.open_time {
        Err(ErrorCode::NotApproved)
    } else if amount_out == 0 {
        Err(ErrorCode::RequireGtViolated)
    } else {
        match trade_direction_spec(pool_state, input_vault.key, output_vault.key) {
            Err(e) => Err(e),
            Ok(trade_direction) => match swap_base_output_checked(
                amount_out as u128,
                input_vault.amount as u128,
                output_vault.amount as u128,
                amm_config.trade_fee_rate,
            ) {
                Err(e) => Err(e),
                Ok(swap) => if swap.source_amount_swapped > max_amount_in {
                    Err(ErrorCode::ExceededSlippage)
                } else {
                    Ok(
                        SwapSettlement {
                            trade_direction,
                            amount_in: swap.source_amount_swapped as u64,
                            amount_out,
                            trade_fee: swap.trade_fee as u64,
                        },
                    )
                },
            },
        }
    }
}

/// Decides a swap for exactly `amount_out` and, where it goes through,
/// notes the epoch in the pool's record.  A swap that is turned down leaves
/// the record as it was.
pub fn process_swap_base_output(
    pool_state: &mut PoolState,
    amm_config: &AmmConfig,
    input_vault: &VaultInfo,
    output_vault: &VaultInfo,
    block_timestamp: u64,
    epoch: u64,
    amount_out: u64,
    max_amount_in: u64,
) -> (settlement: Result<SwapSettlement, ErrorCode>)
    requires
        amm_config.wf(),
    ensures
        settlement == process_swap_base_output_spec(
            *old(pool_state),
            *amm_config,
            *input_vault,
            *output_vault,
            block_timestamp,
            amount_out,
            max_amount_in,
        ),
        settlement is Ok ==> *final(pool_state) == old(pool_state).with_recent_epoch(epoch),
        settlement is Err ==> *final(pool_state) == *old(pool_state),
{
    if !pool_state.get_status_by_bit(PoolStatusBitIndex::Swap) || block_timestamp
        < pool_state.open_time {
        return Err(ErrorCode::NotApproved);
    }
    if amount_out == 0 {
        return Err(ErrorCode::RequireGtViolated);
    }
    let trade_direction = match trade_direction(pool_state, &input_vault.key, &output_vault.key) {
        Ok(trade_direction) => trade_direction,
        Err(e) => { return Err(e); },
    };
    proof {
        assert(input_vault.amount * output_vault.amount <= u128::MAX) by (nonlinear_arith)
            requires
                input_vault.amount <= u64::MAX,
                output_vault.amount <= u64::MAX,
        ;
    }
    let constant_before: u128 = input_vault.amount as u128 * output_vault.amount as u128;
    let swap = match CurveCalculator::swap_base_output(
        amount_out as u128,
        input_vault.amount as u128,
        output_vault.amount as u128,
        amm_config.trade_fee_rate,
    ) {
        Ok(swap) => swap,
        Err(e) => { return Err(e); },
    };
    proof {
        lemma_swap_base_output_keeps_product(
            amount_out as nat,
            input_vault.amount as nat,
            output_vault.amount as nat,
            amm_config.trade_fee_rate as nat,
        );
    }
    match check_constant_product(&swap, constant_before) {
        Ok(_) => {},
        Err(e) => { return Err(e); },
    }
    if swap.source_amount_swapped > max_amount_in as u128 {
        return Err(ErrorCode::ExceededSlippage);
    }
    pool_state.recent_epoch = epoch;
    Ok(
        SwapSettlement {
            trade_direction,
            amount_in: swap.source_amount_swapped as u64,
            amount_out,
            trade_fee: swap.trade_fee as u64,
        },
    )
}

} // verus!
