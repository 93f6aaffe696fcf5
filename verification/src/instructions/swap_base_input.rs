//! A swap that fixes the amount coming in.

use vstd::prelude::*;
use crate::curve::calculator::{swap_base_input_spec, CurveCalculator, SwapResult, TradeDirection};
use crate::curve::theorems::{
    lemma_swap_base_input_fits,
    lemma_swap_base_input_product_never_grows,
    source_amount_less_fees,
};
use crate::error::ErrorCode;
use crate::state::config::AmmConfig;
use crate::state::pool::{Address, PoolState, PoolStatusBitIndex, VaultInfo};

verus! {

/// What a swap moves: `amount_in` from the trader into the input vault and
/// `amount_out` from the output vault to the trader.
#[derive(Clone, Copy, Debug, PartialEq, Eq)]
pub struct SwapSettlement {
    /// Which of the pool's assets comes in.
    pub trade_direction: TradeDirection,
    /// What the trader pays, fee included.
    pub amount_in: u64,
    /// What the trader receives.
    pub amount_out: u64,
    /// The part of `amount_in` that is fee.
    pub trade_fee: u64,
}

/// The direction of a swap between two vaults: they must be the pool's two
/// vaults, one each.
pub open spec fn trade_direction_spec(
    pool_state: PoolState,
    input_vault: Address,
    output_vault: Address,
) -> Result<TradeDirection, ErrorCode> {
    if input_vault@ == pool_state.token_0_vault@ && output_vault@ == pool_state.token_1_vault@ {
        Ok(TradeDirection::ZeroForOne)
    } else if input_vault@ == pool_state.token_1_vault@ && output_vault@
        == pool_state.token_0_vault@ {
        Ok(TradeDirection::OneForZero)
    } else {
        Err(ErrorCode::InvalidVault)
    }
}

/// Tells which of the pool's assets comes in, from the two vaults of a swap.
pub fn trade_direction(
    pool_state: &PoolState,
    input_vault: &Address,
    output_vault: &Address,
) -> (direction: Result<TradeDirection, ErrorCode>)
    ensures
        direction == trade_direction_spec(*pool_state, *input_vault, *output_vault),
{
    if input_vault.same(&pool_state.token_0_vault) && output_vault.same(
        &pool_state.token_1_vault,
    ) {
        Ok(TradeDirection::ZeroForOne)
    } else if input_vault.same(&pool_state.token_1_vault) && output_vault.same(
        &pool_state.token_0_vault,
    ) {
        Ok(TradeDirection::OneForZero)
    } else {
        Err(ErrorCode::InvalidVault)
    }
}

/// Checks a swap against the product of the reserves before it: with the
/// fee left out of the new source reserve, the product must not have
/// fallen.
pub fn check_constant_product(swap: &SwapResult, constant_before: u128) -> (checked: Result<
    (),
    ErrorCode,
>)
    requires
        swap.trade_fee <= swap.new_swap_source_amount,
    ensures
        checked is Ok <==> swap@.constant_after() >= constant_before,
        checked matches Err(e) ==> e == ErrorCode::InvariantViolated,
{
    let net_source: u128 = swap.new_swap_source_amount - swap.trade_fee;
    match net_source.checked_mul(swap.new_swap_destination_amount) {
        None => Ok(()),
        Some(constant_after) => {
            if constant_after >= constant_before {
                Ok(())
            } else {
                Err(ErrorCode::InvariantViolated)
            }
        },
    }
}

/// What a swap of exactly `amount_in` comes to.  In this order: the pool
/// must admit swaps and be open; the amount must be positive; the vaults
/// must be the pool's; the curve must price the swap; the product of the
/// reserves must not fall; and the output must reach the trader's minimum.
pub open spec fn process_swap_base_input_spec(
    pool_state: PoolState,
    amm_config: AmmConfig,
    input_vault: VaultInfo,
    output_vault: VaultInfo,
    block_timestamp: u64,
    amount_in: u64,
    minimum_amount_out: u64,
) -> Result<SwapSettlement, ErrorCode> {
    if !pool_state.status_enabled(PoolStatusBitIndex::Swap) || block_timestamp
        < pool_state.open_time {
        Err(ErrorCode::NotApproved)
    } else if amount_in == 0 {
        Err(ErrorCode::RequireGtViolated)
    } else {
        match trade_direction_spec(pool_state, input_vault.key, output_vault.key) {
            Err(e) => Err(e),
            Ok(trade_direction) => match swap_base_input_spec(
                amount_in as nat,
                input_vault.amount as nat,
                output_vault.amount as nat,
                amm_config.trade_fee_rate as nat,
            ) {
                Err(e) => Err(e),
                Ok(swap) => if swap.constant_after() < input_vault.amount * output_vault.amount {
                    Err(ErrorCode::InvariantViolated)
                } else if swap.destination_amount_swapped < minimum_amount_out {
                    Err(ErrorCode::ExceededSlippage)
                } else {
                    Ok(
                        SwapSettlement {
                            trade_direction,
                            amount_in,
                            amount_out: swap.destination_amount_swapped as u64,
                            trade_fee: swap.trade_fee as u64,
                        },
                    )
                },
            },
        }
    }
}

/// Decides a swap of exactly `amount_in` and, where it goes through, notes
/// the epoch in the pool's record.  A swap that is turned down leaves the
/// record as it was.
pub fn process_swap_base_input(
    pool_state: &mut PoolState,
    amm_config: &AmmConfig,
    input_vault: &VaultInfo,
    output_vault: &VaultInfo,
    block_timestamp: u64,
    epoch: u64,
    amount_in: u64,
    minimum_amount_out: u64,
) -> (settlement: Result<SwapSettlement, ErrorCode>)
    requires
        amm_config.wf(),
    ensures
        settlement == process_swap_base_input_spec(
            *old(pool_state),
            *amm_config,
            *input_vault,
            *output_vault,
            block_timestamp,
            amount_in,
            minimum_amount_out,
        ),
        settlement is Ok ==> *final(pool_state) == old(pool_state).with_recent_epoch(epoch),
        settlement is Err ==> *final(pool_state) == *old(pool_state),
{
    if !pool_state.get_status_by_bit(PoolStatusBitIndex::Swap) || block_timestamp
        < pool_state.open_time {
        return Err(ErrorCode::NotApproved);
    }
    if amount_in == 0 {
        return Err(ErrorCode::RequireGtViolated);
    }
    let trade_direction = match trade_direction(pool_state, &input_vault.key, &output_vault.key) {
        Ok(trade_direction) => trade_direction,
        Err(e) => { return Err(e); },
    };
    proof {
        lemma_swap_base_input_fits(
            amount_in,
            input_vault.amount,
            output_vault.amount,
            amm_config.trade_fee_rate,
        );
        assert(input_vault.amount * output_vault.amount <= u128::MAX) by (nonlinear_arith)
            requires
                input_vault.amount <= u64::MAX,
                output_vault.amount <= u64::MAX,
        ;
    }
    let constant_before: u128 = input_vault.amount as u128 * output_vault.amount as u128;
    let swap = match CurveCalculator::swap_base_input(
        amount_in as u128,
        input_vault.amount as u128,
        output_vault.amount as u128,
        amm_config.trade_fee_rate,
    ) {
        Ok(swap) => swap,
        Err(e) => { return Err(e); },
    };
    match check_constant_product(&swap, constant_before) {
        Ok(_) => {},
        Err(e) => { return Err(e); },
    }
    let amount_out: u64 = swap.destination_amount_swapped as u64;
    if amount_out < minimum_amount_out {
        return Err(ErrorCode::ExceededSlippage);
    }
    pool_state.recent_epoch = epoch;
    Ok(SwapSettlement { trade_direction, amount_in, amount_out, trade_fee: swap.trade_fee as u64 })
}

/// A swap of exactly `amount_in` goes through only where the input vault's
/// balance, grown by the input less its fee, divides the product of the two
/// balances: on every other input the rounded-down output reserve lowers
/// the product and the swap is turned down.
pub proof fn lemma_process_swap_base_input_settles_exactly(
    pool_state: PoolState,
    amm_config: AmmConfig,
    input_vault: VaultInfo,
    output_vault: VaultInfo,
    block_timestamp: u64,
    amount_in: u64,
    minimum_amount_out: u64,
)
    requires
        amm_config.wf(),
        process_swap_base_input_spec(
            pool_state,
            amm_config,
            input_vault,
            output_vault,
            block_timestamp,
            amount_in,
            minimum_amount_out,
        ) is Ok,
    ensures
        (input_vault.amount * output_vault.amount) % (input_vault.amount
            + source_amount_less_fees(amount_in as nat, amm_config.trade_fee_rate as nat)) == 0,
{
    lemma_swap_base_input_product_never_grows(
        amount_in as nat,
        input_vault.amount as nat,
        output_vault.amount as nat,
        amm_config.trade_fee_rate as nat,
    );
}

} // verus!
