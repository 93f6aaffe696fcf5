//! Depositing both assets for new pool shares.

use vstd::prelude::*;
use crate::curve::calculator::CurveCalculator;
use crate::curve::constant_product::lp_tokens_to_trading_tokens_spec;
use crate::curve::division::RoundDirection;
use crate::curve::theorems::lemma_lp_tokens_to_trading_tokens_fits;
use crate::error::ErrorCode;
use crate::state::pool::{PoolState, PoolStatusBitIndex};

verus! {

/// What a deposit or a withdrawal moves: shares on one side, the two
/// assets on the other.
#[derive(Clone, Copy, Debug, PartialEq, Eq)]
pub struct LiquiditySettlement {
    /// Shares issued or burned.
    pub lp_token_amount: u64,
    /// Amount of the first asset that changes hands.
    pub token_0_amount: u64,
    /// Amount of the second asset that changes hands.
    pub token_1_amount: u64,
}

/// What a deposit for `lp_token_amount` shares comes to.  In this order:
/// the pool must admit deposits; the shares must convert, rounded up, into
/// amounts of the two assets; neither amount may exceed the depositor's
/// maximum; and the share supply must have room for the new shares.
pub open spec fn process_deposit_spec(
    pool_state: PoolState,
    token_0_vault_amount: u64,
    token_1_vault_amount: u64,
    lp_token_amount: u64,
    maximum_token_0_amount: u64,
    maximum_token_1_amount: u64,
) -> Result<LiquiditySettlement, ErrorCode> {
    if !pool_state.status_enabled(PoolStatusBitIndex::Deposit) {
        Err(ErrorCode::NotApproved)
    } else {
        match lp_tokens_to_trading_tokens_spec(
            lp_token_amount as nat,
            pool_state.lp_supply as nat,
            token_0_vault_amount as nat,
            token_1_vault_amount as nat,
            RoundDirection::Ceiling,
        ) {
            Err(e) => Err(e),
            Ok(amounts) => if amounts.token_0_amount > maximum_token_0_amount
                || amounts.token_1_amount > maximum_token_1_amount {
                Err(ErrorCode::ExceededSlippage)
            } else if pool_state.lp_supply + lp_token_amount > u64::MAX {
                Err(ErrorCode::ArithmeticOverflow)
            } else {
                Ok(
                    LiquiditySettlement {
                        lp_token_amount,
                        token_0_amount: amounts.token_0_amount as u64,
                        token_1_amount: amounts.token_1_amount as u64,
                    },
                )
            },
        }
    }
}

/// Decides a deposit and, where it goes through, adds the new shares to
/// the supply and notes the epoch.  A deposit that is turned down leaves
/// the pool's record as it was.
pub fn process_deposit(
    pool_state: &mut PoolState,
    token_0_vault_amount: u64,
    token_1_vault_amount: u64,
    epoch: u64,
    lp_token_amount: u64,
    maximum_token_0_amount: u64,
    maximum_token_1_amount: u64,
) -> (settlement: Result<LiquiditySettlement, ErrorCode>)
    ensures
        settlement == process_deposit_spec(
            *old(pool_state),
            token_0_vault_amount,
            token_1_vault_amount,
            lp_token_amount,
            maximum_token_0_amount,
            maximum_token_1_amount,
        ),
        settlement is Ok ==> *final(pool_state) == old(pool_state).with_lp_supply(
            (old(pool_state).lp_supply + lp_token_amount) as u64,
        ).with_recent_epoch(epoch),
        settlement is Err ==> *final(pool_state) == *old(pool_state),
{
    if !pool_state.get_status_by_bit(PoolStatusBitIndex::Deposit) {
        return Err(ErrorCode::NotApproved);
    }
    proof {
        lemma_lp_tokens_to_trading_tokens_fits(
            lp_token_amount,
            pool_state.lp_supply,
            token_0_vault_amount,
            token_1_vault_amount,
            RoundDirection::Ceiling,
        );
    }
    let amounts = match CurveCalculator::lp_tokens_to_trading_tokens(
        lp_token_amount as u128,
        pool_state.lp_supply as u128,
        token_0_vault_amount as u128,
        token_1_vault_amount as u128,
        RoundDirection::Ceiling,
    ) {
        Ok(amounts) => amounts,
        Err(e) => { return Err(e); },
    };
    if amounts.token_0_amount > maximum_token_0_amount as u128 || amounts.token_1_amount
        > maximum_token_1_amount as u128 {
        return Err(ErrorCode::ExceededSlippage);
    }
    let lp_supply: u64 = match pool_state.lp_supply.checked_add(lp_token_amount) {
        Some(lp_supply) => lp_supply,
        None => { return Err(ErrorCode::ArithmeticOverflow); },
    };
    pool_state.lp_supply = lp_supply;
    pool_state.recent_epoch = epoch;
    Ok(
        LiquiditySettlement {
            lp_token_amount,
            token_0_amount: amounts.token_0_amount as u64,
            token_1_amount: amounts.token_1_amount as u64,
        },
    )
}

} // verus!
