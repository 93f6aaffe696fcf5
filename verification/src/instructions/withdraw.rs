//! Burning pool shares for both assets.

use vstd::prelude::*;
use crate::curve::calculator::CurveCalculator;
use crate::curve::constant_product::lp_tokens_to_trading_tokens_spec;
use crate::curve::division::RoundDirection;
use crate::curve::theorems::lemma_lp_tokens_to_trading_tokens_fits;
use crate::error::ErrorCode;
use crate::instructions::deposit::LiquiditySettlement;
use crate::state::pool::{PoolState, PoolStatusBitIndex};

verus! {

/// The smaller of a vault's balance and an amount owed.
pub open spec fn capped_at(total: u64, owed: nat) -> nat {
    if owed < total {
        owed
    } else {
        total as nat
    }
}

/// What a withdrawal of `lp_token_amount` shares comes to.  In this order:
/// the amount must be positive; the pool must admit withdrawals; the
/// shares must convert, rounded up, into amounts of the two assets, each
/// capped at what its vault holds; neither amount may fall below the
/// owner's minimum; and the supply must hold the shares to burn.
pub open spec fn process_withdraw_spec(
    pool_state: PoolState,
    token_0_vault_amount: u64,
    token_1_vault_amount: u64,
    lp_token_amount: u64,
    minimum_token_0_amount: u64,
    minimum_token_1_amount: u64,
) -> Result<LiquiditySettlement, ErrorCode> {
    if lp_token_amount == 0 {
        Err(ErrorCode::RequireGtViolated)
    } else if !pool_state.status_enabled(PoolStatusBitIndex::Withdraw) {
        Err(ErrorCode::NotApproved)
    } else {
        match lp_tokens_to_trading_tokens_spec(
            lp_token_amount as nat,
            pool_state.lp_supply as nat,
            token_0_vault_amount as nat,
            token_1_vault_amount as nat,
            RoundDirection::Ceiling,
        ) {
            Err(e) => Err(e),
            Ok(amounts) => {
                let token_0_amount = capped_at(token_0_vault_amount, amounts.token_0_amount);
                let token_1_amount = capped_at(token_1_vault_amount, amounts.token_1_amount);
                if token_0_amount < minimum_token_0_amount || token_1_amount
                    < minimum_token_1_amount {
                    Err(ErrorCode::ExceededSlippage)
                } else if lp_token_amount > pool_state.lp_supply {
                    Err(ErrorCode::ArithmeticOverflow)
                } else {
                    Ok(
                        LiquiditySettlement {
                            lp_token_amount,
                            token_0_amount: token_0_amount as u64,
                            token_1_amount: token_1_amount as u64,
                        },
                    )
                }
            },
        }
    }
}

/// Caps an amount owed at what the vault holds.
fn cap_at(total: u64, owed: u128) -> (amount: u64)
    ensures
        amount == capped_at(total, owed as nat),
{
    if owed < total as u128 {
        owed as u64
    } else {
        total
    }
}

/// Decides a withdrawal and, where it goes through, takes the burned
/// shares off the supply and notes the epoch.  A withdrawal that is turned
/// down leaves the pool's record as it was.
pub fn process_withdraw(
    pool_state: &mut PoolState,
    token_0_vault_amount: u64,
    token_1_vault_amount: u64,
    epoch: u64,
    lp_token_amount: u64,
    minimum_token_0_amount: u64,
    minimum_token_1_amount: u64,
) -> (settlement: Result<LiquiditySettlement, ErrorCode>)
    ensures
        settlement == process_withdraw_spec(
            *old(pool_state),
            token_0_vault_amount,
            token_1_vault_amount,
            lp_token_amount,
            minimum_token_0_amount,
            minimum_token_1_amount,
        ),
        settlement is Ok ==> *final(pool_state) == old(pool_state).with_lp_supply(
            (old(pool_state).lp_supply - lp_token_amount) as u64,
        ).with_recent_epoch(epoch),
        settlement is Err ==> *final(pool_state) == *old(pool_state),
{
    if lp_token_amount == 0 {
        return Err(ErrorCode::RequireGtViolated);
    }
    if !pool_state.get_status_by_bit(PoolStatusBitIndex::Withdraw) {
        return Err(ErrorCode::NotApproved);
    }
    proof {
        lemma_lp_tokens_to_trading_tokens_fits(
            lp_token_amount,
            pool_state.lp_supply,
            token_0_vault_amount,
            token_1_vault_amount,
            RoundDirection::Ceiling,
        );
    }
    let amounts = match CurveCalculator::lp_tokens_to_trading_tokens(
        lp_token_amount as u128,
        pool_state.lp_supply as u128,
        token_0_vault_amount as u128,
        token_1_vault_amount as u128,
        RoundDirection::Ceiling,
    ) {
        Ok(amounts) => amounts,
        Err(e) => { return Err(e); },
    };
    let token_0_amount: u64 = cap_at(token_0_vault_amount, amounts.token_0_amount);
    let token_1_amount: u64 = cap_at(token_1_vault_amount, amounts.token_1_amount);
    if token_0_amount < minimum_token_0_amount || token_1_amount < minimum_token_1_amount {
        return Err(ErrorCode::ExceededSlippage);
    }
    let lp_supply: u64 = match pool_state.lp_supply.checked_sub(lp_token_amount) {
        Some(lp_supply) => lp_supply,
        None => { return Err(ErrorCode::ArithmeticOverflow); },
    };
    pool_state.lp_supply = lp_supply;
    pool_state.recent_epoch = epoch;
    Ok(LiquiditySettlement { lp_token_amount, token_0_amount, token_1_amount })
}

} // verus!
