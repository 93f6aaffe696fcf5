//! Creating a pool: admission, then the first shares.

use vstd::prelude::*;
use crate::curve::calculator::CurveCalculator;
use crate::error::ErrorCode;
use crate::state::config::AmmConfig;
use crate::state::pool::{Address, MintInfo, PoolState, VaultInfo};
use crate::utils::math::{
    integer_sqrt,
    integer_sqrt_spec,
    is_integer_sqrt,
    lemma_integer_sqrt_exists,
    lemma_square_monotonic,
};

verus! {

/// The shares that stay locked in every pool, so that its supply never
/// returns to zero.
pub const LOCK_LP_AMOUNT: u64 = 100;

/// The time from which a new pool admits swaps: the time asked for, or the
/// moment after now where that time has passed already.  Both mints must be
/// of a supported kind and the configuration must allow new pools.
pub open spec fn prepare_initialize_spec(
    amm_config: AmmConfig,
    token_0_mint_supported: bool,
    token_1_mint_supported: bool,
    block_timestamp: u64,
    open_time: u64,
) -> Result<u64, ErrorCode> {
    if !(token_0_mint_supported && token_1_mint_supported) {
        Err(ErrorCode::NotSupportMint)
    } else if amm_config.disable_create_pool {
        Err(ErrorCode::NotApproved)
    } else if open_time > block_timestamp {
        Ok(open_time)
    } else if block_timestamp == u64::MAX {
        Err(ErrorCode::ArithmeticOverflow)
    } else {
        Ok((block_timestamp + 1) as u64)
    }
}

/// Decides whether a pool may be created and from when it admits swaps.
/// This comes before the creator's first amounts are moved into the vaults.
pub fn prepare_initialize(
    amm_config: &AmmConfig,
    token_0_mint_supported: bool,
    token_1_mint_supported: bool,
    block_timestamp: u64,
    open_time: u64,
) -> (admitted: Result<u64, ErrorCode>)
    ensures
        admitted == prepare_initialize_spec(
            *amm_config,
            token_0_mint_supported,
            token_1_mint_supported,
            block_timestamp,
            open_time,
        ),
{
    if !(token_0_mint_supported && token_1_mint_supported) {
        return Err(ErrorCode::NotSupportMint);
    }
    if amm_config.disable_create_pool {
        return Err(ErrorCode::NotApproved);
    }
    if open_time > block_timestamp {
        Ok(open_time)
    } else {
        match block_timestamp.checked_add(1) {
            Some(next) => Ok(next),
            None => Err(ErrorCode::ArithmeticOverflow),
        }
    }
}

/// The addresses and bumps that a new pool's record is filled with.
#[derive(Clone, Copy, Debug, PartialEq, Eq)]
pub struct InitializeAccounts {
    /// Who creates the pool.
    pub creator: Address,
    /// The configuration the pool is created under.
    pub amm_config: Address,
    /// Mint of the first asset.
    pub token_0_mint: MintInfo,
    /// Mint of the second asset.
    pub token_1_mint: MintInfo,
    /// Mint of the pool's shares.
    pub lp_mint: MintInfo,
    /// Bump of the vault authority's derived address.
    pub auth_bump: u8,
    /// Bump of the pool's derived address.
    pub pool_bump: u8,
}

/// The record of a pool that starts with `liquidity` shares.
pub open spec fn initial_pool_state(
    accounts: InitializeAccounts,
    token_0_vault: VaultInfo,
    token_1_vault: VaultInfo,
    liquidity: u64,
    open_time: u64,
    epoch: u64,
) -> PoolState {
    PoolState {
        amm_config: accounts.amm_config,
        pool_creator: accounts.creator,
        token_0_vault: token_0_vault.key,
        token_1_vault: token_1_vault.key,
        lp_mint: accounts.lp_mint.key,
        token_0_mint: accounts.token_0_mint.key,
        token_1_mint: accounts.token_1_mint.key,
        token_0_program: accounts.token_0_mint.token_program,
        token_1_program: accounts.token_1_mint.token_program,
        auth_bump: accounts.auth_bump,
        status: 0,
        lp_mint_decimals: accounts.lp_mint.decimals,
        mint_0_decimals: accounts.token_0_mint.decimals,
        mint_1_decimals: accounts.token_1_mint.decimals,
        lp_supply: liquidity,
        open_time,
        recent_epoch: epoch,
        bump: accounts.pool_bump,
    }
}

/// The shares a pool starts with, the locked ones included: the square
/// root of the product of its two reserves, rounded down.
pub open spec fn initial_liquidity_spec(token_0_amount: u64, token_1_amount: u64) -> nat {
    integer_sqrt_spec((token_0_amount * token_1_amount) as nat)
}

/// The shares the creator of a pool receives: the pool's first shares less
/// the locked ones.  Neither vault may be empty, and the first shares must
/// cover the locked amount.
pub open spec fn process_initialize_spec(token_0_amount: u64, token_1_amount: u64) -> Result<
    u64,
    ErrorCode,
> {
    if token_0_amount == 0 || token_1_amount == 0 {
        Err(ErrorCode::DegenerateInitialSupply)
    } else if initial_liquidity_spec(token_0_amount, token_1_amount) < LOCK_LP_AMOUNT {
        Err(ErrorCode::InitLpAmountTooLess)
    } else {
        Ok((initial_liquidity_spec(token_0_amount, token_1_amount) - LOCK_LP_AMOUNT) as u64)
    }
}

/// A pool's first shares fall short of the locked amount exactly where the
/// product of its reserves is below the square of that amount.
pub proof fn lemma_initial_liquidity_covers_lock(token_0_amount: u64, token_1_amount: u64)
    ensures
        is_integer_sqrt(
            (token_0_amount * token_1_amount) as nat,
            initial_liquidity_spec(token_0_amount, token_1_amount),
        ),
        initial_liquidity_spec(token_0_amount, token_1_amount) < LOCK_LP_AMOUNT <==> token_0_amount
            * token_1_amount < LOCK_LP_AMOUNT * LOCK_LP_AMOUNT,
{
    lemma_integer_sqrt_exists((token_0_amount * token_1_amount) as nat);
    let liquidity = initial_liquidity_spec(token_0_amount, token_1_amount);
    if liquidity < LOCK_LP_AMOUNT {
        lemma_square_monotonic(liquidity + 1, LOCK_LP_AMOUNT as nat);
    } else {
        lemma_square_monotonic(LOCK_LP_AMOUNT as nat, liquidity);
    }
}

/// The shares a pool starts with, the locked ones included.
pub fn initial_liquidity(token_0_amount: u64, token_1_amount: u64) -> (liquidity: u64)
    ensures
        liquidity == initial_liquidity_spec(token_0_amount, token_1_amount),
        is_integer_sqrt((token_0_amount * token_1_amount) as nat, liquidity as nat),
        liquidity < LOCK_LP_AMOUNT <==> token_0_amount * token_1_amount < LOCK_LP_AMOUNT
            * LOCK_LP_AMOUNT,
{
    assert(token_0_amount * token_1_amount <= u128::MAX) by (nonlinear_arith)
        requires
            token_0_amount <= u64::MAX,
            token_1_amount <= u64::MAX,
    ;
    let liquidity = integer_sqrt(token_0_amount as u128 * token_1_amount as u128);
    proof {
        lemma_initial_liquidity_covers_lock(token_0_amount, token_1_amount);
    }
    liquidity
}

/// Opens a pool over the balances its vaults hold once the creator's first
/// amounts have arrived, and tells how many shares the creator receives.
/// The record is filled in with all the pool's first shares as its supply;
/// a pool that is turned down leaves the record as it was.
pub fn process_initialize(
    pool_state: &mut PoolState,
    accounts: &InitializeAccounts,
    token_0_vault: &VaultInfo,
    token_1_vault: &VaultInfo,
    open_time: u64,
    epoch: u64,
) -> (minted: Result<u64, ErrorCode>)
    ensures
        minted == process_initialize_spec(token_0_vault.amount, token_1_vault.amount),
        minted matches Ok(lp_amount) ==> lp_amount + LOCK_LP_AMOUNT == initial_liquidity_spec(
            token_0_vault.amount,
            token_1_vault.amount,
        ) && *final(pool_state) == initial_pool_state(
            *accounts,
            *token_0_vault,
            *token_1_vault,
            (lp_amount + LOCK_LP_AMOUNT) as u64,
            open_time,
            epoch,
        ),
        minted is Err ==> *final(pool_state) == *old(pool_state),
{
    match CurveCalculator::validate_supply(token_0_vault.amount, token_1_vault.amount) {
        Ok(_) => {},
        Err(e) => { return Err(e); },
    }
    let liquidity: u64 = initial_liquidity(token_0_vault.amount, token_1_vault.amount);
    let lp_amount: u64 = match liquidity.checked_sub(LOCK_LP_AMOUNT) {
        Some(lp_amount) => lp_amount,
        None => { return Err(ErrorCode::InitLpAmountTooLess); },
    };
    pool_state.initialize(
        accounts.auth_bump,
        liquidity,
        open_time,
        epoch,
        accounts.creator,
        accounts.amm_config,
        token_0_vault.key,
        token_1_vault.key,
        &accounts.token_0_mint,
        &accounts.token_1_mint,
        &accounts.lp_mint,
        accounts.pool_bump,
    );
    Ok(lp_amount)
}

} // verus!
