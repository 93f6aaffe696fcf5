//! The pool's own record: its vaults, its share supply and its status.

use vstd::prelude::*;

verus! {

/// A 32-byte account address.
#[derive(Clone, Copy, Debug, PartialEq, Eq)]
pub struct Address {
    pub bytes: [u8; 32],
}

impl View for Address {
    type V = Seq<u8>;

    open spec fn view(&self) -> Seq<u8> {
        self.bytes@
    }
}

impl Address {
    /// Wraps the 32 bytes of an address.
    pub fn new(bytes: [u8; 32]) -> (address: Address)
        ensures
            address@ == bytes@,
    {
        Address { bytes }
    }

    /// Whether two addresses hold the same bytes.
    pub fn same(&self, other: &Address) -> (equal: bool)
        ensures
            equal == (self@ == other@),
    {
        let mut i: usize = 0;
        while i < 32
            invariant
                i <= 32,
                forall|j: int| 0 <= j < i ==> self.bytes@[j] == other.bytes@[j],
            decreases 32 - i,
        {
            if self.bytes[i] != other.bytes[i] {
                return false;
            }
            i += 1;
        }
        assert(self.bytes@ =~= other.bytes@);
        true
    }
}

/// The operations that a pool's status can switch off, each by one bit.
#[derive(Clone, Copy, Debug, PartialEq, Eq, Structural)]
pub enum PoolStatusBitIndex {
    /// Bit 0: deposits.
    Deposit,
    /// Bit 1: withdrawals.
    Withdraw,
    /// Bit 2: swaps.
    Swap,
}

impl PoolStatusBitIndex {
    /// The status bit that stands for the operation.
    pub open spec fn mask_spec(self) -> u8 {
        match self {
            PoolStatusBitIndex::Deposit => 1u8,
            PoolStatusBitIndex::Withdraw => 2u8,
            PoolStatusBitIndex::Swap => 4u8,
        }
    }

    /// The status bit that stands for the operation.
    #[verifier::when_used_as_spec(mask_spec)]
    pub fn mask(self) -> (mask: u8)
        ensures
            mask == self.mask_spec(),
    {
        match self {
            PoolStatusBitIndex::Deposit => 1u8,
            PoolStatusBitIndex::Withdraw => 2u8,
            PoolStatusBitIndex::Swap => 4u8,
        }
    }
}

/// What the pool reads of a mint: its address, its decimals and the token
/// program that owns it.
#[derive(Clone, Copy, Debug, PartialEq, Eq)]
pub struct MintInfo {
    pub key: Address,
    pub decimals: u8,
    pub token_program: Address,
}

/// What the pool reads of a token vault: its address and its balance.
#[derive(Clone, Copy, Debug, PartialEq, Eq)]
pub struct VaultInfo {
    pub key: Address,
    pub amount: u64,
}

/// The record of one pool.
#[derive(Clone, Copy, Debug, PartialEq, Eq)]
pub struct PoolState {
    /// The configuration the pool belongs to.
    pub amm_config: Address,
    /// Who created the pool.
    pub pool_creator: Address,
    /// Vault of the first asset.
    pub token_0_vault: Address,
    /// Vault of the second asset.
    pub token_1_vault: Address,
    /// Mint of the pool's shares.
    pub lp_mint: Address,
    /// Mint of the first asset.
    pub token_0_mint: Address,
    /// Mint of the second asset.
    pub token_1_mint: Address,
    /// Token program of the first asset.
    pub token_0_program: Address,
    /// Token program of the second asset.
    pub token_1_program: Address,
    /// Bump of the vault authority's derived address.
    pub auth_bump: u8,
    /// One bit per operation; a set bit switches the operation off.
    pub status: u8,
    /// Decimals of the share mint.
    pub lp_mint_decimals: u8,
    /// Decimals of the first asset.
    pub mint_0_decimals: u8,
    /// Decimals of the second asset.
    pub mint_1_decimals: u8,
    /// Shares outstanding, the locked ones included.
    pub lp_supply: u64,
    /// The time from which swaps are admitted.
    pub open_time: u64,
    /// The epoch of the last operation on the pool.
    pub recent_epoch: u64,
    /// Bump of the pool's derived address.
    pub bump: u8,
}

/// The scale of a price: 32 fractional bits.
pub const Q32: u128 = 0x1_0000_0000;

impl PoolState {
    /// Whether the operation `bit` is admitted: its status bit is clear.
    pub open spec fn status_enabled(&self, bit: PoolStatusBitIndex) -> bool {
        self.status & bit.mask_spec() == 0
    }

    /// The record with another status.
    pub open spec fn with_status(self, status: u8) -> PoolState {
        PoolState { status, ..self }
    }

    /// The record with another epoch of last use.
    pub open spec fn with_recent_epoch(self, recent_epoch: u64) -> PoolState {
        PoolState { recent_epoch, ..self }
    }

    /// The record with another share supply.
    pub open spec fn with_lp_supply(self, lp_supply: u64) -> PoolState {
        PoolState { lp_supply, ..self }
    }

    /// Fills in the record of a new pool, with every operation admitted.
    pub fn initialize(
        &mut self,
        auth_bump: u8,
        lp_supply: u64,
        open_time: u64,
        recent_epoch: u64,
        pool_creator: Address,
        amm_config: Address,
        token_0_vault: Address,
        token_1_vault: Address,
        token_0_mint: &MintInfo,
        token_1_mint: &MintInfo,
        lp_mint: &MintInfo,
        bump: u8,
    )
        ensures
            *final(self) == (PoolState {
                amm_config,
                pool_creator,
                token_0_vault,
                token_1_vault,
                lp_mint: lp_mint.key,
                token_0_mint: token_0_mint.key,
                token_1_mint: token_1_mint.key,
                token_0_program: token_0_mint.token_program,
                token_1_program: token_1_mint.token_program,
                auth_bump,
                status: 0,
                lp_mint_decimals: lp_mint.decimals,
                mint_0_decimals: token_0_mint.decimals,
                mint_1_decimals: token_1_mint.decimals,
                lp_supply,
                open_time,
                recent_epoch,
                bump,
            }),
    {
        self.amm_config = amm_config;
        self.pool_creator = pool_creator;
        self.token_0_vault = token_0_vault;
        self.token_1_vault = token_1_vault;
        self.lp_mint = lp_mint.key;
        self.token_0_mint = token_0_mint.key;
        self.token_1_mint = token_1_mint.key;
        self.token_0_program = token_0_mint.token_program;
        self.token_1_program = token_1_mint.token_program;
        self.auth_bump = auth_bump;
        self.status = 0;
        self.lp_mint_decimals = lp_mint.decimals;
        self.mint_0_decimals = token_0_mint.decimals;
        self.mint_1_decimals = token_1_mint.decimals;
        self.lp_supply = lp_supply;
        self.open_time = open_time;
        self.recent_epoch = recent_epoch;
        self.bump = bump;
    }

    /// Replaces the status bits.
    pub fn set_status(&mut self, status: u8)
        ensures
            *final(self) == old(self).with_status(status),
    {
        self.status = status;
    }

    /// Whether the operation `bit` is admitted.
    pub fn get_status_by_bit(&self, bit: PoolStatusBitIndex) -> (enabled: bool)
        ensures
            enabled == self.status_enabled(bit),
    {
        self.status & bit.mask() == 0
    }

    /// The price of each asset in the other, with 32 fractional bits and
    /// rounded down: first that of the first asset, then that of the second.
    pub open spec fn token_price_x32_spec(token_0_amount: nat, token_1_amount: nat) -> (nat, nat)
        recommends
            token_0_amount > 0,
            token_1_amount > 0,
    {
        (
            token_1_amount * (Q32 as nat) / token_0_amount,
            token_0_amount * (Q32 as nat) / token_1_amount,
        )
    }

    /// The price of each asset in the other for the given vault balances.
    /// For reporting only: no settlement reads it.
    pub fn token_price_x32(&self, token_0_amount: u64, token_1_amount: u64) -> (prices: (
        u128,
        u128,
    ))
        requires
            token_0_amount > 0,
            token_1_amount > 0,
        ensures
            (prices.0 as nat, prices.1 as nat) == Self::token_price_x32_spec(
                token_0_amount as nat,
                token_1_amount as nat,
            ),
    {
        assert(token_0_amount * Q32 <= u128::MAX && token_1_amount * Q32 <= u128::MAX)
            by (nonlinear_arith)
            requires
                token_0_amount <= u64::MAX,
                token_1_amount <= u64::MAX,
                Q32 == 0x1_0000_0000,
        ;
        (
            token_1_amount as u128 * Q32 / token_0_amount as u128,
            token_0_amount as u128 * Q32 / token_1_amount as u128,
        )
    }
}

} // verus!
