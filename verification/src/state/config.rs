//! The configuration that pools are created under.

use vstd::prelude::*;
use crate::curve::fees::FEE_RATE_DENOMINATOR_VALUE;

verus! {

/// Holds the fee rate of the pools created under it, and whether new pools
/// may be created.
#[derive(Clone, Copy, Debug, PartialEq, Eq)]
pub struct AmmConfig {
    /// Bump of the configuration's derived address.
    pub bump: u8,
    /// Index of the configuration.
    pub index: u16,
    /// Whether the creation of pools is switched off.
    pub disable_create_pool: bool,
    /// The trade fee, in parts per million.
    pub trade_fee_rate: u64,
}

impl AmmConfig {
    /// The fee rate is below the denominator.
    pub open spec fn wf(&self) -> bool {
        self.trade_fee_rate < FEE_RATE_DENOMINATOR_VALUE
    }
}

} // verus!
