//! Creating a configuration.

use vstd::prelude::*;
use crate::curve::fees::FEE_RATE_DENOMINATOR_VALUE;
use crate::state::config::AmmConfig;

verus! {

/// Fills in a new configuration: pools may be created under it, at the
/// given fee rate.
pub fn process_create_amm_config(
    amm_config: &mut AmmConfig,
    bump: u8,
    index: u16,
    trade_fee_rate: u64,
)
    requires
        trade_fee_rate < FEE_RATE_DENOMINATOR_VALUE,
    ensures
        *final(amm_config) == (AmmConfig {
            bump,
            index,
            disable_create_pool: false,
            trade_fee_rate,
        }),
        final(amm_config).wf(),
{
    amm_config.bump = bump;
    amm_config.disable_create_pool = false;
    amm_config.index = index;
    amm_config.trade_fee_rate = trade_fee_rate;
}

} // verus!
