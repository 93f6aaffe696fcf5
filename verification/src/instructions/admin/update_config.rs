//! Changing a configuration.

use vstd::prelude::*;
use crate::curve::fees::FEE_RATE_DENOMINATOR_VALUE;
use crate::error::ErrorCode;
use crate::state::config::AmmConfig;

verus! {

/// The configuration after an update: parameter 0 sets the fee rate,
/// parameter 1 switches the creation of pools off (any value but zero) or
/// on (zero); no other parameter is known.
pub open spec fn updated_amm_config(amm_config: AmmConfig, param: u8, value: u64) -> Result<
    AmmConfig,
    ErrorCode,
> {
    if param == 0 {
        Ok(AmmConfig { trade_fee_rate: value, ..amm_config })
    } else if param == 1 {
        Ok(AmmConfig { disable_create_pool: value != 0, ..amm_config })
    } else {
        Err(ErrorCode::InvalidInput)
    }
}

/// Changes one parameter of a configuration, and leaves it as it was where
/// the parameter is not known.  A new fee rate must be below the
/// denominator.
pub fn process_update_amm_config(amm_config: &mut AmmConfig, param: u8, value: u64) -> (updated:
    Result<(), ErrorCode>)
    requires
        param == 0 ==> value < FEE_RATE_DENOMINATOR_VALUE,
    ensures
        match updated {
            Ok(_) => updated_amm_config(*old(amm_config), param, value) == Ok::<
                AmmConfig,
                ErrorCode,
            >(*final(amm_config)),
            Err(e) => updated_amm_config(*old(amm_config), param, value) == Err::<
                AmmConfig,
                ErrorCode,
            >(e) && *final(amm_config) == *old(amm_config),
        },
        old(amm_config).wf() ==> final(amm_config).wf(),
{
    if param == 0 {
        update_trade_fee_rate(amm_config, value);
    } else if param == 1 {
        amm_config.disable_create_pool = value != 0;
    } else {
        return Err(ErrorCode::InvalidInput);
    }
    Ok(())
}

/// Sets the fee rate.
fn update_trade_fee_rate(amm_config: &mut AmmConfig, trade_fee_rate: u64)
    requires
        trade_fee_rate < FEE_RATE_DENOMINATOR_VALUE,
    ensures
        *final(amm_config) == (AmmConfig { trade_fee_rate, ..*old(amm_config) }),
{
    amm_config.trade_fee_rate = trade_fee_rate;
}

} // verus!
