//! Switching a pool's operations on and off.

use vstd::prelude::*;
use crate::state::pool::PoolState;

verus! {

/// Replaces the pool's status bits and notes the epoch.
pub fn process_update_pool_status(pool_state: &mut PoolState, status: u8, epoch: u64)
    ensures
        *final(pool_state) == old(pool_state).with_status(status).with_recent_epoch(epoch),
{
    pool_state.set_status(status);
    pool_state.recent_epoch = epoch;
}

} // verus!
