//! Instructions for the owner of a configuration.

pub mod create_config;
pub mod update_config;
pub mod update_pool_status;
