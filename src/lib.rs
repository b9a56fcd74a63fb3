//! Confidential computation orchestration for encrypted liquidity positions,
//! and a per-identity authorization store for automated rebalancing.
pub mod address;
pub mod authorization;
pub mod circuits;
pub mod config;
pub mod dispatch;
pub mod encoder;
pub mod native;
pub mod privacy;
