//! A staking pool: users stake tokens into a pool's treasury and earn
//! rewards at a fixed rate, shared in proportion to their stake.

pub mod error;
pub mod state;
pub mod base_stake_accounts;
pub mod unstake;
pub mod stake;
pub mod claim_rewards;
pub mod create_user;
pub mod initialize;
pub mod initialize_pool;
pub mod laws;
