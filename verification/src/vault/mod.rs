//! A lamport vault: each user has a vault account at an address derived
//! from the user's key, deposits lamports into it and withdraws them.

pub mod error;
pub mod state;
pub mod create_vault;
pub mod submit_lamports;
pub mod withdraw_lamports;
pub mod close_vault;
