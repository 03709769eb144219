//! Verified account logic of four Anchor programs: an escrow, a flash loan,
//! a staking pool and a lamport vault.
//!
//! Each instruction handler works on plain values (keys, balances and the
//! programs' own account data). Where a handler asks another program to move
//! tokens or lamports, it returns the request as a [`cpi::CpiRequest`]; the
//! code that runs inside the Solana runtime performs it.

pub mod account;
pub mod cpi;
pub mod runtime;
pub mod staking;
pub mod flash_loan;
pub mod vault;
pub mod escrow;
