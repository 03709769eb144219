//! A flash loan: `borrow` lends tokens from a treasury, provided that the
//! same transaction ends with this program's `repay`, which pays the amount
//! back.

pub mod error;
pub mod loan;
pub mod borrow;
pub mod repay;
pub mod laws;
