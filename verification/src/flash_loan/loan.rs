//! The accounts shared by `borrow` and `repay`, and the program's constants.
use vstd::prelude::*;

use crate::account::{Key, MintAccount, SysvarAccount, TokenAccount};

verus! {

/// The flash-loan program's address.
pub const ID: Key = [
    2, 70, 210, 182, 164, 70, 13, 40, 69, 135, 49, 94, 67, 191, 113, 23, 35, 243, 133, 8, 231, 244,
    227, 123, 145, 241, 127, 134, 176, 0, 9, 49,
];

/// The first eight bytes of a `borrow` instruction's data.
pub const BORROW_DISCRIMINATOR: [u8; 8] = [228, 253, 131, 202, 207, 116, 89, 18];

/// The first eight bytes of a `repay` instruction's data.
pub const REPAY_DISCRIMINATOR: [u8; 8] = [234, 103, 67, 82, 208, 234, 219, 166];

/// The seed of the treasury's derived address: `b"treasury"`.
pub const TREASURY_SEED: [u8; 8] = [116, 114, 101, 97, 115, 117, 114, 121];

/// The accounts of `borrow` and `repay`.
#[derive(Clone, Debug, PartialEq, Eq)]
pub struct Loan {
    pub user: Key,
    pub mint: MintAccount,
    pub user_ata: TokenAccount,
    pub treasury: Key,
    pub treasury_ata: TokenAccount,
    pub instruction: SysvarAccount,
    pub token_program: Key,
}

/// The bump seeds found for the derived addresses of `Loan`.
#[derive(Clone, Copy, Debug, PartialEq, Eq)]
pub struct LoanBumps {
    pub treasury: u8,
}

} // verus!
