//! `create_vault`: opens the signer's vault.
use vstd::prelude::*;

use crate::account::{Account, Failure, Key, LamportAccount};
use crate::vault::error::ErrorCode;
use crate::vault::state::Vault;

verus! {

/// The accounts of `create_vault`.
#[derive(Clone, Copy, Debug, PartialEq, Eq)]
pub struct CreateVault {
    pub signer: LamportAccount,
    pub vault: Account<Vault>,
    pub system_program: Key,
}

/// The bump seeds found for the derived addresses of `create_vault`.
#[derive(Clone, Copy, Debug, PartialEq, Eq)]
pub struct CreateVaultBumps {
    pub vault: u8,
}

/// The `create_vault` instruction: records the vault's bump seed.
pub fn handler(accounts: &mut CreateVault, bumps: CreateVaultBumps) -> (r: Result<
    (),
    Failure<ErrorCode>,
>)
    ensures
        r is Ok,
        *final(accounts) == (CreateVault {
            vault: Account { data: Vault { vault_bump: bumps.vault }, ..old(accounts).vault },
            ..*old(accounts)
        }),
{
    accounts.vault.data.vault_bump = bumps.vault;
    Ok(())
}

} // verus!
