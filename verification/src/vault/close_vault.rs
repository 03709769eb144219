//! `close_vault`: the signer empties the vault.
use vstd::prelude::*;

use crate::account::{add_lamports, sub_lamports, Account, Failure, LamportAccount, ProgramErrorKind};
use crate::vault::error::ErrorCode;
use crate::vault::state::Vault;

verus! {

/// The accounts of `close_vault`.
#[derive(Clone, Copy, Debug, PartialEq, Eq)]
pub struct CloseVault {
    pub signer: LamportAccount,
    pub vault: Account<Vault>,
}

impl CloseVault {
    /// The accounts with the vault's and the signer's balances replaced.
    pub open spec fn with_balances(self, vault_lamports: u64, signer_lamports: u64) -> CloseVault {
        CloseVault {
            vault: Account { lamports: vault_lamports, ..self.vault },
            signer: LamportAccount { lamports: signer_lamports, ..self.signer },
        }
    }
}

/// The `close_vault` instruction: moves every lamport of the vault to the
/// signer (`ArithmeticOverflow` where the signer's new balance does not fit
/// in a `u64`, with the vault already emptied: the runtime discards the
/// transaction).
pub fn handler(accounts: &mut CloseVault) -> (r: Result<(), Failure<ErrorCode>>)
    ensures
        old(accounts).signer.lamports + old(accounts).vault.lamports <= u64::MAX ==> r is Ok
            && *final(accounts) == old(accounts).with_balances(
            0,
            (old(accounts).signer.lamports + old(accounts).vault.lamports) as u64,
        ),
        old(accounts).signer.lamports + old(accounts).vault.lamports > u64::MAX ==> r == Err::<
            (),
            Failure<ErrorCode>,
        >(Failure::Program(ProgramErrorKind::ArithmeticOverflow)) && *final(accounts) == old(
            accounts,
        ).with_balances(0, old(accounts).signer.lamports),
        r is Ok ==> final(accounts).vault.lamports == 0 && final(accounts).signer.lamports == old(
            accounts,
        ).vault.lamports + old(accounts).signer.lamports,
{
    let remaining_lamports = accounts.vault.lamports;
    match sub_lamports(&mut accounts.vault.lamports, remaining_lamports) {
        Ok(()) => {},
        Err(e) => return Err(Failure::Program(e)),
    }
    match add_lamports(&mut accounts.signer.lamports, remaining_lamports) {
        Ok(()) => {},
        Err(e) => return Err(Failure::Program(e)),
    }
    Ok(())
}

} // verus!
