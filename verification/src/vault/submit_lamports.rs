//! `submit_lamports`: the signer deposits lamports into the vault.
use vstd::prelude::*;

use crate::account::{Account, Key, LamportAccount};
use crate::cpi::{requests_view, CpiRequest, CpiRequestView};
use crate::vault::state::Vault;

verus! {

/// The accounts of `submit_lamports`.
#[derive(Clone, Copy, Debug, PartialEq, Eq)]
pub struct SubmitLamports {
    pub signer: LamportAccount,
    pub vault: Account<Vault>,
    pub system_program: Key,
}

impl SubmitLamports {
    /// The deposit: a system transfer of `transfer_amount` lamports from the
    /// signer to the vault.
    pub open spec fn deposit(self, transfer_amount: u64) -> CpiRequestView {
        CpiRequestView::SystemTransfer {
            system_program: self.system_program,
            from: self.signer.key,
            to: self.vault.key,
            amount: transfer_amount,
        }
    }

    /// The signer and the vault once the system program has carried out
    /// [`SubmitLamports::deposit`] of `transfer_amount`: that many lamports
    /// have moved from the signer to the vault.
    pub open spec fn deposited(self, transfer_amount: u64) -> (LamportAccount, Account<Vault>) {
        (
            LamportAccount {
                lamports: (self.signer.lamports - transfer_amount) as u64,
                ..self.signer
            },
            Account { lamports: (self.vault.lamports + transfer_amount) as u64, ..self.vault },
        )
    }
}

/// The `submit_lamports` instruction: asks the system program for the
/// deposit.
pub fn handler(accounts: &SubmitLamports, transfer_amount: u64) -> (r: Vec<CpiRequest>)
    ensures
        requests_view(r@) == seq![accounts.deposit(transfer_amount)],
{
    let r = vec![
        CpiRequest::SystemTransfer {
            system_program: accounts.system_program,
            from: accounts.signer.key,
            to: accounts.vault.key,
            amount: transfer_amount,
        },
    ];
    assert(requests_view(r@) =~= seq![accounts.deposit(transfer_amount)]);
    r
}

} // verus!
