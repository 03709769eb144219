//! `withdraw_lamports`: the signer takes lamports out of the vault.
use vstd::prelude::*;

use crate::account::{add_lamports, sub_lamports, Account, Failure, Key, LamportAccount, ProgramErrorKind};
use crate::vault::error::ErrorCode;
use crate::vault::state::Vault;
use crate::vault::submit_lamports::SubmitLamports;

verus! {

/// The accounts of `withdraw_lamports`.
#[derive(Clone, Copy, Debug, PartialEq, Eq)]
pub struct WithdrawLamports {
    pub signer: LamportAccount,
    pub vault: Account<Vault>,
    pub system_program: Key,
}

impl WithdrawLamports {
    /// The accounts with the vault's and the signer's balances replaced.
    pub open spec fn with_balances(self, vault_lamports: u64, signer_lamports: u64) -> WithdrawLamports {
        WithdrawLamports {
            vault: Account { lamports: vault_lamports, ..self.vault },
            signer: LamportAccount { lamports: signer_lamports, ..self.signer },
            ..self
        }
    }

    /// The vault does not hold the requested lamports: the withdrawal is
    /// refused with `InvalidLamportsRequested`.
    pub open spec fn lacks(self, amount: u64) -> bool {
        amount > self.vault.lamports
    }

    /// The signer's new balance would not fit in a `u64`.
    pub open spec fn overflows(self, amount: u64) -> bool {
        self.signer.lamports + amount > u64::MAX
    }

    /// The accounts after a withdrawal of `amount`.
    pub open spec fn withdrawn(self, amount: u64) -> WithdrawLamports {
        self.with_balances(
            (self.vault.lamports - amount) as u64,
            (self.signer.lamports + amount) as u64,
        )
    }

    /// What a withdrawal of `amount` returns, and the accounts after it.
    pub open spec fn withdraw_outcome(self, amount: u64) -> (
        Result<(), Failure<ErrorCode>>,
        WithdrawLamports,
    ) {
        if self.lacks(amount) {
            (Err(Failure::Custom(ErrorCode::InvalidLamportsRequested)), self)
        } else if self.overflows(amount) {
            (
                Err(Failure::Program(ProgramErrorKind::ArithmeticOverflow)),
                self.with_balances((self.vault.lamports - amount) as u64, self.signer.lamports),
            )
        } else {
            (Ok(()), self.withdrawn(amount))
        }
    }
}

/// The `withdraw_lamports` instruction: moves `amount_to_withdraw` lamports
/// from the vault to the signer. It is refused with
/// `InvalidLamportsRequested` where the vault holds fewer lamports than
/// requested, and fails with `ArithmeticOverflow` where the signer's new
/// balance does not fit in a `u64` (the vault already debited: the runtime
/// discards the transaction).
pub fn handler(accounts: &mut WithdrawLamports, amount_to_withdraw: u64) -> (r: Result<
    (),
    Failure<ErrorCode>,
>)
    ensures
        (r, *final(accounts)) == old(accounts).withdraw_outcome(amount_to_withdraw),
        r is Ok ==> final(accounts).vault.lamports + final(accounts).signer.lamports == old(
            accounts,
        ).vault.lamports + old(accounts).signer.lamports,
{
    let vault_balance = accounts.vault.lamports;
    if amount_to_withdraw > vault_balance {
        return Err(Failure::Custom(ErrorCode::InvalidLamportsRequested));
    }
    match sub_lamports(&mut accounts.vault.lamports, amount_to_withdraw) {
        Ok(()) => {},
        Err(e) => return Err(Failure::Program(e)),
    }
    match add_lamports(&mut accounts.signer.lamports, amount_to_withdraw) {
        Ok(()) => {},
        Err(e) => return Err(Failure::Program(e)),
    }
    Ok(())
}

/// Withdrawing what was just deposited restores both balances. After the
/// system program has carried out the deposit of `amount` that
/// [`crate::vault::submit_lamports::handler`] asks for, a withdrawal of
/// `amount` by the same signer from the same vault succeeds and leaves the
/// signer and the vault as they were before the deposit.
pub proof fn lemma_withdraw_undoes_submit(
    before: SubmitLamports,
    after: WithdrawLamports,
    amount: u64,
)
    requires
        before.signer.lamports >= amount,
        before.vault.lamports + amount <= u64::MAX,
        (after.signer, after.vault) == before.deposited(amount),
    ensures
        after.withdraw_outcome(amount).0 is Ok,
        after.withdraw_outcome(amount).1.signer == before.signer,
        after.withdraw_outcome(amount).1.vault == before.vault,
{
}

} // verus!
