//! `close_escrow`: the maker takes back what is left in the vault and
//! closes it.
use vstd::prelude::*;

use crate::account::{Account, Key, MintAccount, ProgramErrorKind, TokenAccount};
use crate::cpi::{requests_view, CpiRequest, CpiRequestView};
use crate::escrow::state::{escrow_seeds, escrow_signer_seeds, EscrowDetails};

verus! {

/// The accounts of `close_escrow`.
#[derive(Clone, Copy, Debug, PartialEq, Eq)]
pub struct CloseEscrow {
    pub maker: Key,
    pub mint_a: MintAccount,
    pub vault_ata_a: TokenAccount,
    pub maker_ata_a: TokenAccount,
    pub escrow: Account<EscrowDetails>,
    pub token_program: Key,
}

impl CloseEscrow {
    /// The return of the vault's whole balance of A to the maker, signed by
    /// the escrow.
    pub open spec fn refund(self, seed: u64) -> CpiRequestView {
        CpiRequestView::TransferChecked {
            token_program: self.token_program,
            from: self.vault_ata_a.key,
            mint: self.mint_a.key,
            to: self.maker_ata_a.key,
            authority: self.escrow.key,
            amount: self.vault_ata_a.amount,
            decimals: self.mint_a.decimals,
            signer_seeds: escrow_seeds(self.maker, seed, self.escrow.data.escrow_bump),
        }
    }

    /// The closing of the vault, its rent going to the maker, signed by the
    /// escrow.
    pub open spec fn closing(self, seed: u64) -> CpiRequestView {
        CpiRequestView::CloseAccount {
            token_program: self.token_program,
            account: self.vault_ata_a.key,
            destination: self.maker,
            authority: self.escrow.key,
            signer_seeds: escrow_seeds(self.maker, seed, self.escrow.data.escrow_bump),
        }
    }

    /// The return of what is left in the vault: nothing to ask for when the
    /// vault is empty.
    pub fn return_existing_mint_amount(&self, seed: u64) -> (r: Option<CpiRequest>)
        ensures
            self.vault_ata_a.amount == 0 ==> r is None,
            self.vault_ata_a.amount != 0 ==> (r matches Some(req) && req@ == self.refund(seed)),
    {
        let existing_balance = self.vault_ata_a.amount;
        if existing_balance == 0 {
            return None;
        }
        let signer_seeds = escrow_signer_seeds(&self.maker, seed, self.escrow.data.escrow_bump);
        Some(
            CpiRequest::TransferChecked {
                token_program: self.token_program,
                from: self.vault_ata_a.key,
                mint: self.mint_a.key,
                to: self.maker_ata_a.key,
                authority: self.escrow.key,
                amount: existing_balance,
                decimals: self.mint_a.decimals,
                signer_seeds,
            },
        )
    }

    /// The closing of the vault.
    pub fn close_vault_account(&self, seed: u64) -> (r: CpiRequest)
        ensures
            r@ == self.closing(seed),
    {
        let signer_seeds = escrow_signer_seeds(&self.maker, seed, self.escrow.data.escrow_bump);
        CpiRequest::CloseAccount {
            token_program: self.token_program,
            account: self.vault_ata_a.key,
            destination: self.maker,
            authority: self.escrow.key,
            signer_seeds,
        }
    }
}

/// The `close_escrow` instruction: asks for the return of the vault's
/// balance (where there is one), then for the closing of the vault.
pub fn handler(accounts: &CloseEscrow, seed: u64) -> (r: Result<Vec<CpiRequest>, ProgramErrorKind>)
    ensures
        accounts.vault_ata_a.amount == 0 ==> (r matches Ok(v) && requests_view(v@) == seq![
            accounts.closing(seed),
        ]),
        accounts.vault_ata_a.amount != 0 ==> (r matches Ok(v) && requests_view(v@) == seq![
            accounts.refund(seed),
            accounts.closing(seed),
        ]),
{
    let mut v: Vec<CpiRequest> = Vec::new();
    match accounts.return_existing_mint_amount(seed) {
        Some(refund) => v.push(refund),
        None => {},
    }
    v.push(accounts.close_vault_account(seed));
    if accounts.vault_ata_a.amount == 0 {
        assert(requests_view(v@) =~= seq![accounts.closing(seed)]);
    } else {
        assert(requests_view(v@) =~= seq![accounts.refund(seed), accounts.closing(seed)]);
    }
    Ok(v)
}

} // verus!
