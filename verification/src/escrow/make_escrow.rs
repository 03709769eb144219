//! `make_escrow`: the maker records the terms and locks the tokens of A.
use vstd::prelude::*;

use crate::account::{Account, Key, MintAccount, ProgramErrorKind, TokenAccount};
use crate::cpi::{requests_view, seeds_view, CpiRequest, CpiRequestView};
use crate::escrow::state::EscrowDetails;

verus! {

/// The accounts of `make_escrow`.
#[derive(Clone, Copy, Debug, PartialEq, Eq)]
pub struct MakeEscrow {
    pub maker: Key,
    pub escrow: Account<EscrowDetails>,
    pub mint_a: MintAccount,
    pub mint_b: MintAccount,
    pub maker_ata_a: TokenAccount,
    pub vault_ata_a: TokenAccount,
    pub token_program: Key,
    pub associated_token_program: Key,
    pub system_program: Key,
}

/// The bump seeds found for the derived addresses of `make_escrow`.
#[derive(Clone, Copy, Debug, PartialEq, Eq)]
pub struct MakeEscrowBumps {
    pub escrow: u8,
}

impl MakeEscrow {
    /// The terms that `make_escrow` records.
    pub open spec fn terms(
        self,
        seed: u64,
        token_a_amount: u64,
        token_b_amount: u64,
        escrow_bump: u8,
    ) -> EscrowDetails {
        EscrowDetails {
            seed: seed,
            maker_address: self.maker,
            mint_a: self.mint_a.key,
            mint_b: self.mint_b.key,
            token_a_amount: token_a_amount,
            token_b_amount: token_b_amount,
            escrow_bump: escrow_bump,
        }
    }

    /// The deposit of `token_a_amount` tokens of A from the maker into the
    /// vault, signed by the maker.
    pub open spec fn deposit(self, token_a_amount: u64) -> CpiRequestView {
        CpiRequestView::TransferChecked {
            token_program: self.token_program,
            from: self.maker_ata_a.key,
            mint: self.mint_a.key,
            to: self.vault_ata_a.key,
            authority: self.maker,
            amount: token_a_amount,
            decimals: self.mint_a.decimals,
            signer_seeds: Seq::empty(),
        }
    }

    /// Records the terms in the escrow account.
    fn populate_escrow(
        &mut self,
        seed: u64,
        token_a_amount: u64,
        token_b_amount: u64,
        escrow_bump: u8,
    ) -> (r: Result<(), ProgramErrorKind>)
        ensures
            r is Ok,
            *final(self) == (MakeEscrow {
                escrow: Account {
                    data: old(self).terms(seed, token_a_amount, token_b_amount, escrow_bump),
                    ..old(self).escrow
                },
                ..*old(self)
            }),
    {
        self.escrow.data = EscrowDetails {
            seed,
            maker_address: self.maker,
            mint_a: self.mint_a.key,
            mint_b: self.mint_b.key,
            token_a_amount,
            token_b_amount,
            escrow_bump,
        };
        Ok(())
    }

    /// The deposit's transfer request.
    fn deposit_tokens(&self, token_a_amount: u64) -> (r: CpiRequest)
        ensures
            r@ == self.deposit(token_a_amount),
    {
        let signer_seeds: Vec<Vec<u8>> = Vec::new();
        assert(seeds_view(signer_seeds@) =~= Seq::empty());
        CpiRequest::TransferChecked {
            token_program: self.token_program,
            from: self.maker_ata_a.key,
            mint: self.mint_a.key,
            to: self.vault_ata_a.key,
            authority: self.maker,
            amount: token_a_amount,
            decimals: self.mint_a.decimals,
            signer_seeds,
        }
    }
}

/// The `make_escrow` instruction: records the terms, then asks for the
/// deposit of the tokens of A into the vault.
pub fn handler(
    accounts: &mut MakeEscrow,
    bumps: MakeEscrowBumps,
    token_a_amount: u64,
    token_b_amount: u64,
    seed: u64,
) -> (r: Result<Vec<CpiRequest>, ProgramErrorKind>)
    ensures
        final(accounts).escrow.data == old(accounts).terms(
            seed,
            token_a_amount,
            token_b_amount,
            bumps.escrow,
        ),
        *final(accounts) == (MakeEscrow { escrow: final(accounts).escrow, ..*old(accounts) }),
        final(accounts).escrow.key == old(accounts).escrow.key,
        final(accounts).escrow.lamports == old(accounts).escrow.lamports,
        r matches Ok(v) && requests_view(v@) == seq![old(accounts).deposit(token_a_amount)],
{
    let _ = accounts.populate_escrow(seed, token_a_amount, token_b_amount, bumps.escrow);
    let deposit = accounts.deposit_tokens(token_a_amount);
    let v = vec![deposit];
    assert(requests_view(v@) =~= seq![old(accounts).deposit(token_a_amount)]);
    Ok(v)
}

} // verus!
