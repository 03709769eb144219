//! `take_escrow`: a taker pays the price in B and receives tokens of A.
use vstd::prelude::*;

use crate::account::{Account, Key, MintAccount, ProgramErrorKind, TokenAccount};
use crate::cpi::{requests_view, seeds_view, CpiRequest, CpiRequestView};
use crate::escrow::state::{escrow_seeds, escrow_signer_seeds, EscrowDetails};

verus! {

/// The accounts of `take_escrow`.
#[derive(Clone, Copy, Debug, PartialEq, Eq)]
pub struct TakeEscrow {
    pub signer: Key,
    pub escrow_owner: Key,
    pub taker_ata_b: TokenAccount,
    pub taker_ata_a: TokenAccount,
    pub vault_ata_a: TokenAccount,
    pub maker_ata_b: TokenAccount,
    pub token_mint_a: MintAccount,
    pub token_mint_b: MintAccount,
    pub escrow_details: Account<EscrowDetails>,
    pub token_program: Key,
    pub associated_token_program: Key,
    pub system_program: Key,
}

impl TakeEscrow {
    /// The payment: the escrow's `token_b_amount` of B from the taker to the
    /// maker, signed by the taker.
    pub open spec fn payment(self) -> CpiRequestView {
        CpiRequestView::TransferChecked {
            token_program: self.token_program,
            from: self.taker_ata_b.key,
            mint: self.token_mint_b.key,
            to: self.maker_ata_b.key,
            authority: self.signer,
            amount: self.escrow_details.data.token_b_amount,
            decimals: self.token_mint_b.decimals,
            signer_seeds: Seq::empty(),
        }
    }

    /// The release: from the vault to the taker in mint A, signed by the
    /// escrow, of the escrow's `token_b_amount` with mint B's decimals.
    pub open spec fn release(self, seed: u64) -> CpiRequestView {
        CpiRequestView::TransferChecked {
            token_program: self.token_program,
            from: self.vault_ata_a.key,
            mint: self.token_mint_a.key,
            to: self.taker_ata_a.key,
            authority: self.escrow_details.key,
            amount: self.escrow_details.data.token_b_amount,
            decimals: self.token_mint_b.decimals,
            signer_seeds: escrow_seeds(
                self.escrow_owner,
                seed,
                self.escrow_details.data.escrow_bump,
            ),
        }
    }
}

/// The `take_escrow` instruction: asks first for the payment, then for the
/// release.
pub fn handler(accounts: &TakeEscrow, seed: u64) -> (r: Result<Vec<CpiRequest>, ProgramErrorKind>)
    ensures
        r matches Ok(v) && requests_view(v@) == seq![accounts.payment(), accounts.release(seed)],
{
    let no_seeds: Vec<Vec<u8>> = Vec::new();
    assert(seeds_view(no_seeds@) =~= Seq::empty());
    let payment = CpiRequest::TransferChecked {
        token_program: accounts.token_program,
        from: accounts.taker_ata_b.key,
        mint: accounts.token_mint_b.key,
        to: accounts.maker_ata_b.key,
        authority: accounts.signer,
        amount: accounts.escrow_details.data.token_b_amount,
        decimals: accounts.token_mint_b.decimals,
        signer_seeds: no_seeds,
    };
    let signer_seeds = escrow_signer_seeds(
        &accounts.escrow_owner,
        seed,
        accounts.escrow_details.data.escrow_bump,
    );
    let release = CpiRequest::TransferChecked {
        token_program: accounts.token_program,
        from: accounts.vault_ata_a.key,
        mint: accounts.token_mint_a.key,
        to: accounts.taker_ata_a.key,
        authority: accounts.escrow_details.key,
        amount: accounts.escrow_details.data.token_b_amount,
        decimals: accounts.token_mint_b.decimals,
        signer_seeds,
    };
    let v = vec![payment, release];
    assert(requests_view(v@) =~= seq![accounts.payment(), accounts.release(seed)]);
    Ok(v)
}

} // verus!
