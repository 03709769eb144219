//! Requests to other programs (cross-program invocations) that the handlers
//! hand back: each names the accounts, the amount and the seeds with which
//! the calling program signs for its own derived address.
use vstd::prelude::*;

use crate::account::Key;

verus! {

/// A cross-program invocation as the handlers issue it. `signer_seeds` is
/// empty where the call is made without a program signature.
#[derive(Clone, Debug, PartialEq, Eq)]
pub enum CpiRequest {
    /// Token program `transfer_checked`.
    TransferChecked {
        token_program: Key,
        from: Key,
        mint: Key,
        to: Key,
        authority: Key,
        amount: u64,
        decimals: u8,
        signer_seeds: Vec<Vec<u8>>,
    },
    /// Token program `transfer`.
    Transfer {
        token_program: Key,
        from: Key,
        to: Key,
        authority: Key,
        amount: u64,
        signer_seeds: Vec<Vec<u8>>,
    },
    /// Token program `close_account`.
    CloseAccount {
        token_program: Key,
        account: Key,
        destination: Key,
        authority: Key,
        signer_seeds: Vec<Vec<u8>>,
    },
    /// System program `transfer` of lamports.
    SystemTransfer { system_program: Key, from: Key, to: Key, amount: u64 },
}

/// The mathematical value of a [`CpiRequest`]: the seeds as byte sequences.
pub enum CpiRequestView {
    TransferChecked {
        token_program: Key,
        from: Key,
        mint: Key,
        to: Key,
        authority: Key,
        amount: u64,
        decimals: u8,
        signer_seeds: Seq<Seq<u8>>,
    },
    Transfer {
        token_program: Key,
        from: Key,
        to: Key,
        authority: Key,
        amount: u64,
        signer_seeds: Seq<Seq<u8>>,
    },
    CloseAccount {
        token_program: Key,
        account: Key,
        destination: Key,
        authority: Key,
        signer_seeds: Seq<Seq<u8>>,
    },
    SystemTransfer { system_program: Key, from: Key, to: Key, amount: u64 },
}

impl View for CpiRequest {
    type V = CpiRequestView;

    open spec fn view(&self) -> CpiRequestView {
        match self {
            CpiRequest::TransferChecked {
                token_program,
                from,
                mint,
                to,
                authority,
                amount,
                decimals,
                signer_seeds,
            } => CpiRequestView::TransferChecked {
                token_program: *token_program,
                from: *from,
                mint: *mint,
                to: *to,
                authority: *authority,
                amount: *amount,
                decimals: *decimals,
                signer_seeds: seeds_view(signer_seeds@),
            },
            CpiRequest::Transfer { token_program, from, to, authority, amount, signer_seeds } =>
                CpiRequestView::Transfer {
                token_program: *token_program,
                from: *from,
                to: *to,
                authority: *authority,
                amount: *amount,
                signer_seeds: seeds_view(signer_seeds@),
            },
            CpiRequest::CloseAccount {
                token_program,
                account,
                destination,
                authority,
                signer_seeds,
            } => CpiRequestView::CloseAccount {
                token_program: *token_program,
                account: *account,
                destination: *destination,
                authority: *authority,
                signer_seeds: seeds_view(signer_seeds@),
            },
            CpiRequest::SystemTransfer { system_program, from, to, amount } =>
                CpiRequestView::SystemTransfer {
                system_program: *system_program,
                from: *from,
                to: *to,
                amount: *amount,
            },
        }
    }
}

/// The seeds of a signer as byte sequences.
pub open spec fn seeds_view(s: Seq<Vec<u8>>) -> Seq<Seq<u8>> {
    s.map_values(|v: Vec<u8>| v@)
}

/// The views of a sequence of requests, in order.
pub open spec fn requests_view(s: Seq<CpiRequest>) -> Seq<CpiRequestView> {
    s.map_values(|r: CpiRequest| r@)
}

/// The view of an instruction's outcome: `None` where the program aborts,
/// otherwise its error or the views of the requests it issues, in order.
pub open spec fn outcome_view<E>(r: Option<Result<Vec<CpiRequest>, E>>) -> Option<
    Result<Seq<CpiRequestView>, E>,
> {
    match r {
        None => None,
        Some(Err(e)) => Some(Err(e)),
        Some(Ok(v)) => Some(Ok(requests_view(v@))),
    }
}

} // verus!
