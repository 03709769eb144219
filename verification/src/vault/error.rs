use vstd::prelude::*;

verus! {

/// The vault program's own error codes.
#[derive(Clone, Copy, Debug, PartialEq, Eq)]
pub enum ErrorCode {
    /// "Custom error message"
    CustomError,
    /// "Vault does not have requested amount of lamports"
    InvalidLamportsRequested,
}

} // verus!
