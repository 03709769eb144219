use vstd::prelude::*;

verus! {

/// The staking program's own error codes.
#[derive(Clone, Copy, Debug, PartialEq, Eq)]
pub enum ErrorCode {
    /// "You do not have the balance to make the transaction"
    InvalidTokenBalance,
    /// Raised by `unstake` when more is asked than is staked.
    InvalidUnstake,
}

} // verus!
