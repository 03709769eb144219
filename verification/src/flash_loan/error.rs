use vstd::prelude::*;

verus! {

/// The flash-loan program's own error codes.
#[derive(Clone, Copy, Debug, PartialEq, Eq)]
pub enum ErrorCode {
    /// "Instruction does not follow the required pattern to copy"
    InvalidInstructions,
    /// "Instruction does not belong the required program"
    InvalidProgramInstruction,
    /// "Invalid program account passed"
    InvalidAccount,
    /// "Invalid borrower ATA"
    InvalidBorrowerAta,
}

} // verus!
