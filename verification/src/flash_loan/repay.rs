//! `repay`: pays the borrowed amount back to the treasury.
use vstd::prelude::*;

use crate::account::{key_eq, Failure, SysvarInstruction, SysvarInstructionView};
use crate::cpi::{requests_view, CpiRequest, CpiRequestView};
use crate::flash_loan::borrow::{has_discriminator, starts_with};
use crate::flash_loan::error::ErrorCode;
use crate::flash_loan::loan::{Loan, BORROW_DISCRIMINATOR, ID};
use crate::runtime::{is_instructions_sysvar, load_instruction_at_checked, loaded_view, sysvar_instruction_at};

verus! {

impl Loan {
    /// The checks of the transaction's first instruction run without
    /// aborting: an instruction of this program has at least eight bytes of
    /// data, and a `borrow` at least seventeen.
    pub open spec fn can_repay_with(self, first: SysvarInstructionView) -> bool {
        first.program_id@ == ID@ ==> {
            &&& first.data.len() >= 8
            &&& starts_with(first.data, BORROW_DISCRIMINATOR@) ==> first.data.len() >= 17
        }
    }

    /// The amount `repay` pays back: bytes 9 to 16 of the `borrow`
    /// instruction's data, little-endian.
    pub open spec fn repaid_amount(first: SysvarInstructionView) -> u64 {
        vstd::bytes::spec_u64_from_le_bytes(first.data.subrange(9, 17))
    }

    /// The repayment: `amount` from the user's token account back to the
    /// treasury's, signed by the user.
    pub open spec fn repayment_transfer(self, amount: u64) -> CpiRequestView {
        CpiRequestView::Transfer {
            token_program: self.token_program,
            from: self.user_ata.key,
            to: self.treasury_ata.key,
            authority: self.user,
            amount: amount,
            signer_seeds: Seq::empty(),
        }
    }

    /// The verdict on the transaction's first instruction: it must be this
    /// program's `borrow`; the repayment then pays back the amount read
    /// from it.
    pub open spec fn borrow_verdict(self, first: SysvarInstructionView) -> Result<
        CpiRequestView,
        Failure<ErrorCode>,
    > {
        if first.program_id@ != ID@ {
            Err(Failure::Custom(ErrorCode::InvalidProgramInstruction))
        } else if !starts_with(first.data, BORROW_DISCRIMINATOR@) {
            Err(Failure::Custom(ErrorCode::InvalidInstructions))
        } else {
            Ok(self.repayment_transfer(Self::repaid_amount(first)))
        }
    }

    /// What `repay` ends with: `None` where the program aborts (a first
    /// instruction whose data is too short to be read).
    pub open spec fn repay_outcome(self) -> Option<Result<CpiRequestView, Failure<ErrorCode>>> {
        if !is_instructions_sysvar(self.instruction.key) {
            Some(Err(Failure::Program(crate::account::ProgramErrorKind::UnsupportedSysvar)))
        } else {
            match sysvar_instruction_at(0, self.instruction.data@) {
                Err(e) => Some(Err(Failure::Program(e))),
                Ok(first) => if self.can_repay_with(first) {
                    Some(self.borrow_verdict(first))
                } else {
                    None
                },
            }
        }
    }

    /// The repayment, given the transaction's first instruction; see
    /// [`Loan::borrow_verdict`].
    pub fn repay_with(&self, first: &SysvarInstruction) -> (r: Result<CpiRequest, Failure<ErrorCode>>)
        requires
            self.can_repay_with(first@),
        ensures
            match r {
                Ok(req) => self.borrow_verdict(first@) == Ok::<CpiRequestView, Failure<ErrorCode>>(
                    req@,
                ),
                Err(e) => self.borrow_verdict(first@) == Err::<CpiRequestView, Failure<ErrorCode>>(
                    e,
                ),
            },
    {
        if !key_eq(&first.program_id, &ID) {
            return Err(Failure::Custom(ErrorCode::InvalidProgramInstruction));
        }
        if !has_discriminator(&first.data, &BORROW_DISCRIMINATOR) {
            return Err(Failure::Custom(ErrorCode::InvalidInstructions));
        }
        let borrowed_amount = vstd::bytes::u64_from_le_bytes(
            vstd::slice::slice_subrange(first.data.as_slice(), 9, 17),
        );
        let signer_seeds: Vec<Vec<u8>> = Vec::new();
        assert(crate::cpi::seeds_view(signer_seeds@) =~= Seq::empty());
        Ok(
            CpiRequest::Transfer {
                token_program: self.token_program,
                from: self.user_ata.key,
                to: self.treasury_ata.key,
                authority: self.user,
                amount: borrowed_amount,
                signer_seeds,
            },
        )
    }

    /// `repay`: reads the transaction's first instruction from the sysvar
    /// and asks for the repayment; see [`Loan::repay_outcome`].
    pub fn repay(&self) -> (r: Option<Result<CpiRequest, Failure<ErrorCode>>>)
        ensures
            match r {
                None => self.repay_outcome() is None,
                Some(Err(e)) => self.repay_outcome() == Some(
                    Err::<CpiRequestView, Failure<ErrorCode>>(e),
                ),
                Some(Ok(req)) => self.repay_outcome() == Some(
                    Ok::<CpiRequestView, Failure<ErrorCode>>(req@),
                ),
            },
    {
        let first = match load_instruction_at_checked(0, &self.instruction) {
            Ok(ix) => ix,
            Err(e) => return Some(Err(Failure::Program(e))),
        };
        assert(loaded_view(Ok(first)) == Ok::<SysvarInstructionView, crate::account::ProgramErrorKind>(first@));
        if key_eq(&first.program_id, &ID) {
            if first.data.len() < 8 {
                return None;
            }
            if has_discriminator(&first.data, &BORROW_DISCRIMINATOR) && first.data.len() < 17 {
                return None;
            }
        }
        Some(self.repay_with(&first))
    }
}

/// The `repay` instruction: the repayment's transfer, or why there is none.
pub fn handler(accounts: &Loan) -> (r: Option<Result<Vec<CpiRequest>, Failure<ErrorCode>>>)
    ensures
        match r {
            None => accounts.repay_outcome() is None,
            Some(Err(e)) => accounts.repay_outcome() == Some(
                Err::<CpiRequestView, Failure<ErrorCode>>(e),
            ),
            Some(Ok(v)) => accounts.repay_outcome() matches Some(Ok(req)) && requests_view(v@)
                == seq![req],
        },
{
    match accounts.repay() {
        None => None,
        Some(Err(e)) => Some(Err(e)),
        Some(Ok(req)) => {
            let v = vec![req];
            assert(requests_view(v@) =~= seq![v@[0]@]);
            Some(Ok(v))
        },
    }
}

} // verus!
