//! `borrow`: lends tokens from the treasury once the transaction is checked
//! to end with this program's `repay`.
use vstd::prelude::*;

use crate::account::{key_eq, Failure, SysvarInstruction, SysvarInstructionView};
use crate::cpi::{requests_view, CpiRequest, CpiRequestView};
use crate::flash_loan::error::ErrorCode;
use crate::flash_loan::loan::{Loan, LoanBumps, ID, REPAY_DISCRIMINATOR, TREASURY_SEED};
use crate::runtime::{
    is_instructions_sysvar, last_two_bytes, load_current_index_checked,
    load_instruction_at_checked, loaded_view, sysvar_instruction_at,
};

verus! {

/// Whether `data` begins with the eight bytes of `discriminator`.
pub open spec fn starts_with(data: Seq<u8>, discriminator: Seq<u8>) -> bool {
    data.len() >= 8 && data.subrange(0, 8) == discriminator
}

/// Decides whether `data`, which has at least eight bytes, begins with the
/// eight bytes of `discriminator`.
pub fn has_discriminator(data: &Vec<u8>, discriminator: &[u8; 8]) -> (r: bool)
    requires
        data@.len() >= 8,
    ensures
        r == starts_with(data@, discriminator@),
{
    let mut i: usize = 0;
    while i < 8
        invariant
            0 <= i <= 8,
            data@.len() >= 8,
            discriminator@.len() == 8,
            forall|j: int| 0 <= j < i ==> data@[j] == discriminator@[j],
        decreases 8 - i,
    {
        if data[i] != discriminator[i] {
            assert(data@.subrange(0, 8)[i as int] != discriminator@[i as int]);
            return false;
        }
        i = i + 1;
    }
    assert(data@.subrange(0, 8) =~= discriminator@);
    true
}

impl Loan {
    /// The checks of the transaction's last instruction run without
    /// aborting: an instruction of this program has at least eight bytes of
    /// data.
    pub open spec fn can_check_repay(self, last: SysvarInstructionView) -> bool {
        last.program_id@ == ID@ ==> last.data.len() >= 8
    }

    /// The verdict on the transaction's last instruction: it must be this
    /// program's `repay`, with the user's token account fourth and the
    /// treasury's fifth among its accounts.
    pub open spec fn repay_verdict(self, last: SysvarInstructionView) -> Result<(), Failure<ErrorCode>> {
        if last.program_id@ != ID@ {
            Err(Failure::Custom(ErrorCode::InvalidProgramInstruction))
        } else if !starts_with(last.data, REPAY_DISCRIMINATOR@) {
            Err(Failure::Custom(ErrorCode::InvalidProgramInstruction))
        } else if last.account_keys.len() <= 3 {
            Err(Failure::Custom(ErrorCode::InvalidAccount))
        } else if last.account_keys[3]@ != self.user_ata.key@ {
            Err(Failure::Custom(ErrorCode::InvalidBorrowerAta))
        } else if last.account_keys.len() <= 4 {
            Err(Failure::Custom(ErrorCode::InvalidAccount))
        } else if last.account_keys[4]@ != self.treasury_ata.key@ {
            Err(Failure::Custom(ErrorCode::InvalidBorrowerAta))
        } else {
            Ok(())
        }
    }

    /// The loan: `amount` from the treasury's token account to the user's,
    /// signed by the treasury.
    pub open spec fn loan_transfer(self, treasury_bump: u8, amount: u64) -> CpiRequestView {
        CpiRequestView::Transfer {
            token_program: self.token_program,
            from: self.treasury_ata.key,
            to: self.user_ata.key,
            authority: self.treasury,
            amount: amount,
            signer_seeds: seq![TREASURY_SEED@, seq![treasury_bump]],
        }
    }

    /// The number of instructions in the transaction: the first two bytes of
    /// the sysvar data, little-endian.
    pub open spec fn instruction_count(self) -> u16 {
        vstd::bytes::spec_u16_from_le_bytes(self.instruction.data@.subrange(0, 2))
    }

    /// The index of the running instruction: the last two bytes of the
    /// sysvar data, little-endian.
    pub open spec fn current_index(self) -> u16 {
        vstd::bytes::spec_u16_from_le_bytes(last_two_bytes(self.instruction.data@))
    }

    /// What `borrow` ends with: `None` where the program aborts (sysvar data
    /// shorter than two bytes, a transaction counted as empty, or a last
    /// instruction of this program with fewer than eight bytes of data).
    pub open spec fn borrow_outcome(self, treasury_bump: u8, amount: u64) -> Option<
        Result<CpiRequestView, Failure<ErrorCode>>,
    > {
        if self.instruction.data@.len() < 2 {
            None
        } else if !is_instructions_sysvar(self.instruction.key) {
            Some(Err(Failure::Program(crate::account::ProgramErrorKind::UnsupportedSysvar)))
        } else if self.current_index() != 0 {
            Some(Err(Failure::Custom(ErrorCode::InvalidInstructions)))
        } else if self.instruction_count() == 0 {
            None
        } else {
            match sysvar_instruction_at(self.instruction_count() - 1, self.instruction.data@) {
                Err(e) => Some(Err(Failure::Program(e))),
                Ok(last) => if !self.can_check_repay(last) {
                    None
                } else {
                    match self.repay_verdict(last) {
                        Err(e) => Some(Err(e)),
                        Ok(_) => Some(Ok(self.loan_transfer(treasury_bump, amount))),
                    }
                },
            }
        }
    }

    /// Checks the transaction's last instruction; see
    /// [`Loan::repay_verdict`].
    pub fn check_repay_instruction(&self, last: &SysvarInstruction) -> (r: Result<
        (),
        Failure<ErrorCode>,
    >)
        requires
            self.can_check_repay(last@),
        ensures
            r == self.repay_verdict(last@),
    {
        if !key_eq(&last.program_id, &ID) {
            return Err(Failure::Custom(ErrorCode::InvalidProgramInstruction));
        }
        if !has_discriminator(&last.data, &REPAY_DISCRIMINATOR) {
            return Err(Failure::Custom(ErrorCode::InvalidProgramInstruction));
        }
        if last.account_keys.len() <= 3 {
            return Err(Failure::Custom(ErrorCode::InvalidAccount));
        }
        if !key_eq(&last.account_keys[3], &self.user_ata.key) {
            return Err(Failure::Custom(ErrorCode::InvalidBorrowerAta));
        }
        if last.account_keys.len() <= 4 {
            return Err(Failure::Custom(ErrorCode::InvalidAccount));
        }
        if !key_eq(&last.account_keys[4], &self.treasury_ata.key) {
            return Err(Failure::Custom(ErrorCode::InvalidBorrowerAta));
        }
        Ok(())
    }

    /// The loan's transfer request.
    pub fn loan_request(&self, treasury_bump: u8, amount: u64) -> (r: CpiRequest)
        ensures
            r@ == self.loan_transfer(treasury_bump, amount),
    {
        let mut signer_seeds: Vec<Vec<u8>> = Vec::new();
        signer_seeds.push(vstd::slice::slice_to_vec(TREASURY_SEED.as_slice()));
        signer_seeds.push(vec![treasury_bump]);
        assert(signer_seeds@[1]@ =~= seq![treasury_bump]);
        assert(crate::cpi::seeds_view(signer_seeds@) =~= seq![TREASURY_SEED@, seq![treasury_bump]]);
        CpiRequest::Transfer {
            token_program: self.token_program,
            from: self.treasury_ata.key,
            to: self.user_ata.key,
            authority: self.treasury,
            amount,
            signer_seeds,
        }
    }

    /// `borrow`: reads the transaction's instructions from the sysvar,
    /// requires the running instruction to be the first and the last to be
    /// this program's `repay` on the same token accounts, and then asks for
    /// the loan. See [`Loan::borrow_outcome`].
    pub fn borrow(&self, treasury_bump: u8, amount: u64) -> (r: Option<
        Result<CpiRequest, Failure<ErrorCode>>,
    >)
        ensures
            match r {
                None => self.borrow_outcome(treasury_bump, amount) is None,
                Some(Err(e)) => self.borrow_outcome(treasury_bump, amount) == Some(
                    Err::<CpiRequestView, Failure<ErrorCode>>(e),
                ),
                Some(Ok(req)) => self.borrow_outcome(treasury_bump, amount) == Some(
                    Ok::<CpiRequestView, Failure<ErrorCode>>(req@),
                ),
            },
    {
        let data = &self.instruction.data;
        if data.len() < 2 {
            return None;
        }
        let instruction_len = vstd::bytes::u16_from_le_bytes(
            vstd::slice::slice_subrange(data.as_slice(), 0, 2),
        );
        let current_index = match load_current_index_checked(&self.instruction) {
            Ok(index) => index,
            Err(e) => return Some(Err(Failure::Program(e))),
        };
        if current_index != 0 {
            return Some(Err(Failure::Custom(ErrorCode::InvalidInstructions)));
        }
        if instruction_len == 0 {
            return None;
        }
        let last_instruction = match load_instruction_at_checked(
            (instruction_len - 1) as usize,
            &self.instruction,
        ) {
            Ok(ix) => ix,
            Err(e) => return Some(Err(Failure::Program(e))),
        };
        let ghost last = last_instruction@;
        assert(loaded_view(Ok(last_instruction)) == Ok::<SysvarInstructionView, crate::account::ProgramErrorKind>(last));
        if key_eq(&last_instruction.program_id, &ID) && last_instruction.data.len() < 8 {
            return None;
        }
        match self.check_repay_instruction(&last_instruction) {
            Err(e) => Some(Err(e)),
            Ok(()) => Some(Ok(self.loan_request(treasury_bump, amount))),
        }
    }
}

/// The `borrow` instruction: the loan's transfer, or why there is none.
pub fn handler(accounts: &Loan, bumps: LoanBumps, amount: u64) -> (r: Option<
    Result<Vec<CpiRequest>, Failure<ErrorCode>>,
>)
    ensures
        match r {
            None => accounts.borrow_outcome(bumps.treasury, amount) is None,
            Some(Err(e)) => accounts.borrow_outcome(bumps.treasury, amount) == Some(
                Err::<CpiRequestView, Failure<ErrorCode>>(e),
            ),
            Some(Ok(v)) => accounts.borrow_outcome(bumps.treasury, amount) matches Some(Ok(req))
                && requests_view(v@) == seq![req],
        },
{
    match accounts.borrow(bumps.treasury, amount) {
        None => None,
        Some(Err(e)) => Some(Err(e)),
        Some(Ok(req)) => {
            let v = vec![req];
            assert(requests_view(v@) =~= seq![v@[0]@]);
            Some(Ok(v))
        },
    }
}

} // verus!
