//! What `borrow` and `repay` grant, and what a success tells about the
//! transaction.
use vstd::prelude::*;

use crate::account::{Failure, SysvarInstructionView};
use crate::cpi::CpiRequestView;
use crate::flash_loan::borrow::starts_with;
use crate::flash_loan::error::ErrorCode;
use crate::flash_loan::loan::{Loan, BORROW_DISCRIMINATOR, ID, REPAY_DISCRIMINATOR, TREASURY_SEED};
use crate::runtime::{is_instructions_sysvar, sysvar_instruction_at};

verus! {

/// A loan is granted only inside a transaction that this program's
/// `borrow` opens and this program's `repay` closes, the fourth and fifth
/// account slots of that `repay` holding the borrower's and the treasury's
/// token accounts; the loan moves exactly the requested amount from the
/// treasury to the user.
pub proof fn lemma_loan_requires_closing_repay(loan: Loan, treasury_bump: u8, amount: u64)
    requires
        loan.borrow_outcome(treasury_bump, amount) is Some,
        loan.borrow_outcome(treasury_bump, amount)->0 is Ok,
    ensures
        is_instructions_sysvar(loan.instruction.key),
        loan.current_index() == 0,
        loan.instruction_count() >= 1,
        exists|last: SysvarInstructionView|
            {
                &&& #[trigger] sysvar_instruction_at(loan.instruction_count() - 1, loan.instruction.data@)
                    == Ok::<SysvarInstructionView, crate::account::ProgramErrorKind>(last)
                &&& last.program_id@ == ID@
                &&& starts_with(last.data, REPAY_DISCRIMINATOR@)
                &&& last.account_keys.len() >= 5
                &&& last.account_keys[3]@ == loan.user_ata.key@
                &&& last.account_keys[4]@ == loan.treasury_ata.key@
            },
        loan.borrow_outcome(treasury_bump, amount)->0->Ok_0 == loan.loan_transfer(treasury_bump, amount),
{
    let last = sysvar_instruction_at(loan.instruction_count() - 1, loan.instruction.data@)->Ok_0;
    assert(sysvar_instruction_at(loan.instruction_count() - 1, loan.instruction.data@) == Ok::<
        SysvarInstructionView,
        crate::account::ProgramErrorKind,
    >(last));
}

/// A repayment is asked for only where the transaction's first
/// instruction is this program's `borrow`; it is paid from the user's token
/// account into the treasury's.
pub proof fn lemma_repayment_requires_opening_borrow(loan: Loan)
    requires
        loan.repay_outcome() is Some,
        loan.repay_outcome()->0 is Ok,
    ensures
        is_instructions_sysvar(loan.instruction.key),
        exists|first: SysvarInstructionView|
            {
                &&& #[trigger] sysvar_instruction_at(0, loan.instruction.data@) == Ok::<
                    SysvarInstructionView,
                    crate::account::ProgramErrorKind,
                >(first)
                &&& first.program_id@ == ID@
                &&& starts_with(first.data, BORROW_DISCRIMINATOR@)
                &&& loan.repay_outcome()->0->Ok_0 == loan.repayment_transfer(
                    Loan::repaid_amount(first),
                )
            },
{
    let first = sysvar_instruction_at(0, loan.instruction.data@)->Ok_0;
    assert(sysvar_instruction_at(0, loan.instruction.data@) == Ok::<
        SysvarInstructionView,
        crate::account::ProgramErrorKind,
    >(first));
}

/// `repay` reads the borrowed amount from bytes 9 to 16 of the `borrow`
/// instruction's data. A `borrow` whose data is its eight-byte
/// discriminator followed by the eight bytes of its amount, sixteen bytes
/// in all, is one byte too short: `repay` then aborts.
pub proof fn lemma_repay_aborts_on_sixteen_byte_borrow(loan: Loan, first: SysvarInstructionView)
    requires
        is_instructions_sysvar(loan.instruction.key),
        sysvar_instruction_at(0, loan.instruction.data@) == Ok::<
            SysvarInstructionView,
            crate::account::ProgramErrorKind,
        >(first),
        first.program_id@ == ID@,
        starts_with(first.data, BORROW_DISCRIMINATOR@),
        first.data.len() == 16,
    ensures
        loan.repay_outcome() is None,
{
}

/// The repayment reverses the loan, on the inputs where `repay` reads the
/// lent amount: where the transaction's `borrow` was accepted for `amount`
/// and the first instruction's bytes 9 to 16 hold `amount`, `repay` on the
/// same accounts moves exactly `amount` back, from the user's token account
/// to the treasury's, through the same token program. (A `borrow` encoded
/// with its amount right after the discriminator never meets this: see
/// [`lemma_repay_aborts_on_sixteen_byte_borrow`].)
pub proof fn lemma_repay_returns_the_loan(
    lender: Loan,
    payer: Loan,
    treasury_bump: u8,
    amount: u64,
    first: SysvarInstructionView,
)
    requires
        lender.borrow_outcome(treasury_bump, amount) is Some,
        lender.borrow_outcome(treasury_bump, amount)->0 is Ok,
        payer.user == lender.user,
        payer.user_ata == lender.user_ata,
        payer.treasury_ata == lender.treasury_ata,
        payer.token_program == lender.token_program,
        payer.repay_outcome() is Some,
        payer.repay_outcome()->0 is Ok,
        sysvar_instruction_at(0, payer.instruction.data@) == Ok::<
            SysvarInstructionView,
            crate::account::ProgramErrorKind,
        >(first),
        Loan::repaid_amount(first) == amount,
    ensures
        lender.borrow_outcome(treasury_bump, amount)->0->Ok_0 matches CpiRequestView::Transfer {
            token_program: t1,
            from: f1,
            to: d1,
            amount: a1,
            ..
        } && payer.repay_outcome()->0->Ok_0 matches CpiRequestView::Transfer {
            token_program: t2,
            from: f2,
            to: d2,
            amount: a2,
            ..
        } && t1 == t2 && f2 == d1 && d2 == f1 && a1 == amount && a2 == amount,
{
}

/// `borrow` grants the loan whenever the running instruction is the
/// transaction's first and its last is this program's `repay` whose account
/// slots 3 and 4 hold the user's and the treasury's token accounts, however
/// many accounts that `repay` carries beyond five: the loan is then exactly
/// `amount` from the treasury's token account to the user's, signed by the
/// treasury.
pub proof fn lemma_borrow_grants_loan_before_matching_repay(
    loan: Loan,
    treasury_bump: u8,
    amount: u64,
    last: SysvarInstructionView,
)
    requires
        loan.instruction.data@.len() >= 2,
        is_instructions_sysvar(loan.instruction.key),
        loan.current_index() == 0,
        loan.instruction_count() >= 1,
        sysvar_instruction_at(loan.instruction_count() - 1, loan.instruction.data@) == Ok::<
            SysvarInstructionView,
            crate::account::ProgramErrorKind,
        >(last),
        last.program_id@ == ID@,
        last.data.len() >= 8,
        last.data.subrange(0, 8) == REPAY_DISCRIMINATOR@,
        last.account_keys.len() >= 5,
        last.account_keys[3]@ == loan.user_ata.key@,
        last.account_keys[4]@ == loan.treasury_ata.key@,
    ensures
        loan.borrow_outcome(treasury_bump, amount) == Some(
            Ok::<CpiRequestView, Failure<ErrorCode>>(
                CpiRequestView::Transfer {
                    token_program: loan.token_program,
                    from: loan.treasury_ata.key,
                    to: loan.user_ata.key,
                    authority: loan.treasury,
                    amount: amount,
                    signer_seeds: seq![TREASURY_SEED@, seq![treasury_bump]],
                },
            ),
        ),
{
}

/// `borrow` reports a missing account only where the transaction's last
/// instruction carries fewer than five accounts.
pub proof fn lemma_borrow_missing_account_only_below_five(
    loan: Loan,
    treasury_bump: u8,
    amount: u64,
)
    requires
        loan.borrow_outcome(treasury_bump, amount) == Some(
            Err::<CpiRequestView, Failure<ErrorCode>>(Failure::Custom(ErrorCode::InvalidAccount)),
        ),
    ensures
        exists|last: SysvarInstructionView|
            {
                &&& #[trigger] sysvar_instruction_at(loan.instruction_count() - 1, loan.instruction.data@)
                    == Ok::<SysvarInstructionView, crate::account::ProgramErrorKind>(last)
                &&& last.account_keys.len() < 5
            },
{
    let last = sysvar_instruction_at(loan.instruction_count() - 1, loan.instruction.data@)->Ok_0;
    assert(sysvar_instruction_at(loan.instruction_count() - 1, loan.instruction.data@) == Ok::<
        SysvarInstructionView,
        crate::account::ProgramErrorKind,
    >(last));
}

/// `repay` pays back the amount written, as a little-endian `u64`, in all
/// eight bytes 9 to 16 of the transaction's first instruction: for every
/// amount `a` written there by this program's `borrow`, the repayment is
/// exactly `a`, from the user's token account to the treasury's, signed by
/// the user.
pub proof fn lemma_repay_pays_the_written_amount(loan: Loan, first: SysvarInstructionView, a: u64)
    requires
        is_instructions_sysvar(loan.instruction.key),
        sysvar_instruction_at(0, loan.instruction.data@) == Ok::<
            SysvarInstructionView,
            crate::account::ProgramErrorKind,
        >(first),
        first.program_id@ == ID@,
        first.data.len() >= 17,
        first.data.subrange(0, 8) == BORROW_DISCRIMINATOR@,
        first.data.subrange(9, 17) == vstd::bytes::spec_u64_to_le_bytes(a),
    ensures
        loan.repay_outcome() == Some(
            Ok::<CpiRequestView, Failure<ErrorCode>>(
                CpiRequestView::Transfer {
                    token_program: loan.token_program,
                    from: loan.user_ata.key,
                    to: loan.treasury_ata.key,
                    authority: loan.user,
                    amount: a,
                    signer_seeds: Seq::empty(),
                },
            ),
        ),
{
    vstd::bytes::lemma_auto_spec_u64_to_from_le_bytes();
    assert(vstd::bytes::spec_u64_from_le_bytes(vstd::bytes::spec_u64_to_le_bytes(a)) == a);
}

} // verus!
