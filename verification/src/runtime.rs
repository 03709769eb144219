//! Calls into the Solana runtime through `anchor_lang`, each behind a
//! trusted wrapper whose contract states what the outside source shows.
use vstd::prelude::*;

use anchor_lang::prelude::SolanaSysvar;
use anchor_lang::solana_program::account_info::AccountInfo;
use anchor_lang::solana_program::program_error::ProgramError;
use anchor_lang::solana_program::pubkey::Pubkey;
use anchor_lang::solana_program::sysvar::instructions;

use crate::account::{Key, ProgramErrorKind, SysvarAccount, SysvarInstruction, SysvarInstructionView};

verus! {

/// The address of the instructions sysvar,
/// `Sysvar1nstructions1111111111111111111111111`.
pub const INSTRUCTIONS_SYSVAR_ID: Key = [
    6, 167, 213, 23, 24, 123, 209, 102, 53, 218, 212, 4, 85, 253, 194, 192, 193, 36, 198, 143, 33,
    86, 117, 165, 219, 186, 203, 95, 8, 0, 0, 0,
];

/// Whether `key` is the address of the instructions sysvar: the test
/// (`check_id`) with which the sysvar loaders of `anchor_lang` begin.
pub open spec fn is_instructions_sysvar(key: Key) -> bool {
    key@ == INSTRUCTIONS_SYSVAR_ID@
}

/// What the instructions sysvar's deserializer of `anchor_lang` makes of the
/// instruction at `index` in the sysvar data `data`.
pub uninterp spec fn sysvar_instruction_at(index: int, data: Seq<u8>) -> Result<
    SysvarInstructionView,
    ProgramErrorKind,
>;

/// The last two bytes of `data`.
pub open spec fn last_two_bytes(data: Seq<u8>) -> Seq<u8> {
    data.subrange(data.len() - 2, data.len() as int)
}

/// The view of a load result.
pub open spec fn loaded_view(r: Result<SysvarInstruction, ProgramErrorKind>) -> Result<
    SysvarInstructionView,
    ProgramErrorKind,
> {
    match r {
        Ok(ix) => Ok(ix@),
        Err(e) => Err(e),
    }
}

/// `sysvar::instructions::load_current_index_checked` of `anchor_lang`, on
/// an account with `sysvar`'s address and data. The source refuses any
/// other address than the sysvar's with `UnsupportedSysvar` and otherwise
/// reads the index, little-endian, from the last two bytes of the data
/// (it slices them without a check: `requires` rules out shorter data).
#[verifier::external_body]
pub(crate) fn load_current_index_checked(sysvar: &SysvarAccount) -> (r: Result<
    u16,
    ProgramErrorKind,
>)
    requires
        sysvar.data@.len() >= 2,
    ensures
        is_instructions_sysvar(sysvar.key) ==> r is Ok && r->Ok_0
            == vstd::bytes::spec_u16_from_le_bytes(last_two_bytes(sysvar.data@)),
        !is_instructions_sysvar(sysvar.key) ==> r is Err && r->Err_0
            == ProgramErrorKind::UnsupportedSysvar,
{
    let (key, owner, mut lamports, mut data) = (Pubkey::new_from_array(sysvar.key), Pubkey::default(), 0u64, sysvar.data.clone());
    let info = AccountInfo::new(&key, false, false, &mut lamports, &mut data, &owner, false, 0);
    match instructions::load_current_index_checked(&info) {
        Ok(index) => Ok(index),
        Err(ProgramError::UnsupportedSysvar) => Err(ProgramErrorKind::UnsupportedSysvar),
        Err(e) => Err(ProgramErrorKind::Other(u64::from(e))),
    }
}

/// `sysvar::instructions::load_instruction_at_checked` of `anchor_lang`, on
/// an account with `sysvar`'s address and data, with each account of the
/// instruction reduced to its address. The source refuses any other address
/// than the sysvar's with `UnsupportedSysvar`; otherwise the result is a
/// function of `index` and the data alone, named
/// [`sysvar_instruction_at`].
#[verifier::external_body]
pub(crate) fn load_instruction_at_checked(index: usize, sysvar: &SysvarAccount) -> (r: Result<
    SysvarInstruction,
    ProgramErrorKind,
>)
    ensures
        is_instructions_sysvar(sysvar.key) ==> loaded_view(r) == sysvar_instruction_at(
            index as int,
            sysvar.data@,
        ),
        !is_instructions_sysvar(sysvar.key) ==> r is Err && r->Err_0
            == ProgramErrorKind::UnsupportedSysvar,
{
    let (key, owner, mut lamports, mut data) = (Pubkey::new_from_array(sysvar.key), Pubkey::default(), 0u64, sysvar.data.clone());
    let info = AccountInfo::new(&key, false, false, &mut lamports, &mut data, &owner, false, 0);
    match instructions::load_instruction_at_checked(index, &info) {
        Ok(ix) => Ok(SysvarInstruction {
            program_id: ix.program_id.to_bytes(),
            account_keys: ix.accounts.iter().map(|m| m.pubkey.to_bytes()).collect(),
            data: ix.data,
        }),
        Err(ProgramError::UnsupportedSysvar) => Err(ProgramErrorKind::UnsupportedSysvar),
        Err(ProgramError::InvalidArgument) => Err(ProgramErrorKind::InvalidArgument),
        Err(e) => Err(ProgramErrorKind::Other(u64::from(e))),
    }
}

/// `Clock::get()` of `anchor_lang` (the clock sysvar), reduced to its
/// `unix_timestamp`. The time, and whether the sysvar can be read, depend on
/// the runtime: nothing is stated of the result.
#[verifier::external_body]
pub(crate) fn clock_unix_timestamp() -> (r: Result<i64, ProgramErrorKind>) {
    match anchor_lang::prelude::Clock::get() {
        Ok(clock) => Ok(clock.unix_timestamp),
        Err(ProgramError::UnsupportedSysvar) => Err(ProgramErrorKind::UnsupportedSysvar),
        Err(e) => Err(ProgramErrorKind::Other(u64::from(e))),
    }
}

} // verus!
