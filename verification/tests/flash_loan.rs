use std::str::FromStr;

use anchor_lang::solana_program::hash::hash;
use anchor_lang::solana_program::pubkey::Pubkey;
use anchor_lang::solana_program::sysvar::instructions::ID as INSTRUCTIONS_SYSVAR;

use anchor_programs::account::{Failure, MintAccount, ProgramErrorKind, SysvarAccount, TokenAccount};
use anchor_programs::cpi::CpiRequest;
use anchor_programs::flash_loan::borrow;
use anchor_programs::flash_loan::error::ErrorCode;
use anchor_programs::flash_loan::loan::{Loan, LoanBumps, BORROW_DISCRIMINATOR, ID, REPAY_DISCRIMINATOR, TREASURY_SEED};
use anchor_programs::flash_loan::repay;
use anchor_programs::runtime::INSTRUCTIONS_SYSVAR_ID;

const USER: [u8; 32] = [1; 32];
const MINT: [u8; 32] = [2; 32];
const USER_ATA: [u8; 32] = [3; 32];
const TREASURY: [u8; 32] = [4; 32];
const TREASURY_ATA: [u8; 32] = [5; 32];
const TOKEN_PROGRAM: [u8; 32] = [6; 32];
const OTHER_PROGRAM: [u8; 32] = [7; 32];

struct Ix {
    program_id: [u8; 32],
    accounts: Vec<[u8; 32]>,
    data: Vec<u8>,
}

/// Lays out the instructions sysvar: the count, the offsets, each
/// instruction, then the index of the running one.
fn sysvar_data(instructions: &[Ix], current: u16) -> Vec<u8> {
    let mut data = Vec::new();
    data.extend_from_slice(&(instructions.len() as u16).to_le_bytes());
    data.resize(2 + 2 * instructions.len(), 0);
    for (i, ix) in instructions.iter().enumerate() {
        let offset = (data.len() as u16).to_le_bytes();
        data[2 + 2 * i] = offset[0];
        data[3 + 2 * i] = offset[1];
        data.extend_from_slice(&(ix.accounts.len() as u16).to_le_bytes());
        for key in &ix.accounts {
            data.push(0);
            data.extend_from_slice(key);
        }
        data.extend_from_slice(&ix.program_id);
        data.extend_from_slice(&(ix.data.len() as u16).to_le_bytes());
        data.extend_from_slice(&ix.data);
    }
    data.extend_from_slice(&current.to_le_bytes());
    data
}

fn loan(data: Vec<u8>) -> Loan {
    Loan {
        user: USER,
        mint: MintAccount { key: MINT, decimals: 6 },
        user_ata: TokenAccount { key: USER_ATA, amount: 0 },
        treasury: TREASURY,
        treasury_ata: TokenAccount { key: TREASURY_ATA, amount: 1_000_000 },
        instruction: SysvarAccount { key: INSTRUCTIONS_SYSVAR.to_bytes(), data },
        token_program: TOKEN_PROGRAM,
    }
}

fn loan_accounts() -> Vec<[u8; 32]> {
    vec![USER, MINT, TREASURY, USER_ATA, TREASURY_ATA]
}

fn borrow_ix(amount: u64) -> Ix {
    let mut data = BORROW_DISCRIMINATOR.to_vec();
    data.extend_from_slice(&amount.to_le_bytes());
    Ix { program_id: ID, accounts: loan_accounts(), data }
}

fn repay_ix() -> Ix {
    Ix { program_id: ID, accounts: loan_accounts(), data: REPAY_DISCRIMINATOR.to_vec() }
}

fn loan_transfer(amount: u64, bump: u8) -> CpiRequest {
    CpiRequest::Transfer {
        token_program: TOKEN_PROGRAM,
        from: TREASURY_ATA,
        to: USER_ATA,
        authority: TREASURY,
        amount,
        signer_seeds: vec![b"treasury".to_vec(), vec![bump]],
    }
}

#[test]
fn constants_match_the_program() {
    assert_eq!(ID, Pubkey::from_str("9tTCXoatHRtam6hus1cWUsYsyp4CnyehQ1uAmv8NTYk").unwrap().to_bytes());
    assert_eq!(&BORROW_DISCRIMINATOR[..], &hash(b"global:borrow").to_bytes()[..8]);
    assert_eq!(&REPAY_DISCRIMINATOR[..], &hash(b"global:repay").to_bytes()[..8]);
    assert_eq!(&TREASURY_SEED, b"treasury");
}

#[test]
fn borrow_lends_when_the_transaction_ends_with_repay() {
    let accounts = loan(sysvar_data(&[borrow_ix(500), repay_ix()], 0));
    assert_eq!(accounts.borrow(254, 500), Some(Ok(loan_transfer(500, 254))));
    assert_eq!(borrow::handler(&accounts, LoanBumps { treasury: 254 }, 500), Some(Ok(vec![loan_transfer(500, 254)])));
}

#[test]
fn borrow_must_be_the_first_instruction() {
    let accounts = loan(sysvar_data(&[borrow_ix(500), repay_ix()], 1));
    assert_eq!(accounts.borrow(254, 500), Some(Err(Failure::Custom(ErrorCode::InvalidInstructions))));
}

#[test]
fn borrow_refuses_a_last_instruction_of_another_program() {
    let other = Ix { program_id: OTHER_PROGRAM, accounts: loan_accounts(), data: REPAY_DISCRIMINATOR.to_vec() };
    let accounts = loan(sysvar_data(&[borrow_ix(500), other], 0));
    assert_eq!(accounts.borrow(254, 500), Some(Err(Failure::Custom(ErrorCode::InvalidProgramInstruction))));
}

#[test]
fn borrow_refuses_a_last_instruction_that_is_not_repay() {
    let accounts = loan(sysvar_data(&[borrow_ix(500), borrow_ix(1)], 0));
    assert_eq!(accounts.borrow(254, 500), Some(Err(Failure::Custom(ErrorCode::InvalidProgramInstruction))));
}

#[test]
fn borrow_checks_the_repay_accounts() {
    let mut short = repay_ix();
    short.accounts.truncate(3);
    let accounts = loan(sysvar_data(&[borrow_ix(500), short], 0));
    assert_eq!(accounts.borrow(254, 500), Some(Err(Failure::Custom(ErrorCode::InvalidAccount))));

    let mut wrong_user = repay_ix();
    wrong_user.accounts[3] = [9; 32];
    let accounts = loan(sysvar_data(&[borrow_ix(500), wrong_user], 0));
    assert_eq!(accounts.borrow(254, 500), Some(Err(Failure::Custom(ErrorCode::InvalidBorrowerAta))));

    let mut four = repay_ix();
    four.accounts.truncate(4);
    let accounts = loan(sysvar_data(&[borrow_ix(500), four], 0));
    assert_eq!(accounts.borrow(254, 500), Some(Err(Failure::Custom(ErrorCode::InvalidAccount))));

    let mut wrong_treasury = repay_ix();
    wrong_treasury.accounts[4] = [9; 32];
    let accounts = loan(sysvar_data(&[borrow_ix(500), wrong_treasury], 0));
    assert_eq!(accounts.borrow(254, 500), Some(Err(Failure::Custom(ErrorCode::InvalidBorrowerAta))));
}

#[test]
fn borrow_aborts_on_short_data() {
    let mut tiny = repay_ix();
    tiny.data.truncate(4);
    let accounts = loan(sysvar_data(&[borrow_ix(500), tiny], 0));
    assert_eq!(accounts.borrow(254, 500), None);
    assert_eq!(loan(vec![1]).borrow(254, 500), None);
    assert_eq!(loan(vec![0, 0, 0, 0]).borrow(254, 500), None);
}

#[test]
fn borrow_refuses_another_sysvar() {
    let mut accounts = loan(sysvar_data(&[borrow_ix(500), repay_ix()], 0));
    accounts.instruction.key = [8; 32];
    assert_eq!(accounts.borrow(254, 500), Some(Err(Failure::Program(ProgramErrorKind::UnsupportedSysvar))));
    assert_eq!(accounts.repay(), Some(Err(Failure::Program(ProgramErrorKind::UnsupportedSysvar))));
}

#[test]
fn borrow_reports_a_count_beyond_the_instructions() {
    let mut data = sysvar_data(&[borrow_ix(500), repay_ix()], 0);
    data[0] = 3;
    assert_eq!(loan(data).borrow(254, 500), Some(Err(Failure::Program(ProgramErrorKind::InvalidArgument))));
}

#[test]
fn repay_aborts_on_an_anchor_encoded_borrow() {
    // The amount is read from bytes 9..17, one past the end of the
    // sixteen bytes of a borrow's data.
    let accounts = loan(sysvar_data(&[borrow_ix(500), repay_ix()], 1));
    assert_eq!(accounts.repay(), None);
    assert_eq!(repay::handler(&accounts), None);
}

#[test]
fn repay_pays_back_the_amount_read_at_offset_nine() {
    let mut first = borrow_ix(0);
    first.data.truncate(9);
    first.data.extend_from_slice(&700u64.to_le_bytes());
    let accounts = loan(sysvar_data(&[first, repay_ix()], 1));
    let repayment = CpiRequest::Transfer {
        token_program: TOKEN_PROGRAM,
        from: USER_ATA,
        to: TREASURY_ATA,
        authority: USER,
        amount: 700,
        signer_seeds: vec![],
    };
    assert_eq!(accounts.repay(), Some(Ok(repayment.clone())));
    assert_eq!(repay::handler(&accounts), Some(Ok(vec![repayment])));
}

#[test]
fn repay_requires_a_first_borrow_of_this_program() {
    let other = Ix { program_id: OTHER_PROGRAM, accounts: vec![], data: vec![] };
    let accounts = loan(sysvar_data(&[other, repay_ix()], 1));
    assert_eq!(accounts.repay(), Some(Err(Failure::Custom(ErrorCode::InvalidProgramInstruction))));
    let accounts = loan(sysvar_data(&[repay_ix(), repay_ix()], 1));
    assert_eq!(accounts.repay(), Some(Err(Failure::Custom(ErrorCode::InvalidInstructions))));
}

#[test]
fn instructions_sysvar_address_matches_the_runtime() {
    assert_eq!(INSTRUCTIONS_SYSVAR_ID, INSTRUCTIONS_SYSVAR.to_bytes());
}

#[test]
fn repay_returns_the_loan_when_the_amount_sits_at_offset_nine() {
    let mut first = borrow_ix(0);
    first.data.truncate(9);
    first.data.extend_from_slice(&500u64.to_le_bytes());
    let second = Ix { program_id: first.program_id, accounts: first.accounts.clone(), data: first.data.clone() };
    let lender = loan(sysvar_data(&[first, repay_ix()], 0));
    let payer = loan(sysvar_data(&[second, repay_ix()], 1));
    let lent = lender.borrow(254, 500).unwrap().unwrap();
    let repaid = payer.repay().unwrap().unwrap();
    match (lent, repaid) {
        (
            CpiRequest::Transfer { from: f1, to: t1, amount: a1, .. },
            CpiRequest::Transfer { from: f2, to: t2, amount: a2, .. },
        ) => {
            assert_eq!((f2, t2), (t1, f1));
            assert_eq!((a1, a2), (500, 500));
        }
        _ => panic!("both requests are token transfers"),
    }
}
