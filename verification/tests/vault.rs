use anchor_programs::account::{Account, Failure, LamportAccount, ProgramErrorKind};
use anchor_programs::cpi::CpiRequest;
use anchor_programs::vault::close_vault::{self, CloseVault};
use anchor_programs::vault::create_vault::{self, CreateVault, CreateVaultBumps};
use anchor_programs::vault::error::ErrorCode;
use anchor_programs::vault::state::{Vault, VAULT_SEED};
use anchor_programs::vault::submit_lamports::{self, SubmitLamports};
use anchor_programs::vault::withdraw_lamports::{self, WithdrawLamports};

fn signer(lamports: u64) -> LamportAccount {
    LamportAccount { key: [1; 32], lamports }
}

fn vault(lamports: u64) -> Account<Vault> {
    Account { key: [2; 32], lamports, data: Vault { vault_bump: 254 } }
}

#[test]
fn vault_seed_is_the_word_vault() {
    assert_eq!(&VAULT_SEED, b"vault");
}

#[test]
fn create_vault_records_the_bump() {
    let mut accounts = CreateVault {
        signer: signer(10),
        vault: Account { key: [2; 32], lamports: 5, data: Vault { vault_bump: 0 } },
        system_program: [0; 32],
    };
    let before = accounts;
    assert_eq!(create_vault::handler(&mut accounts, CreateVaultBumps { vault: 251 }), Ok(()));
    assert_eq!(accounts.vault.data.vault_bump, 251);
    assert_eq!(accounts.signer, before.signer);
    assert_eq!(accounts.vault.lamports, 5);
}

#[test]
fn submit_lamports_asks_for_a_system_transfer() {
    let accounts = SubmitLamports { signer: signer(1000), vault: vault(0), system_program: [0; 32] };
    let requests = submit_lamports::handler(&accounts, 300);
    assert_eq!(
        requests,
        vec![CpiRequest::SystemTransfer { system_program: [0; 32], from: [1; 32], to: [2; 32], amount: 300 }]
    );
}

#[test]
fn withdraw_moves_lamports_to_the_signer() {
    let mut accounts = WithdrawLamports { signer: signer(10), vault: vault(100), system_program: [0; 32] };
    assert_eq!(withdraw_lamports::handler(&mut accounts, 40), Ok(()));
    assert_eq!(accounts.vault.lamports, 60);
    assert_eq!(accounts.signer.lamports, 50);
}

#[test]
fn withdraw_of_more_than_the_balance_is_refused() {
    let mut accounts = WithdrawLamports { signer: signer(10), vault: vault(100), system_program: [0; 32] };
    let before = accounts;
    assert_eq!(
        withdraw_lamports::handler(&mut accounts, 101),
        Err(Failure::Custom(ErrorCode::InvalidLamportsRequested))
    );
    assert_eq!(accounts, before);
    assert_eq!(withdraw_lamports::handler(&mut accounts, 100), Ok(()));
    assert_eq!(accounts.vault.lamports, 0);
    assert_eq!(accounts.signer.lamports, 110);
    assert_eq!(
        withdraw_lamports::handler(&mut accounts, 1),
        Err(Failure::Custom(ErrorCode::InvalidLamportsRequested))
    );
    assert_eq!(withdraw_lamports::handler(&mut accounts, 0), Ok(()));
    assert_eq!(accounts.vault.lamports, 0);
    assert_eq!(accounts.signer.lamports, 110);
}

#[test]
fn withdraw_after_submit_restores_both_balances() {
    let deposit = SubmitLamports { signer: signer(500), vault: vault(20), system_program: [0; 32] };
    let requests = submit_lamports::handler(&deposit, 300);
    let amount = match requests.as_slice() {
        [CpiRequest::SystemTransfer { from, to, amount, .. }] => {
            assert_eq!(*from, deposit.signer.key);
            assert_eq!(*to, deposit.vault.key);
            *amount
        }
        _ => panic!("expected one system transfer"),
    };
    let mut accounts = WithdrawLamports {
        signer: LamportAccount { lamports: deposit.signer.lamports - amount, ..deposit.signer },
        vault: Account { lamports: deposit.vault.lamports + amount, ..deposit.vault },
        system_program: [0; 32],
    };
    assert_eq!(withdraw_lamports::handler(&mut accounts, 300), Ok(()));
    assert_eq!(accounts.signer, deposit.signer);
    assert_eq!(accounts.vault, deposit.vault);
}

#[test]
fn withdraw_reports_an_overflowing_signer_balance() {
    let mut accounts = WithdrawLamports { signer: signer(u64::MAX - 5), vault: vault(100), system_program: [0; 32] };
    assert_eq!(
        withdraw_lamports::handler(&mut accounts, 6),
        Err(Failure::Program(ProgramErrorKind::ArithmeticOverflow))
    );
    assert_eq!(accounts.vault.lamports, 94);
    assert_eq!(accounts.signer.lamports, u64::MAX - 5);
}

#[test]
fn close_vault_empties_the_vault() {
    let mut accounts = CloseVault { signer: signer(7), vault: vault(93) };
    assert_eq!(close_vault::handler(&mut accounts), Ok(()));
    assert_eq!(accounts.vault.lamports, 0);
    assert_eq!(accounts.signer.lamports, 100);
    assert_eq!(accounts.vault.data.vault_bump, 254);
}

#[test]
fn close_vault_of_an_empty_vault_changes_nothing() {
    let mut accounts = CloseVault { signer: signer(7), vault: vault(0) };
    assert_eq!(close_vault::handler(&mut accounts), Ok(()));
    assert_eq!(accounts, CloseVault { signer: signer(7), vault: vault(0) });
}

#[test]
fn close_vault_reports_an_overflowing_signer_balance() {
    let mut accounts = CloseVault { signer: signer(u64::MAX), vault: vault(1) };
    assert_eq!(close_vault::handler(&mut accounts), Err(Failure::Program(ProgramErrorKind::ArithmeticOverflow)));
    assert_eq!(accounts.vault.lamports, 0);
    assert_eq!(accounts.signer.lamports, u64::MAX);
}

#[test]
fn lamport_totals_are_kept_by_withdraw_and_close() {
    let mut w = WithdrawLamports { signer: signer(123), vault: vault(1000), system_program: [0; 32] };
    withdraw_lamports::handler(&mut w, 456).unwrap();
    assert_eq!(w.signer.lamports + w.vault.lamports, 1123);
    let mut c = CloseVault { signer: w.signer, vault: w.vault };
    close_vault::handler(&mut c).unwrap();
    assert_eq!(c.signer.lamports, 1123);
    assert_eq!(c.vault.lamports, 0);
}
