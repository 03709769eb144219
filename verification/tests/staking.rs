use anchor_programs::account::{Account, Failure, MintAccount, ProgramErrorKind, TokenAccount};
use anchor_programs::cpi::CpiRequest;
use anchor_programs::staking::base_stake_accounts::BaseStakeAccounts;
use anchor_programs::staking::claim_rewards::{self, ClaimRewards};
use anchor_programs::staking::create_user::{self, CreateUser, CreateUserBumps};
use anchor_programs::staking::error::ErrorCode;
use anchor_programs::staking::initialize::{self, Initialize, InitializeBumps};
use anchor_programs::staking::initialize_pool::{self, InitializePool};
use anchor_programs::staking::stake::{self, Stake};
use anchor_programs::staking::state::{AdminDetails, StakeDetails, StakePool, STAKE_POOL_SEED};
use anchor_programs::staking::unstake;

const USER: [u8; 32] = [1; 32];
const MINT: [u8; 32] = [2; 32];
const POOL: [u8; 32] = [3; 32];
const USER_ATA: [u8; 32] = [4; 32];
const TREASURY_ATA: [u8; 32] = [5; 32];
const TOKEN_PROGRAM: [u8; 32] = [6; 32];

fn pool() -> StakePool {
    StakePool { total_pool: 100, reward_rate: 10, reward_per_token: 5, last_updated: 1000, bump: 250 }
}

fn details() -> StakeDetails {
    StakeDetails { staked_amount: 20, holding_rewards: 4, last_reward_per_token: 5, last_updated: 900, bump: 249 }
}

fn base(pool: StakePool, details: StakeDetails) -> BaseStakeAccounts {
    BaseStakeAccounts {
        user: USER,
        user_ata: TokenAccount { key: USER_ATA, amount: 0 },
        treasury_ata: TokenAccount { key: TREASURY_ATA, amount: 0 },
        stake_pool: Account { key: POOL, lamports: 1, data: pool },
        stake_details: Account { key: [7; 32], lamports: 1, data: details },
        mint: MintAccount { key: MINT, decimals: 6 },
        token_program: TOKEN_PROGRAM,
    }
}

fn stake_accounts(pool: StakePool, details: StakeDetails) -> Stake {
    let b = base(pool, details);
    Stake {
        user: b.user,
        user_ata: b.user_ata,
        treasury_ata: b.treasury_ata,
        stake_pool: b.stake_pool,
        stake_details: b.stake_details,
        mint: b.mint,
        token_program: b.token_program,
    }
}

fn claim_accounts(pool: StakePool, details: StakeDetails) -> ClaimRewards {
    let b = base(pool, details);
    ClaimRewards {
        user: b.user,
        mint: b.mint,
        user_ata: b.user_ata,
        treasury_ata: b.treasury_ata,
        stake_pool: b.stake_pool,
        stake_details: b.stake_details,
        token_program: b.token_program,
    }
}

#[test]
fn stake_pool_seed_is_the_word_stake_pool() {
    assert_eq!(&STAKE_POOL_SEED, b"stake_pool");
}

#[test]
fn pool_accrual_adds_rate_times_elapsed_over_total() {
    let mut b = base(pool(), details());
    assert!(b.stake_pool.data.check_accrue(1030));
    assert_eq!(b.update_stake_pool(1030), Ok(()));
    // 10 * 30 / 100 = 3
    assert_eq!(b.stake_pool.data.reward_per_token, 8);
    assert_eq!(b.stake_pool.data.last_updated, 1030);
    assert_eq!(b.stake_pool.data.total_pool, 100);
}

#[test]
fn pool_accrual_rounds_down() {
    let mut p = pool();
    p.total_pool = 7;
    let mut b = base(p, details());
    b.update_stake_pool(1001).unwrap();
    // 10 * 1 / 7 = 1
    assert_eq!(b.stake_pool.data.reward_per_token, 6);
}

#[test]
fn an_empty_pool_accrues_nothing() {
    let mut p = pool();
    p.total_pool = 0;
    let mut b = base(p, details());
    b.update_stake_pool(5000).unwrap();
    assert_eq!(b.stake_pool.data.reward_per_token, 5);
    assert_eq!(b.stake_pool.data.last_updated, 5000);
}

#[test]
fn accrual_checks_detect_aborting_inputs() {
    assert!(!pool().check_accrue(999));
    let mut p = pool();
    p.last_updated = i64::MIN;
    assert!(!p.check_accrue(1));
    let mut p = pool();
    p.reward_rate = u64::MAX;
    assert!(!p.check_accrue(1002));
    let mut d = details();
    d.last_reward_per_token = 9;
    assert!(!d.check_accrue(8));
    assert!(details().check_accrue(8));
    let mut d = details();
    d.holding_rewards = u64::MAX - 59;
    assert!(!d.check_accrue(8));
    d.holding_rewards = u64::MAX - 60;
    assert!(d.check_accrue(8));
}

#[test]
fn user_accrual_moves_earnings_into_holding() {
    let mut b = base(pool(), details());
    b.update_stake_pool(1030).unwrap();
    assert_eq!(b.update_user_stake(1030), Ok(()));
    // (8 - 5) * 20 = 60
    assert_eq!(b.stake_details.data.holding_rewards, 64);
    assert_eq!(b.stake_details.data.last_reward_per_token, 8);
    assert_eq!(b.stake_details.data.last_updated, 1030);
}

#[test]
fn stake_adds_to_pool_and_user() {
    let mut s = stake_accounts(pool(), details());
    assert!(s.check_update(50, 1030));
    assert_eq!(s.update_states_at(50, 1030), Ok(()));
    assert_eq!(s.stake_pool.data.total_pool, 150);
    assert_eq!(s.stake_pool.data.reward_per_token, 8);
    assert_eq!(s.stake_details.data.staked_amount, 70);
    assert_eq!(s.stake_details.data.holding_rewards, 64);
    assert_eq!(s.stake_details.data.last_reward_per_token, 8);
    assert_eq!(s.stake_details.data.last_updated, 1030);
}

#[test]
fn stake_funds_refuses_more_than_the_user_holds() {
    let mut s = stake_accounts(pool(), details());
    s.user_ata.amount = 100;
    assert_eq!(s.stake_funds(101), Err(Failure::Custom(ErrorCode::InvalidTokenBalance)));
    assert_eq!(
        s.stake_funds(100),
        Ok(CpiRequest::TransferChecked {
            token_program: TOKEN_PROGRAM,
            from: USER_ATA,
            mint: MINT,
            to: TREASURY_ATA,
            authority: USER,
            amount: 100,
            decimals: 6,
            signer_seeds: vec![],
        })
    );
    assert_eq!(
        s.stake_funds(40),
        Ok(CpiRequest::TransferChecked {
            token_program: TOKEN_PROGRAM,
            from: USER_ATA,
            mint: MINT,
            to: TREASURY_ATA,
            authority: USER,
            amount: 40,
            decimals: 6,
            signer_seeds: vec![],
        })
    );
    s.user_ata.amount = 0;
    assert!(s.stake_funds(0).is_ok());
    assert_eq!(s.stake_funds(1), Err(Failure::Custom(ErrorCode::InvalidTokenBalance)));
}

#[test]
fn unstake_takes_from_pool_and_user() {
    let mut b = base(pool(), details());
    assert_eq!(b.unstake_at(15, 1030), Ok(()));
    assert_eq!(b.stake_pool.data.total_pool, 85);
    assert_eq!(b.stake_pool.data.reward_per_token, 8);
    assert_eq!(b.stake_details.data.staked_amount, 5);
    assert_eq!(b.stake_details.data.holding_rewards, 64);
}

#[test]
fn unstake_of_more_than_staked_is_refused() {
    let mut b = base(pool(), details());
    let before = b;
    assert_eq!(b.unstake_at(21, 1030), Err(Failure::Custom(ErrorCode::InvalidUnstake)));
    assert_eq!(b, before);
    assert_eq!(b.unstake(21), Some(Err(Failure::Custom(ErrorCode::InvalidUnstake))));
    assert_eq!(unstake::handler(&mut b, 21), Some(Err(Failure::Custom(ErrorCode::InvalidUnstake))));
    assert_eq!(b, before);
}

#[test]
fn unstake_transfer_is_signed_by_the_pool() {
    let b = base(pool(), details());
    assert_eq!(
        b.transfer_unstaked_token(15),
        CpiRequest::TransferChecked {
            token_program: TOKEN_PROGRAM,
            from: TREASURY_ATA,
            mint: MINT,
            to: USER_ATA,
            authority: POOL,
            amount: 15,
            decimals: 6,
            signer_seeds: vec![b"stake_pool".to_vec(), MINT.to_vec(), vec![250]],
        }
    );
}

#[test]
fn unstake_after_stake_at_the_same_time_is_a_bare_accrual() {
    let mut s = stake_accounts(pool(), details());
    s.update_states_at(50, 1030).unwrap();
    let mut b = base(s.stake_pool.data, s.stake_details.data);
    b.unstake_at(50, 1030).unwrap();
    let mut accrued = base(pool(), details());
    accrued.update_stake_pool(1030).unwrap();
    accrued.update_user_stake(1030).unwrap();
    assert_eq!(b, accrued);
}

#[test]
fn claim_pays_the_earnings_and_drops_held_rewards() {
    let mut c = claim_accounts(pool(), details());
    assert!(c.check_claim(1030));
    assert_eq!(c.calculate_reward_and_update_state_at(1030), Ok(60));
    assert_eq!(c.stake_pool.data.reward_per_token, 8);
    assert_eq!(c.stake_details.data.holding_rewards, 0);
    assert_eq!(c.stake_details.data.last_reward_per_token, 8);
    assert_eq!(c.stake_details.data.last_updated, 1030);
    assert_eq!(c.calculate_reward_and_update_state_at(1030), Ok(0));
}

#[test]
fn claim_transfer_is_signed_by_the_pool() {
    let c = claim_accounts(pool(), details());
    assert_eq!(
        c.transfer_reward(60),
        CpiRequest::TransferChecked {
            token_program: TOKEN_PROGRAM,
            from: TREASURY_ATA,
            mint: MINT,
            to: USER_ATA,
            authority: POOL,
            amount: 60,
            decimals: 6,
            signer_seeds: vec![b"stake_pool".to_vec(), vec![250]],
        }
    );
}

#[test]
fn instructions_that_read_the_clock_report_its_error() {
    let mut b = base(pool(), details());
    let before = b;
    assert_eq!(b.unstake(5), Some(Err(Failure::Program(ProgramErrorKind::UnsupportedSysvar))));
    assert_eq!(b, before);
    let mut s = stake_accounts(pool(), details());
    let s_before = s;
    assert_eq!(stake::handler(&mut s, 5, 0), Some(Err(Failure::Program(ProgramErrorKind::UnsupportedSysvar))));
    assert_eq!(s, s_before);
    let mut c = claim_accounts(pool(), details());
    assert_eq!(claim_rewards::handler(&mut c), Some(Err(Failure::Program(ProgramErrorKind::UnsupportedSysvar))));
}

#[test]
fn create_user_opens_an_empty_stake() {
    let mut accounts = CreateUser {
        user: USER,
        mint: MintAccount { key: MINT, decimals: 6 },
        stake_details: Account { key: [7; 32], lamports: 1, data: details() },
        system_program: [0; 32],
        token_program: TOKEN_PROGRAM,
    };
    assert_eq!(create_user::handler_at(&mut accounts, CreateUserBumps { stake_details: 200 }, 4242), Ok(()));
    assert_eq!(
        accounts.stake_details.data,
        StakeDetails { staked_amount: 0, holding_rewards: 0, last_reward_per_token: 0, last_updated: 4242, bump: 200 }
    );
}

#[test]
fn create_user_without_a_clock_stops_after_zeroing_the_amounts() {
    let mut accounts = CreateUser {
        user: USER,
        mint: MintAccount { key: MINT, decimals: 6 },
        stake_details: Account { key: [7; 32], lamports: 1, data: details() },
        system_program: [0; 32],
        token_program: TOKEN_PROGRAM,
    };
    assert_eq!(
        create_user::handler(&mut accounts, CreateUserBumps { stake_details: 200 }),
        Err(Failure::Program(ProgramErrorKind::UnsupportedSysvar))
    );
    assert_eq!(
        accounts.stake_details.data,
        StakeDetails { staked_amount: 0, holding_rewards: 0, ..details() }
    );
}

#[test]
fn initialize_records_the_admin() {
    let mut accounts = Initialize {
        admin: USER,
        admin_details: Account { key: [9; 32], lamports: 1, data: AdminDetails { admin: [0; 32], bump: 0 } },
        system_program: [0; 32],
    };
    assert_eq!(initialize::handler(&mut accounts, InitializeBumps { admin_details: 77 }), Ok(()));
    assert_eq!(accounts.admin_details.data, AdminDetails { admin: USER, bump: 77 });
}

#[test]
fn initialize_pool_opens_an_empty_pool_and_funds_it() {
    let mut accounts = InitializePool {
        admin: USER,
        admin_ata: TokenAccount { key: USER_ATA, amount: 1000 },
        treasury_ata: TokenAccount { key: TREASURY_ATA, amount: 0 },
        token_mint: MintAccount { key: MINT, decimals: 6 },
        stake_pool: Account { key: POOL, lamports: 1, data: pool() },
        admin_details: Account { key: [9; 32], lamports: 1, data: AdminDetails { admin: USER, bump: 77 } },
        token_program: TOKEN_PROGRAM,
        system_program: [0; 32],
        associated_token_program: [10; 32],
    };
    assert_eq!(accounts.initialize_at(12, 3000), Ok(()));
    assert_eq!(
        accounts.stake_pool.data,
        StakePool { total_pool: 0, reward_rate: 12, reward_per_token: 0, last_updated: 3000, bump: 250 }
    );
    assert_eq!(
        accounts.transfer_to_treasury(400),
        CpiRequest::TransferChecked {
            token_program: TOKEN_PROGRAM,
            from: USER_ATA,
            mint: MINT,
            to: TREASURY_ATA,
            authority: USER,
            amount: 400,
            decimals: 6,
            signer_seeds: vec![],
        }
    );
    assert_eq!(
        initialize_pool::handler(&mut accounts, 15, 400),
        Err(Failure::Program(ProgramErrorKind::UnsupportedSysvar))
    );
    assert_eq!(accounts.stake_pool.data.reward_rate, 15);
    assert_eq!(accounts.stake_pool.data.last_updated, 3000);
}

#[test]
fn stake_with_time_aborts_exactly_where_the_arithmetic_would() {
    let mut s = stake_accounts(pool(), details());
    let before = s;
    assert_eq!(s.update_states_with_time(50, 999), None);
    assert_eq!(s, before);
    assert_eq!(stake::handler_with_time(&mut s, 50, 0, 999), None);
    assert_eq!(s, before);
    assert_eq!(s.update_states_with_time(50, 1030), Some(Ok(())));
    assert_eq!(s.stake_pool.data.total_pool, 150);
    assert_eq!(s.stake_details.data.staked_amount, 70);
}

#[test]
fn stake_handler_with_time_updates_then_asks_for_the_transfer() {
    let mut s = stake_accounts(pool(), details());
    assert_eq!(
        stake::handler_with_time(&mut s, 50, 0, 1030),
        Some(Ok(vec![CpiRequest::TransferChecked {
            token_program: TOKEN_PROGRAM,
            from: USER_ATA,
            mint: MINT,
            to: TREASURY_ATA,
            authority: USER,
            amount: 0,
            decimals: 6,
            signer_seeds: vec![],
        }]))
    );
    assert_eq!(s.stake_pool.data.total_pool, 150);
    let mut s = stake_accounts(pool(), details());
    assert_eq!(stake::handler_with_time(&mut s, 50, 3, 1030), Some(Err(Failure::Custom(ErrorCode::InvalidTokenBalance))));
    assert_eq!(s.stake_details.data.staked_amount, 70);
    let mut s = stake_accounts(pool(), details());
    s.user_ata.amount = 50;
    assert_eq!(
        stake::handler_with_time(&mut s, 50, 50, 1030),
        Some(Ok(vec![CpiRequest::TransferChecked {
            token_program: TOKEN_PROGRAM,
            from: USER_ATA,
            mint: MINT,
            to: TREASURY_ATA,
            authority: USER,
            amount: 50,
            decimals: 6,
            signer_seeds: vec![],
        }]))
    );
    assert_eq!(s.stake_pool.data.total_pool, 150);
}

#[test]
fn claim_with_time_pays_or_aborts() {
    let mut c = claim_accounts(pool(), details());
    let before = c;
    assert_eq!(c.calculate_reward_and_update_state_with_time(999), None);
    assert_eq!(c, before);
    assert_eq!(c.calculate_reward_and_update_state_with_time(1030), Some(Ok(60)));
    assert_eq!(c.stake_details.data.holding_rewards, 0);
    let mut c = claim_accounts(pool(), details());
    let requests = claim_rewards::handler_with_time(&mut c, 1030).unwrap().unwrap();
    assert_eq!(requests, vec![c.transfer_reward(60)]);
}

#[test]
fn unstake_with_time_refuses_aborts_or_updates() {
    let mut b = base(pool(), details());
    let before = b;
    assert_eq!(b.unstake_with_time(21, 1030), Some(Err(Failure::Custom(ErrorCode::InvalidUnstake))));
    assert_eq!(b.unstake_with_time(10, 999), None);
    assert_eq!(b, before);
    assert_eq!(unstake::handler_with_time(&mut b, 10, 999), None);
    assert_eq!(b, before);
    let requests = unstake::handler_with_time(&mut b, 10, 1030).unwrap().unwrap();
    assert_eq!(requests, vec![b.transfer_unstaked_token(10)]);
    assert_eq!(b.stake_pool.data.total_pool, 90);
    assert_eq!(b.stake_details.data.staked_amount, 10);
}
