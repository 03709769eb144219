//! `create_user`: opens a user's stake record.
use vstd::prelude::*;

use crate::account::{Account, Failure, Key, MintAccount};
use crate::runtime::clock_unix_timestamp;
use crate::staking::error::ErrorCode;
use crate::staking::state::StakeDetails;

verus! {

/// The accounts of `create_user`.
#[derive(Clone, Copy, Debug, PartialEq, Eq)]
pub struct CreateUser {
    pub user: Key,
    pub mint: MintAccount,
    pub stake_details: Account<StakeDetails>,
    pub system_program: Key,
    pub token_program: Key,
}

/// The bump seeds found for the derived addresses of `create_user`.
#[derive(Clone, Copy, Debug, PartialEq, Eq)]
pub struct CreateUserBumps {
    pub stake_details: u8,
}

impl CreateUser {
    /// The accounts after `create_user` at `now`: an empty stake that starts
    /// accruing at `now` from a reward per token of zero.
    pub open spec fn created(self, bumps: CreateUserBumps, now: i64) -> CreateUser {
        CreateUser {
            stake_details: Account {
                data: StakeDetails {
                    staked_amount: 0,
                    holding_rewards: 0,
                    last_reward_per_token: 0,
                    last_updated: now,
                    bump: bumps.stake_details,
                },
                ..self.stake_details
            },
            ..self
        }
    }
}

/// `create_user` with the clock reading `current_time`.
pub fn handler_at(accounts: &mut CreateUser, bumps: CreateUserBumps, current_time: i64) -> (r:
    Result<(), Failure<ErrorCode>>)
    ensures
        r is Ok,
        *final(accounts) == old(accounts).created(bumps, current_time),
{
    accounts.stake_details.data.staked_amount = 0;
    accounts.stake_details.data.holding_rewards = 0;
    accounts.stake_details.data.last_updated = current_time;
    accounts.stake_details.data.last_reward_per_token = 0;
    accounts.stake_details.data.bump = bumps.stake_details;
    Ok(())
}

/// The `create_user` instruction: reads the clock and opens the stake at
/// that time. Where the clock cannot be read, the error is returned with
/// the amounts already zeroed.
pub fn handler(accounts: &mut CreateUser, bumps: CreateUserBumps) -> (r: Result<
    (),
    Failure<ErrorCode>,
>)
    ensures
        r is Ok ==> exists|now: i64| *final(accounts) == #[trigger] old(accounts).created(bumps, now),
        r matches Err(e) ==> e is Program && final(accounts).stake_details.data == (StakeDetails {
            staked_amount: 0,
            holding_rewards: 0,
            ..old(accounts).stake_details.data
        }) && *final(accounts) == (CreateUser {
            stake_details: final(accounts).stake_details,
            ..*old(accounts)
        }) && final(accounts).stake_details.key == old(accounts).stake_details.key
            && final(accounts).stake_details.lamports == old(accounts).stake_details.lamports,
{
    accounts.stake_details.data.staked_amount = 0;
    accounts.stake_details.data.holding_rewards = 0;
    let current_time = match clock_unix_timestamp() {
        Ok(t) => t,
        Err(e) => return Err(Failure::Program(e)),
    };
    let r = handler_at(accounts, bumps, current_time);
    assert(*final(accounts) == old(accounts).created(bumps, current_time));
    r
}

} // verus!
