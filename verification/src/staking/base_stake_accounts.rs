//! The accounts of `unstake`, and the two accrual steps on them.
use vstd::prelude::*;

use crate::account::{Account, Failure, Key, MintAccount, TokenAccount};
use crate::staking::error::ErrorCode;
use crate::staking::state::{accrue_pool, accrue_user, StakeDetails, StakePool};

verus! {

/// The accounts of `unstake`: the user, the user's and the pool treasury's
/// token accounts, the pool, the user's stake, the mint and the token program.
#[derive(Clone, Copy, Debug, PartialEq, Eq)]
pub struct BaseStakeAccounts {
    pub user: Key,
    pub user_ata: TokenAccount,
    pub treasury_ata: TokenAccount,
    pub stake_pool: Account<StakePool>,
    pub stake_details: Account<StakeDetails>,
    pub mint: MintAccount,
    pub token_program: Key,
}

impl BaseStakeAccounts {
    /// The accounts with the pool's data replaced by `pool`.
    pub open spec fn with_pool(self, pool: StakePool) -> BaseStakeAccounts {
        BaseStakeAccounts { stake_pool: Account { data: pool, ..self.stake_pool }, ..self }
    }

    /// The accounts with the user's stake replaced by `details`.
    pub open spec fn with_details(self, details: StakeDetails) -> BaseStakeAccounts {
        BaseStakeAccounts { stake_details: Account { data: details, ..self.stake_details }, ..self }
    }

    /// Accrues the pool's reward per token up to `current_time`.
    pub fn update_stake_pool(&mut self, current_time: i64) -> (r: Result<(), Failure<ErrorCode>>)
        requires
            old(self).stake_pool.data.can_accrue(current_time),
        ensures
            r is Ok,
            *final(self) == old(self).with_pool(old(self).stake_pool.data.accrued(current_time)),
    {
        accrue_pool(&mut self.stake_pool.data, current_time);
        Ok(())
    }

    /// Moves the rewards the user earned since the last accrual into
    /// `holding_rewards`, at the pool's current reward per token.
    pub fn update_user_stake(&mut self, current_time: i64) -> (r: Result<(), Failure<ErrorCode>>)
        requires
            old(self).stake_details.data.can_accrue(old(self).stake_pool.data.reward_per_token),
        ensures
            r is Ok,
            *final(self) == old(self).with_details(
                old(self).stake_details.data.accrued(
                    old(self).stake_pool.data.reward_per_token,
                    current_time,
                ),
            ),
    {
        let reward_per_token = self.stake_pool.data.reward_per_token;
        accrue_user(&mut self.stake_details.data, reward_per_token, current_time);
        Ok(())
    }
}

} // verus!
