//! `claim_rewards`: the user is paid what the stake earned.
use vstd::prelude::*;

use crate::account::{Account, Failure, Key, MintAccount, TokenAccount};
use crate::cpi::{outcome_view, requests_view, CpiRequest, CpiRequestView};
use crate::runtime::clock_unix_timestamp;
use crate::staking::error::ErrorCode;
use crate::staking::state::{
    accrue_pool, can_claim, claim_reward, details_after_claim, StakeDetails, StakePool,
    STAKE_POOL_SEED,
};

verus! {

/// The accounts of `claim_rewards`.
#[derive(Clone, Copy, Debug, PartialEq, Eq)]
pub struct ClaimRewards {
    pub user: Key,
    pub mint: MintAccount,
    pub user_ata: TokenAccount,
    pub treasury_ata: TokenAccount,
    pub stake_pool: Account<StakePool>,
    pub stake_details: Account<StakeDetails>,
    pub token_program: Key,
}

impl ClaimRewards {
    /// The claim at `now` runs without aborting.
    pub open spec fn can_claim(self, now: i64) -> bool {
        can_claim(self.stake_pool.data, self.stake_details.data, now)
    }

    /// The reward the claim at `now` pays.
    pub open spec fn reward(self, now: i64) -> u64 {
        claim_reward(self.stake_pool.data, self.stake_details.data, now)
    }

    /// The accounts after the claim at `now`: the pool accrued, the user's
    /// stake reset to the pool's reward per token.
    pub open spec fn claimed(self, now: i64) -> ClaimRewards {
        ClaimRewards {
            stake_pool: Account { data: self.stake_pool.data.accrued(now), ..self.stake_pool },
            stake_details: Account {
                data: details_after_claim(self.stake_pool.data, self.stake_details.data, now),
                ..self.stake_details
            },
            ..self
        }
    }

    /// The transfer of `reward` from the treasury to the user, signed by
    /// the pool.
    pub open spec fn reward_transfer(self, reward: u64) -> CpiRequestView {
        CpiRequestView::TransferChecked {
            token_program: self.token_program,
            from: self.treasury_ata.key,
            mint: self.mint.key,
            to: self.user_ata.key,
            authority: self.stake_pool.key,
            amount: reward,
            decimals: self.mint.decimals,
            signer_seeds: seq![STAKE_POOL_SEED@, seq![self.stake_pool.data.bump]],
        }
    }

    /// Decides [`ClaimRewards::can_claim`].
    pub fn check_claim(&self, now: i64) -> (r: bool)
        ensures
            r == self.can_claim(now),
    {
        if !self.stake_pool.data.check_accrue(now) {
            return false;
        }
        let mut pool = self.stake_pool.data;
        accrue_pool(&mut pool, now);
        let details = self.stake_details.data;
        if details.last_reward_per_token > pool.reward_per_token {
            return false;
        }
        let delta: u64 = pool.reward_per_token - details.last_reward_per_token;
        assert(delta * details.staked_amount <= u64::MAX * u64::MAX) by (nonlinear_arith)
            requires
                delta <= u64::MAX,
                details.staked_amount <= u64::MAX,
        ;
        delta as u128 * details.staked_amount as u128 <= u64::MAX as u128
    }

    /// The claim with the clock reading `current_time`: accrues the pool,
    /// computes the user's reward, and resets the user's stake.
    pub fn calculate_reward_and_update_state_at(&mut self, current_time: i64) -> (r: Result<
        u64,
        Failure<ErrorCode>,
    >)
        requires
            old(self).can_claim(current_time),
        ensures
            r == Ok::<u64, Failure<ErrorCode>>(old(self).reward(current_time)),
            *final(self) == old(self).claimed(current_time),
    {
        accrue_pool(&mut self.stake_pool.data, current_time);
        let user_reward = (self.stake_pool.data.reward_per_token
            - self.stake_details.data.last_reward_per_token) * self.stake_details.data.staked_amount;
        self.stake_details.data.last_updated = current_time;
        self.stake_details.data.holding_rewards = 0;
        self.stake_details.data.last_reward_per_token = self.stake_pool.data.reward_per_token;
        Ok(user_reward)
    }

    /// The claim with the clock reading `now`: `None` (the program aborts,
    /// the accounts unchanged) exactly where the arithmetic at `now`
    /// overflows or time goes back; otherwise the reward, with the accounts
    /// claimed.
    pub fn calculate_reward_and_update_state_with_time(&mut self, now: i64) -> (r: Option<
        Result<u64, Failure<ErrorCode>>,
    >)
        ensures
            r is None <==> !old(self).can_claim(now),
            r is None ==> *final(self) == *old(self),
            r is Some ==> r == Some(Ok::<u64, Failure<ErrorCode>>(old(self).reward(now)))
                && *final(self) == old(self).claimed(now),
    {
        if !self.check_claim(now) {
            return None;
        }
        Some(self.calculate_reward_and_update_state_at(now))
    }

    /// The claim: reads the clock and runs
    /// [`ClaimRewards::calculate_reward_and_update_state_with_time`] at the
    /// time read.
    pub fn calculate_reward_and_update_state(&mut self) -> (r: Option<Result<u64, Failure<ErrorCode>>>)
        ensures
            r matches Some(Err(Failure::Program(_))) ==> *final(self) == *old(self),
            !(r matches Some(Err(Failure::Program(_)))) ==> exists|now: i64|
                {
                    &&& (r is None <==> !#[trigger] old(self).can_claim(now))
                    &&& r is None ==> *final(self) == *old(self)
                    &&& r is Some ==> r == Some(Ok::<u64, Failure<ErrorCode>>(old(self).reward(now)))
                        && *final(self) == old(self).claimed(now)
                },
    {
        let current_time = match clock_unix_timestamp() {
            Ok(t) => t,
            Err(e) => return Some(Err(Failure::Program(e))),
        };
        self.calculate_reward_and_update_state_with_time(current_time)
    }

    /// The transfer of `reward` from the treasury to the user.
    pub fn transfer_reward(&self, reward: u64) -> (r: CpiRequest)
        ensures
            r@ == self.reward_transfer(reward),
    {
        let mut signer_seeds: Vec<Vec<u8>> = Vec::new();
        signer_seeds.push(vstd::slice::slice_to_vec(STAKE_POOL_SEED.as_slice()));
        signer_seeds.push(vec![self.stake_pool.data.bump]);
        assert(signer_seeds@[1]@ =~= seq![self.stake_pool.data.bump]);
        assert(crate::cpi::seeds_view(signer_seeds@) =~= seq![
            STAKE_POOL_SEED@,
            seq![self.stake_pool.data.bump],
        ]);
        CpiRequest::TransferChecked {
            token_program: self.token_program,
            from: self.treasury_ata.key,
            mint: self.mint.key,
            to: self.user_ata.key,
            authority: self.stake_pool.key,
            amount: reward,
            decimals: self.mint.decimals,
            signer_seeds,
        }
    }
}

impl ClaimRewards {
    /// What the `claim_rewards` instruction ends with when the clock reads
    /// `now`: `None` where the claim aborts, and otherwise the transfer of
    /// the reward.
    pub open spec fn claim_outcome(self, now: i64) -> Option<
        Result<Seq<CpiRequestView>, Failure<ErrorCode>>,
    > {
        if self.can_claim(now) {
            Some(Ok(seq![self.claimed(now).reward_transfer(self.reward(now))]))
        } else {
            None
        }
    }

    /// The accounts after the `claim_rewards` instruction when the clock
    /// reads `now`: claimed unless the claim aborts.
    pub open spec fn claim_state(self, now: i64) -> ClaimRewards {
        if self.can_claim(now) {
            self.claimed(now)
        } else {
            self
        }
    }
}

/// The `claim_rewards` instruction with the clock reading `current_time`:
/// updates the accounts, then asks for the transfer of the reward; see
/// [`ClaimRewards::claim_outcome`].
pub fn handler_with_time(accounts: &mut ClaimRewards, current_time: i64) -> (r: Option<
    Result<Vec<CpiRequest>, Failure<ErrorCode>>,
>)
    ensures
        outcome_view(r) == old(accounts).claim_outcome(current_time),
        *final(accounts) == old(accounts).claim_state(current_time),
{
    match accounts.calculate_reward_and_update_state_with_time(current_time) {
        None => None,
        Some(Err(e)) => Some(Err(e)),
        Some(Ok(reward)) => {
            let transfer = accounts.transfer_reward(reward);
            let v = vec![transfer];
            assert(requests_view(v@) =~= seq![final(accounts).reward_transfer(reward)]);
            Some(Ok(v))
        },
    }
}

/// The `claim_rewards` instruction: reads the clock and runs
/// [`handler_with_time`] at the time read.
pub fn handler(accounts: &mut ClaimRewards) -> (r: Option<Result<Vec<CpiRequest>, Failure<ErrorCode>>>)
    ensures
        r matches Some(Err(Failure::Program(_))) ==> *final(accounts) == *old(accounts),
        !(r matches Some(Err(Failure::Program(_)))) ==> exists|now: i64|
            outcome_view(r) == old(accounts).claim_outcome(now) && *final(accounts)
                == #[trigger] old(accounts).claim_state(now),
{
    let current_time = match clock_unix_timestamp() {
        Ok(t) => t,
        Err(e) => return Some(Err(Failure::Program(e))),
    };
    handler_with_time(accounts, current_time)
}

} // verus!
