//! The staking program's accounts and the reward arithmetic over them.
use vstd::prelude::*;

use crate::account::Key;

verus! {

/// The first seed of a pool's derived address: `b"stake_pool"`.
pub const STAKE_POOL_SEED: [u8; 10] = [115, 116, 97, 107, 101, 95, 112, 111, 111, 108];

/// The administrator registered by `initialize`.
#[derive(Clone, Copy, Debug, PartialEq, Eq)]
pub struct AdminDetails {
    pub admin: Key,
    pub bump: u8,
}

/// A pool: the total staked, the reward rate (reward units per second,
/// shared by the whole pool), the accumulated reward per staked token and the
/// time of the last accrual.
#[derive(Clone, Copy, Debug, PartialEq, Eq)]
pub struct StakePool {
    pub total_pool: u64,
    pub reward_rate: u64,
    pub reward_per_token: u64,
    pub last_updated: i64,
    pub bump: u8,
}

/// One user's stake: the amount staked, rewards held back, the pool's reward
/// per token at the user's last accrual, and its time.
#[derive(Clone, Copy, Debug, PartialEq, Eq)]
pub struct StakeDetails {
    pub staked_amount: u64,
    pub holding_rewards: u64,
    pub last_reward_per_token: u64,
    pub last_updated: i64,
    pub bump: u8,
}

impl StakePool {
    /// Seconds since the last accrual.
    pub open spec fn elapsed(self, now: i64) -> int {
        now - self.last_updated
    }

    /// The reward per token that accrues between the last update and `now`:
    /// `reward_rate * elapsed / total_pool`, rounded down, and nothing while
    /// the pool is empty.
    pub open spec fn reward_increment(self, now: i64) -> int {
        if self.total_pool > 0 {
            (self.reward_rate * self.elapsed(now)) / (self.total_pool as int)
        } else {
            0
        }
    }

    /// The accrual at `now` runs without aborting: time does not go back,
    /// and neither the product nor the new reward per token overflow.
    pub open spec fn can_accrue(self, now: i64) -> bool {
        &&& 0 <= self.elapsed(now) <= i64::MAX
        &&& self.total_pool > 0 ==> self.reward_rate * self.elapsed(now) <= u64::MAX
        &&& self.reward_per_token + self.reward_increment(now) <= u64::MAX
    }

    /// The pool after the accrual at `now`.
    pub open spec fn accrued(self, now: i64) -> StakePool {
        StakePool {
            reward_per_token: (self.reward_per_token + self.reward_increment(now)) as u64,
            last_updated: now,
            ..self
        }
    }
}

impl StakeDetails {
    /// The rewards earned since the user's last accrual when the pool's
    /// reward per token is `reward_per_token`.
    pub open spec fn earned(self, reward_per_token: u64) -> int {
        (reward_per_token - self.last_reward_per_token) * self.staked_amount
    }

    /// The user's accrual against `reward_per_token` runs without aborting.
    pub open spec fn can_accrue(self, reward_per_token: u64) -> bool {
        &&& self.last_reward_per_token <= reward_per_token
        &&& self.earned(reward_per_token) <= u64::MAX
        &&& self.holding_rewards + self.earned(reward_per_token) <= u64::MAX
    }

    /// The user's stake after the accrual against `reward_per_token` at `now`.
    pub open spec fn accrued(self, reward_per_token: u64, now: i64) -> StakeDetails {
        StakeDetails {
            holding_rewards: (self.holding_rewards + self.earned(reward_per_token)) as u64,
            last_reward_per_token: reward_per_token,
            last_updated: now,
            ..self
        }
    }
}

impl StakePool {
    /// Decides [`StakePool::can_accrue`] without overflowing.
    pub fn check_accrue(&self, now: i64) -> (r: bool)
        ensures
            r == self.can_accrue(now),
    {
        let elapsed: i128 = now as i128 - self.last_updated as i128;
        if elapsed < 0 || elapsed > i64::MAX as i128 {
            return false;
        }
        let e: u64 = elapsed as u64;
        if self.total_pool > 0 {
            assert(self.reward_rate * e <= u64::MAX * u64::MAX) by (nonlinear_arith)
                requires
                    self.reward_rate <= u64::MAX,
                    e <= u64::MAX,
            ;
            let product: u128 = self.reward_rate as u128 * e as u128;
            if product > u64::MAX as u128 {
                return false;
            }
            let increment: u64 = (product as u64) / self.total_pool;
            self.reward_per_token <= u64::MAX - increment
        } else {
            true
        }
    }
}

impl StakeDetails {
    /// Decides [`StakeDetails::can_accrue`] without overflowing.
    pub fn check_accrue(&self, reward_per_token: u64) -> (r: bool)
        ensures
            r == self.can_accrue(reward_per_token),
    {
        if self.last_reward_per_token > reward_per_token {
            return false;
        }
        let delta: u64 = reward_per_token - self.last_reward_per_token;
        assert(delta * self.staked_amount <= u64::MAX * u64::MAX) by (nonlinear_arith)
            requires
                delta <= u64::MAX,
                self.staked_amount <= u64::MAX,
        ;
        let product: u128 = delta as u128 * self.staked_amount as u128;
        if product > u64::MAX as u128 {
            return false;
        }
        self.holding_rewards <= u64::MAX - (product as u64)
    }
}

/// `stake` of `added` at `now` runs without aborting: both accruals run and
/// neither the pool's total nor the user's stake overflow.
pub open spec fn can_stake(pool: StakePool, details: StakeDetails, added: u64, now: i64) -> bool {
    &&& pool.can_accrue(now)
    &&& details.can_accrue(pool.accrued(now).reward_per_token)
    &&& pool.total_pool + added <= u64::MAX
    &&& details.staked_amount + added <= u64::MAX
}

/// The pool after `stake` of `added` at `now`.
pub open spec fn pool_after_stake(pool: StakePool, added: u64, now: i64) -> StakePool {
    let p = pool.accrued(now);
    StakePool { total_pool: (p.total_pool + added) as u64, ..p }
}

/// The user's stake after `stake` of `added` at `now`.
pub open spec fn details_after_stake(
    pool: StakePool,
    details: StakeDetails,
    added: u64,
    now: i64,
) -> StakeDetails {
    let d = details.accrued(pool.accrued(now).reward_per_token, now);
    StakeDetails { staked_amount: (d.staked_amount + added) as u64, ..d }
}

/// `unstake` of `taken` at `now`, once the stake holds `taken`, runs without
/// aborting: both accruals run and the pool's total holds `taken`.
pub open spec fn can_unstake(pool: StakePool, details: StakeDetails, taken: u64, now: i64) -> bool {
    &&& pool.can_accrue(now)
    &&& details.can_accrue(pool.accrued(now).reward_per_token)
    &&& taken <= pool.total_pool
}

/// The pool after `unstake` of `taken` at `now`.
pub open spec fn pool_after_unstake(pool: StakePool, taken: u64, now: i64) -> StakePool {
    let p = pool.accrued(now);
    StakePool { total_pool: (p.total_pool - taken) as u64, ..p }
}

/// The user's stake after `unstake` of `taken` at `now`.
pub open spec fn details_after_unstake(
    pool: StakePool,
    details: StakeDetails,
    taken: u64,
    now: i64,
) -> StakeDetails {
    let d = details.accrued(pool.accrued(now).reward_per_token, now);
    StakeDetails { staked_amount: (d.staked_amount - taken) as u64, ..d }
}

/// `claim_rewards` at `now` runs without aborting: the pool accrues and the
/// user's earnings since the last accrual fit in a `u64`.
pub open spec fn can_claim(pool: StakePool, details: StakeDetails, now: i64) -> bool {
    &&& pool.can_accrue(now)
    &&& details.last_reward_per_token <= pool.accrued(now).reward_per_token
    &&& details.earned(pool.accrued(now).reward_per_token) <= u64::MAX
}

/// The reward that `claim_rewards` at `now` pays: what the stake earned
/// since the user's last accrual. Rewards held in `holding_rewards` are not
/// part of it.
pub open spec fn claim_reward(pool: StakePool, details: StakeDetails, now: i64) -> u64 {
    details.earned(pool.accrued(now).reward_per_token) as u64
}

/// The user's stake after `claim_rewards` at `now`: held rewards reset to
/// zero and the accrual point moved to the pool's reward per token.
pub open spec fn details_after_claim(pool: StakePool, details: StakeDetails, now: i64) -> StakeDetails {
    StakeDetails {
        holding_rewards: 0,
        last_reward_per_token: pool.accrued(now).reward_per_token,
        last_updated: now,
        ..details
    }
}

/// Accrues a pool at `now`: the executable form of [`StakePool::accrued`].
pub fn accrue_pool(pool: &mut StakePool, now: i64)
    requires
        old(pool).can_accrue(now),
    ensures
        *final(pool) == old(pool).accrued(now),
{
    let elapsed_time: u64 = (now - pool.last_updated) as u64;
    if pool.total_pool > 0 {
        pool.reward_per_token = pool.reward_per_token + (pool.reward_rate * elapsed_time)
            / pool.total_pool;
    }
    pool.last_updated = now;
}

/// Accrues a user's stake against the pool's `reward_per_token`: the
/// executable form of [`StakeDetails::accrued`].
pub fn accrue_user(details: &mut StakeDetails, reward_per_token: u64, now: i64)
    requires
        old(details).can_accrue(reward_per_token),
    ensures
        *final(details) == old(details).accrued(reward_per_token, now),
{
    details.holding_rewards = details.holding_rewards + (reward_per_token
        - details.last_reward_per_token) * details.staked_amount;
    details.last_reward_per_token = reward_per_token;
    details.last_updated = now;
}

} // verus!
