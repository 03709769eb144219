//! Properties of the staking arithmetic that span several instructions.
use vstd::prelude::*;

use crate::staking::base_stake_accounts::BaseStakeAccounts;
use crate::staking::claim_rewards::ClaimRewards;
use crate::staking::create_user::{CreateUser, CreateUserBumps};
use crate::staking::initialize_pool::InitializePool;
use crate::staking::stake::Stake;
use crate::staking::state::{
    can_claim, can_stake, can_unstake, claim_reward, details_after_claim, details_after_stake,
    details_after_unstake, pool_after_stake, pool_after_unstake, StakeDetails, StakePool,
};

verus! {

/// A pool last updated at `now` accrues nothing more at `now`.
proof fn lemma_no_time_no_reward(pool: StakePool, now: i64)
    requires
        pool.last_updated == now,
    ensures
        pool.reward_increment(now) == 0,
        pool.can_accrue(now),
        pool.accrued(now) == pool,
{
    assert(pool.elapsed(now) == 0);
    assert(pool.reward_rate * 0int == 0) by (nonlinear_arith);
}

/// Accruing a pool twice at the same moment is the same as accruing it once:
/// no time passes between the two, so nothing more accrues.
pub proof fn lemma_pool_accrual_idempotent(pool: StakePool, now: i64)
    requires
        pool.can_accrue(now),
    ensures
        pool.accrued(now).can_accrue(now),
        pool.accrued(now).accrued(now) == pool.accrued(now),
{
    lemma_no_time_no_reward(pool.accrued(now), now);
}

/// The reward per token never decreases when a pool accrues.
pub proof fn lemma_pool_accrual_monotone(pool: StakePool, now: i64)
    requires
        pool.can_accrue(now),
    ensures
        pool.accrued(now).reward_per_token >= pool.reward_per_token,
{
    if pool.total_pool > 0 {
        assert(pool.reward_rate * pool.elapsed(now) >= 0) by (nonlinear_arith)
            requires
                pool.reward_rate >= 0,
                pool.elapsed(now) >= 0,
        ;
        assert((pool.reward_rate * pool.elapsed(now)) / (pool.total_pool as int) >= 0) by (nonlinear_arith)
            requires
                pool.reward_rate * pool.elapsed(now) >= 0,
                pool.total_pool > 0,
        ;
    }
}

/// A user's rewards accrue additively: accruing against a reward per token
/// `r1` and then against a later `r2` holds the same rewards as accruing
/// against `r2` at once.
pub proof fn lemma_user_accrual_additive(details: StakeDetails, r1: u64, t1: i64, r2: u64, t2: i64)
    requires
        details.can_accrue(r1),
        details.accrued(r1, t1).can_accrue(r2),
    ensures
        details.can_accrue(r2),
        details.accrued(r1, t1).accrued(r2, t2) == details.accrued(r2, t2),
{
    let l = details.last_reward_per_token as int;
    let s = details.staked_amount as int;
    assert((r1 - l) * s + (r2 - r1) * s == (r2 - l) * s) by (nonlinear_arith);
    assert((r1 - l) * s >= 0) by (nonlinear_arith)
        requires
            r1 >= l,
            s >= 0,
    ;
}

/// Staking and then unstaking the same amount at the same moment leaves
/// the pool and the user's stake as a bare accrual at that moment would.
pub proof fn lemma_unstake_undoes_stake(pool: StakePool, details: StakeDetails, amount: u64, now: i64)
    requires
        can_stake(pool, details, amount, now),
    ensures
        details_after_stake(pool, details, amount, now).staked_amount >= amount,
        can_unstake(
            pool_after_stake(pool, amount, now),
            details_after_stake(pool, details, amount, now),
            amount,
            now,
        ),
        pool_after_unstake(pool_after_stake(pool, amount, now), amount, now) == pool.accrued(now),
        details_after_unstake(
            pool_after_stake(pool, amount, now),
            details_after_stake(pool, details, amount, now),
            amount,
            now,
        ) == details.accrued(pool.accrued(now).reward_per_token, now),
{
    let staked_pool = pool_after_stake(pool, amount, now);
    lemma_no_time_no_reward(staked_pool, now);
    let d2 = details_after_stake(pool, details, amount, now);
    assert(d2.last_reward_per_token == pool.accrued(now).reward_per_token);
    assert(staked_pool.reward_per_token == pool.accrued(now).reward_per_token);
    assert(d2.earned(staked_pool.reward_per_token) == 0int * d2.staked_amount);
    assert(0int * d2.staked_amount == 0) by (nonlinear_arith);
}

/// `stake` and `unstake` move the pool's total and the user's stake by the
/// same amount: what the pool holds beyond this user's stake is unchanged.
pub proof fn lemma_stake_keeps_pool_balance(
    pool: StakePool,
    details: StakeDetails,
    amount: u64,
    now: i64,
)
    requires
        can_stake(pool, details, amount, now),
    ensures
        pool_after_stake(pool, amount, now).total_pool - details_after_stake(
            pool,
            details,
            amount,
            now,
        ).staked_amount == pool.total_pool - details.staked_amount,
{
}

/// See [`lemma_stake_keeps_pool_balance`]; the same for `unstake`.
pub proof fn lemma_unstake_keeps_pool_balance(
    pool: StakePool,
    details: StakeDetails,
    amount: u64,
    now: i64,
)
    requires
        details.staked_amount >= amount,
        can_unstake(pool, details, amount, now),
    ensures
        pool_after_unstake(pool, amount, now).total_pool - details_after_unstake(
            pool,
            details,
            amount,
            now,
        ).staked_amount == pool.total_pool - details.staked_amount,
{
}

/// A second claim at the same moment as a first pays nothing.
pub proof fn lemma_second_claim_pays_nothing(pool: StakePool, details: StakeDetails, now: i64)
    requires
        can_claim(pool, details, now),
    ensures
        can_claim(pool.accrued(now), details_after_claim(pool, details, now), now),
        claim_reward(pool.accrued(now), details_after_claim(pool, details, now), now) == 0,
{
    lemma_pool_accrual_idempotent(pool, now);
    let d = details_after_claim(pool, details, now);
    assert(d.earned(pool.accrued(now).reward_per_token) == 0int * d.staked_amount);
    assert(0int * d.staked_amount == 0) by (nonlinear_arith);
}

/// The pool's accrual shares the reward of the elapsed seconds among the
/// tokens staked: the reward per token grows by `g` with
/// `g * total_pool <= reward_rate * elapsed < (g + 1) * total_pool` (the
/// quotient rounded down), not at all while the pool is empty, and the
/// accrual point moves to `now`; nothing else changes.
pub proof fn lemma_pool_accrual_shares_elapsed_reward(pool: StakePool, now: i64)
    requires
        pool.last_updated <= now,
        now - pool.last_updated <= i64::MAX,
        pool.total_pool > 0 ==> pool.reward_rate * (now - pool.last_updated) <= u64::MAX,
        pool.total_pool > 0 ==> pool.reward_per_token + (pool.reward_rate * (now
            - pool.last_updated)) / (pool.total_pool as int) <= u64::MAX,
    ensures
        pool.can_accrue(now),
        pool.accrued(now).last_updated == now,
        pool.accrued(now).total_pool == pool.total_pool,
        pool.accrued(now).reward_rate == pool.reward_rate,
        pool.accrued(now).bump == pool.bump,
        pool.total_pool == 0 ==> pool.accrued(now).reward_per_token == pool.reward_per_token,
        pool.total_pool > 0 ==> {
            let g = pool.accrued(now).reward_per_token - pool.reward_per_token;
            &&& g * pool.total_pool <= pool.reward_rate * (now - pool.last_updated)
            &&& pool.reward_rate * (now - pool.last_updated) < (g + 1) * pool.total_pool
        },
{
    if pool.total_pool > 0 {
        let x = pool.reward_rate * (now - pool.last_updated);
        let d = pool.total_pool as int;
        assert(x >= 0) by (nonlinear_arith)
            requires
                pool.reward_rate >= 0,
                now - pool.last_updated >= 0,
                x == pool.reward_rate * (now - pool.last_updated),
        ;
        let q = x / d;
        assert(q * d <= x < (q + 1) * d) by (nonlinear_arith)
            requires
                x >= 0,
                d > 0,
                q == x / d,
        ;
        assert(q >= 0) by (nonlinear_arith)
            requires
                x >= 0,
                d > 0,
                q == x / d,
        ;
    }
}

/// A claim pays, for each token staked, the growth of the pool's reward per
/// token from the user's last accrual up to the pool's accrual at `now`:
/// all of it, including what the pool gained from other users' updates
/// since, not only the pool's newest increment. It leaves the pool accrued
/// at `now`, the user's accrual point at the pool's new reward per token,
/// and the stake unchanged.
pub proof fn lemma_claim_pays_growth_since_last_accrual(accounts: ClaimRewards, now: i64)
    requires
        accounts.stake_pool.data.can_accrue(now),
        accounts.stake_details.data.last_reward_per_token <= accounts.stake_pool.data.accrued(
            now,
        ).reward_per_token,
        (accounts.stake_pool.data.accrued(now).reward_per_token
            - accounts.stake_details.data.last_reward_per_token)
            * accounts.stake_details.data.staked_amount <= u64::MAX,
    ensures
        accounts.can_claim(now),
        accounts.reward(now) == (accounts.stake_pool.data.accrued(now).reward_per_token
            - accounts.stake_details.data.last_reward_per_token)
            * accounts.stake_details.data.staked_amount,
        accounts.claimed(now).stake_pool.data == accounts.stake_pool.data.accrued(now),
        accounts.claimed(now).stake_details.data.last_reward_per_token
            == accounts.stake_pool.data.accrued(now).reward_per_token,
        accounts.claimed(now).stake_details.data.staked_amount
            == accounts.stake_details.data.staked_amount,
        accounts.claimed(now).stake_details.data.last_updated == now,
        accounts.claimed(now).stake_details.data.holding_rewards == 0,
{
}

/// What a claim pays is what the user's accrual against the same pool at
/// the same moment would add to the held rewards.
pub proof fn lemma_claim_pays_what_accrual_credits(accounts: ClaimRewards, now: i64)
    requires
        accounts.can_claim(now),
        accounts.stake_details.data.can_accrue(
            accounts.stake_pool.data.accrued(now).reward_per_token,
        ),
    ensures
        accounts.stake_details.data.holding_rewards + accounts.reward(now)
            == accounts.stake_details.data.accrued(
            accounts.stake_pool.data.accrued(now).reward_per_token,
            now,
        ).holding_rewards,
{
}

/// `unstake` accrues before it takes: from any pool, not only one already
/// accrued at `now`, the pool after unstaking `taken` carries the reward
/// per token of the pool accrued at `now` (the accrual dividing by the total
/// staked before the withdrawal), with `taken` removed from its total; the
/// user is credited what a bare accrual at `now` credits, and `taken`
/// leaves the stake.
pub proof fn lemma_unstake_accrues_before_taking(
    accounts: BaseStakeAccounts,
    taken: u64,
    now: i64,
)
    requires
        accounts.stake_pool.data.can_accrue(now),
        accounts.stake_details.data.can_accrue(
            accounts.stake_pool.data.accrued(now).reward_per_token,
        ),
        taken <= accounts.stake_pool.data.total_pool,
        taken <= accounts.stake_details.data.staked_amount,
    ensures
        accounts.can_unstake(taken, now),
        ({
            let p = accounts.unstaked(taken, now).stake_pool.data;
            let acc = accounts.stake_pool.data.accrued(now);
            &&& p.reward_per_token == acc.reward_per_token
            &&& p.last_updated == now
            &&& p.reward_rate == accounts.stake_pool.data.reward_rate
            &&& p.total_pool == accounts.stake_pool.data.total_pool - taken
        }),
        ({
            let d = accounts.unstaked(taken, now).stake_details.data;
            let acc = accounts.stake_pool.data.accrued(now);
            let bare = accounts.stake_details.data.accrued(acc.reward_per_token, now);
            &&& d.holding_rewards == bare.holding_rewards
            &&& d.last_reward_per_token == acc.reward_per_token
            &&& d.last_updated == now
            &&& d.staked_amount == accounts.stake_details.data.staked_amount - taken
        }),
{
}

/// `stake` runs exactly when `unstake` of nothing runs at the same moment
/// and the two additions fit: the accruals are the same and the amount
/// staked plays no part in them, so a pool that holds nothing accepts a
/// stake as any other does.
pub proof fn lemma_stake_runs_where_unstake_of_nothing_runs(
    pool: StakePool,
    details: StakeDetails,
    added: u64,
    now: i64,
)
    ensures
        can_stake(pool, details, added, now) <==> (can_unstake(pool, details, 0, now)
            && pool.total_pool + added <= u64::MAX && details.staked_amount + added <= u64::MAX),
        can_stake(pool, details, added, now) ==> {
            &&& pool_after_stake(pool, added, now).reward_per_token == pool_after_unstake(
                pool,
                0,
                now,
            ).reward_per_token
            &&& pool_after_stake(pool, added, now).total_pool == pool.total_pool + added
            &&& details_after_stake(pool, details, added, now).holding_rewards
                == details_after_unstake(pool, details, 0, now).holding_rewards
            &&& details_after_stake(pool, details, added, now).staked_amount
                == details.staked_amount + added
        },
{
}

/// Staking into an empty pool: no reward accrues (no token was staked),
/// the stake runs whenever time does not go back and the user's own
/// arithmetic fits, and the pool's total becomes the amount added.
pub proof fn lemma_stake_into_empty_pool(accounts: Stake, added: u64, now: i64)
    requires
        accounts.stake_pool.data.total_pool == 0,
        accounts.stake_pool.data.last_updated <= now,
        now - accounts.stake_pool.data.last_updated <= i64::MAX,
        accounts.stake_details.data.last_reward_per_token
            <= accounts.stake_pool.data.reward_per_token,
        accounts.stake_details.data.holding_rewards + (accounts.stake_pool.data.reward_per_token
            - accounts.stake_details.data.last_reward_per_token)
            * accounts.stake_details.data.staked_amount <= u64::MAX,
        accounts.stake_details.data.staked_amount + added <= u64::MAX,
    ensures
        accounts.can_update(added, now),
        accounts.updated(added, now).stake_pool.data.total_pool == added,
        accounts.updated(added, now).stake_pool.data.reward_per_token
            == accounts.stake_pool.data.reward_per_token,
        accounts.updated(added, now).stake_pool.data.last_updated == now,
        accounts.updated(added, now).stake_details.data.staked_amount
            == accounts.stake_details.data.staked_amount + added,
{
    let d = accounts.stake_details.data;
    let delta = accounts.stake_pool.data.reward_per_token - d.last_reward_per_token;
    assert(delta * d.staked_amount >= 0) by (nonlinear_arith)
        requires
            delta >= 0,
            d.staked_amount >= 0,
    ;
}

/// A user's accrual against the pool's reward per token `r` credits the
/// held rewards with `(r - last_reward_per_token) * staked_amount`, moves
/// the accrual point to `r` at `now`, and leaves the stake unchanged.
pub proof fn lemma_user_accrual_credits_earnings(details: StakeDetails, r: u64, now: i64)
    requires
        details.last_reward_per_token <= r,
        details.holding_rewards + (r - details.last_reward_per_token) * details.staked_amount
            <= u64::MAX,
    ensures
        details.can_accrue(r),
        details.accrued(r, now).holding_rewards == details.holding_rewards + (r
            - details.last_reward_per_token) * details.staked_amount,
        details.accrued(r, now).last_reward_per_token == r,
        details.accrued(r, now).last_updated == now,
        details.accrued(r, now).staked_amount == details.staked_amount,
{
    let delta = r - details.last_reward_per_token;
    assert(delta * details.staked_amount >= 0) by (nonlinear_arith)
        requires
            delta >= 0,
            details.staked_amount >= 0,
    ;
}

/// `stake` accrues before it adds: the pool after staking `added` at `now`
/// carries the reward per token of the pool accrued at `now`, with `added`
/// more in its total; the user is credited what a bare accrual at `now`
/// credits, and `added` joins the stake.
pub proof fn lemma_stake_accrues_then_adds(accounts: Stake, added: u64, now: i64)
    requires
        accounts.stake_pool.data.can_accrue(now),
        accounts.stake_details.data.can_accrue(
            accounts.stake_pool.data.accrued(now).reward_per_token,
        ),
        accounts.stake_pool.data.total_pool + added <= u64::MAX,
        accounts.stake_details.data.staked_amount + added <= u64::MAX,
    ensures
        accounts.can_update(added, now),
        ({
            let p = accounts.updated(added, now).stake_pool.data;
            let acc = accounts.stake_pool.data.accrued(now);
            &&& p.reward_per_token == acc.reward_per_token
            &&& p.last_updated == now
            &&& p.reward_rate == accounts.stake_pool.data.reward_rate
            &&& p.total_pool == accounts.stake_pool.data.total_pool + added
        }),
        ({
            let d = accounts.updated(added, now).stake_details.data;
            let acc = accounts.stake_pool.data.accrued(now);
            let bare = accounts.stake_details.data.accrued(acc.reward_per_token, now);
            &&& d.holding_rewards == bare.holding_rewards
            &&& d.last_reward_per_token == acc.reward_per_token
            &&& d.last_updated == now
            &&& d.staked_amount == accounts.stake_details.data.staked_amount + added
        }),
        accounts.updated(added, now).user_ata == accounts.user_ata,
        accounts.updated(added, now).treasury_ata == accounts.treasury_ata,
{
}

/// The first stake into a freshly opened pool, by a freshly created user,
/// runs whenever time has not gone back since the pool was opened: the
/// pool then holds exactly the amount staked, its reward per token still
/// zero, and the user holds that amount staked with no rewards.
pub proof fn lemma_first_stake_into_opened_pool(
    opening: InitializePool,
    reward_rate: u64,
    opened_at: i64,
    creation: CreateUser,
    bumps: CreateUserBumps,
    created_at: i64,
    accounts: Stake,
    added: u64,
    now: i64,
)
    requires
        accounts.stake_pool.data == opening.opened(reward_rate, opened_at).stake_pool.data,
        accounts.stake_details.data == creation.created(bumps, created_at).stake_details.data,
        opened_at <= now,
        now - opened_at <= i64::MAX,
    ensures
        accounts.can_update(added, now),
        accounts.updated(added, now).stake_pool.data.total_pool == added,
        accounts.updated(added, now).stake_pool.data.reward_per_token == 0,
        accounts.updated(added, now).stake_details.data.staked_amount == added,
        accounts.updated(added, now).stake_details.data.holding_rewards == 0,
{
    assert(0int * 0int == 0) by (nonlinear_arith);
    lemma_stake_into_empty_pool(accounts, added, now);
    lemma_stake_accrues_then_adds(accounts, added, now);
    lemma_user_accrual_credits_earnings(accounts.stake_details.data, 0, now);
}

} // verus!
