//! `unstake`: the user takes tokens back out of the pool.
use vstd::prelude::*;

use crate::account::{Failure, key_bytes};
use crate::cpi::CpiRequest;
use crate::cpi::CpiRequestView;
use crate::cpi::{outcome_view, requests_view};
use crate::runtime::clock_unix_timestamp;
use crate::staking::base_stake_accounts::BaseStakeAccounts;
use crate::staking::error::ErrorCode;
use crate::staking::state::{
    accrue_pool, can_unstake, details_after_unstake, pool_after_unstake, STAKE_POOL_SEED,
};

verus! {

impl BaseStakeAccounts {
    /// `unstake` of `taken_amount` at `now` runs without aborting: both
    /// accruals run and the pool holds at least `taken_amount`.
    pub open spec fn can_unstake(self, taken_amount: u64, now: i64) -> bool {
        can_unstake(self.stake_pool.data, self.stake_details.data, taken_amount, now)
    }

    /// The accounts after `unstake` of `taken_amount` at `now`: both
    /// accruals, then `taken_amount` leaves the pool's total and the stake.
    pub open spec fn unstaked(self, taken_amount: u64, now: i64) -> BaseStakeAccounts {
        let pool = self.stake_pool.data;
        let details = self.stake_details.data;
        self.with_pool(pool_after_unstake(pool, taken_amount, now)).with_details(
            details_after_unstake(pool, details, taken_amount, now),
        )
    }

    /// The transfer of `taken_amount` from the treasury back to the user,
    /// signed by the pool.
    pub open spec fn unstake_transfer(self, taken_amount: u64) -> CpiRequestView {
        CpiRequestView::TransferChecked {
            token_program: self.token_program,
            from: self.treasury_ata.key,
            mint: self.mint.key,
            to: self.user_ata.key,
            authority: self.stake_pool.key,
            amount: taken_amount,
            decimals: self.mint.decimals,
            signer_seeds: seq![STAKE_POOL_SEED@, self.mint.key@, seq![self.stake_pool.data.bump]],
        }
    }

    /// Decides [`BaseStakeAccounts::can_unstake`].
    pub fn check_unstake(&self, taken_amount: u64, now: i64) -> (r: bool)
        ensures
            r == self.can_unstake(taken_amount, now),
    {
        if !self.stake_pool.data.check_accrue(now) {
            return false;
        }
        let mut pool = self.stake_pool.data;
        accrue_pool(&mut pool, now);
        self.stake_details.data.check_accrue(pool.reward_per_token)
            && taken_amount <= self.stake_pool.data.total_pool
    }

    /// `unstake` with the clock reading `current_time`: refuses with
    /// `InvalidUnstake` where more is asked than is staked, and otherwise
    /// accrues and takes `taken_amount` out of the pool and the stake.
    pub fn unstake_at(&mut self, taken_amount: u64, current_time: i64) -> (r: Result<
        (),
        Failure<ErrorCode>,
    >)
        requires
            old(self).stake_details.data.staked_amount >= taken_amount ==> old(self).can_unstake(
                taken_amount,
                current_time,
            ),
        ensures
            old(self).stake_details.data.staked_amount < taken_amount ==> r == Err::<
                (),
                Failure<ErrorCode>,
            >(Failure::Custom(ErrorCode::InvalidUnstake)) && *final(self) == *old(self),
            old(self).stake_details.data.staked_amount >= taken_amount ==> r is Ok && *final(self)
                == old(self).unstaked(taken_amount, current_time),
    {
        if self.stake_details.data.staked_amount < taken_amount {
            return Err(Failure::Custom(ErrorCode::InvalidUnstake));
        }
        let _ = self.update_stake_pool(current_time);
        let _ = self.update_user_stake(current_time);
        self.stake_pool.data.total_pool = self.stake_pool.data.total_pool - taken_amount;
        self.stake_details.data.staked_amount = self.stake_details.data.staked_amount
            - taken_amount;
        Ok(())
    }

    /// `unstake` with the clock reading `now`: `InvalidUnstake` where more is
    /// asked than is staked; otherwise `None` (the program aborts, the
    /// accounts unchanged) exactly where the arithmetic at `now` overflows
    /// or time goes back, and the update where it does not.
    pub fn unstake_with_time(&mut self, taken_amount: u64, now: i64) -> (r: Option<
        Result<(), Failure<ErrorCode>>,
    >)
        ensures
            old(self).stake_details.data.staked_amount < taken_amount ==> r == Some(
                Err::<(), Failure<ErrorCode>>(Failure::Custom(ErrorCode::InvalidUnstake)),
            ) && *final(self) == *old(self),
            old(self).stake_details.data.staked_amount >= taken_amount ==> {
                &&& (r is None <==> !old(self).can_unstake(taken_amount, now))
                &&& r is None ==> *final(self) == *old(self)
                &&& r is Some ==> r == Some(Ok::<(), Failure<ErrorCode>>(())) && *final(self)
                    == old(self).unstaked(taken_amount, now)
            },
    {
        if self.stake_details.data.staked_amount < taken_amount {
            return Some(Err(Failure::Custom(ErrorCode::InvalidUnstake)));
        }
        if !self.check_unstake(taken_amount, now) {
            return None;
        }
        let _ = self.unstake_at(taken_amount, now);
        Some(Ok(()))
    }

    /// `unstake`: refuses with `InvalidUnstake` where more is asked than is
    /// staked, and otherwise reads the clock and runs
    /// [`BaseStakeAccounts::unstake_with_time`] at the time read.
    pub fn unstake(&mut self, taken_amount: u64) -> (r: Option<Result<(), Failure<ErrorCode>>>)
        ensures
            old(self).stake_details.data.staked_amount < taken_amount ==> r == Some(
                Err::<(), Failure<ErrorCode>>(Failure::Custom(ErrorCode::InvalidUnstake)),
            ) && *final(self) == *old(self),
            r matches Some(Err(Failure::Program(_))) ==> *final(self) == *old(self),
            old(self).stake_details.data.staked_amount >= taken_amount && !(r matches Some(
                Err(Failure::Program(_)),
            )) ==> exists|now: i64|
                {
                    &&& (r is None <==> !#[trigger] old(self).can_unstake(taken_amount, now))
                    &&& r is None ==> *final(self) == *old(self)
                    &&& r is Some ==> r == Some(Ok::<(), Failure<ErrorCode>>(())) && *final(self)
                        == old(self).unstaked(taken_amount, now)
                },
    {
        if self.stake_details.data.staked_amount < taken_amount {
            return Some(Err(Failure::Custom(ErrorCode::InvalidUnstake)));
        }
        let current_time = match clock_unix_timestamp() {
            Ok(t) => t,
            Err(e) => return Some(Err(Failure::Program(e))),
        };
        self.unstake_with_time(taken_amount, current_time)
    }

    /// The transfer of the unstaked tokens from the treasury to the user.
    pub fn transfer_unstaked_token(&self, taken_amount: u64) -> (r: CpiRequest)
        ensures
            r@ == self.unstake_transfer(taken_amount),
    {
        let mut signer_seeds: Vec<Vec<u8>> = Vec::new();
        signer_seeds.push(vstd::slice::slice_to_vec(STAKE_POOL_SEED.as_slice()));
        signer_seeds.push(key_bytes(&self.mint.key));
        signer_seeds.push(vec![self.stake_pool.data.bump]);
        assert(signer_seeds@.len() == 3);
        assert(signer_seeds@[0]@ == STAKE_POOL_SEED@);
        assert(signer_seeds@[1]@ == self.mint.key@);
        assert(signer_seeds@[2]@ =~= seq![self.stake_pool.data.bump]);
        assert(crate::cpi::seeds_view(signer_seeds@) =~= seq![
            STAKE_POOL_SEED@,
            self.mint.key@,
            seq![self.stake_pool.data.bump],
        ]);
        CpiRequest::TransferChecked {
            token_program: self.token_program,
            from: self.treasury_ata.key,
            mint: self.mint.key,
            to: self.user_ata.key,
            authority: self.stake_pool.key,
            amount: taken_amount,
            decimals: self.mint.decimals,
            signer_seeds,
        }
    }
}

impl BaseStakeAccounts {
    /// What the `unstake` instruction ends with when the clock reads `now`:
    /// `InvalidUnstake` where more is asked than is staked, `None` where the
    /// update aborts, and otherwise the transfer back to the user.
    pub open spec fn unstake_outcome(self, taken_amount: u64, now: i64) -> Option<
        Result<Seq<CpiRequestView>, Failure<ErrorCode>>,
    > {
        if self.stake_details.data.staked_amount < taken_amount {
            Some(Err(Failure::Custom(ErrorCode::InvalidUnstake)))
        } else if !self.can_unstake(taken_amount, now) {
            None
        } else {
            Some(Ok(seq![self.unstaked(taken_amount, now).unstake_transfer(taken_amount)]))
        }
    }

    /// The accounts after the `unstake` instruction when the clock reads
    /// `now`: updated unless it refuses or aborts.
    pub open spec fn unstake_state(self, taken_amount: u64, now: i64) -> BaseStakeAccounts {
        if self.stake_details.data.staked_amount >= taken_amount && self.can_unstake(
            taken_amount,
            now,
        ) {
            self.unstaked(taken_amount, now)
        } else {
            self
        }
    }
}

/// The `unstake` instruction with the clock reading `current_time`: updates
/// the accounts, then asks the token program for the transfer back to the
/// user; see [`BaseStakeAccounts::unstake_outcome`].
pub fn handler_with_time(accounts: &mut BaseStakeAccounts, taken_amount: u64, current_time: i64) -> (r:
    Option<Result<Vec<CpiRequest>, Failure<ErrorCode>>>)
    ensures
        outcome_view(r) == old(accounts).unstake_outcome(taken_amount, current_time),
        *final(accounts) == old(accounts).unstake_state(taken_amount, current_time),
{
    match accounts.unstake_with_time(taken_amount, current_time) {
        None => None,
        Some(Err(e)) => Some(Err(e)),
        Some(Ok(())) => {
            let transfer = accounts.transfer_unstaked_token(taken_amount);
            let v = vec![transfer];
            assert(requests_view(v@) =~= seq![final(accounts).unstake_transfer(taken_amount)]);
            Some(Ok(v))
        },
    }
}

/// The `unstake` instruction: refuses with `InvalidUnstake` where more is
/// asked than is staked, and otherwise reads the clock and runs
/// [`handler_with_time`] at the time read.
pub fn handler(accounts: &mut BaseStakeAccounts, taken_amount: u64) -> (r: Option<
    Result<Vec<CpiRequest>, Failure<ErrorCode>>,
>)
    ensures
        old(accounts).stake_details.data.staked_amount < taken_amount ==> r == Some(
            Err::<Vec<CpiRequest>, Failure<ErrorCode>>(Failure::Custom(ErrorCode::InvalidUnstake)),
        ) && *final(accounts) == *old(accounts),
        r matches Some(Err(Failure::Program(_))) ==> *final(accounts) == *old(accounts),
        !(r matches Some(Err(Failure::Program(_)))) ==> exists|now: i64|
            outcome_view(r) == old(accounts).unstake_outcome(taken_amount, now) && *final(accounts)
                == #[trigger] old(accounts).unstake_state(taken_amount, now),
{
    if accounts.stake_details.data.staked_amount < taken_amount {
        let r = Some(Err(Failure::Custom(ErrorCode::InvalidUnstake)));
        assert(outcome_view(r) == old(accounts).unstake_outcome(taken_amount, 0)
            && *accounts == old(accounts).unstake_state(taken_amount, 0));
        return r;
    }
    let current_time = match clock_unix_timestamp() {
        Ok(t) => t,
        Err(e) => return Some(Err(Failure::Program(e))),
    };
    handler_with_time(accounts, taken_amount, current_time)
}

} // verus!
