//! `stake`: the user adds tokens to the pool.
use vstd::prelude::*;

use crate::account::{Account, Failure, Key, MintAccount, TokenAccount};
use crate::cpi::{outcome_view, requests_view, CpiRequest, CpiRequestView};
use crate::runtime::clock_unix_timestamp;
use crate::staking::error::ErrorCode;
use crate::staking::state::{
    accrue_pool, accrue_user, can_stake, details_after_stake, pool_after_stake, StakeDetails,
    StakePool,
};

verus! {

/// The accounts of `stake`.
#[derive(Clone, Copy, Debug, PartialEq, Eq)]
pub struct Stake {
    pub user: Key,
    pub user_ata: TokenAccount,
    pub treasury_ata: TokenAccount,
    pub stake_pool: Account<StakePool>,
    pub stake_details: Account<StakeDetails>,
    pub mint: MintAccount,
    pub token_program: Key,
}

impl Stake {
    /// `update_states` of `added_amount` at `now` runs without aborting.
    pub open spec fn can_update(self, added_amount: u64, now: i64) -> bool {
        can_stake(self.stake_pool.data, self.stake_details.data, added_amount, now)
    }

    /// The accounts after `update_states` of `added_amount` at `now`.
    pub open spec fn updated(self, added_amount: u64, now: i64) -> Stake {
        let pool = self.stake_pool.data;
        let details = self.stake_details.data;
        Stake {
            stake_pool: Account { data: pool_after_stake(pool, added_amount, now), ..self.stake_pool },
            stake_details: Account {
                data: details_after_stake(pool, details, added_amount, now),
                ..self.stake_details
            },
            ..self
        }
    }

    /// The transfer of `amount_added` from the user into the treasury.
    pub open spec fn stake_transfer(self, amount_added: u64) -> CpiRequestView {
        CpiRequestView::TransferChecked {
            token_program: self.token_program,
            from: self.user_ata.key,
            mint: self.mint.key,
            to: self.treasury_ata.key,
            authority: self.user,
            amount: amount_added,
            decimals: self.mint.decimals,
            signer_seeds: Seq::empty(),
        }
    }

    /// Decides [`Stake::can_update`].
    pub fn check_update(&self, added_amount: u64, now: i64) -> (r: bool)
        ensures
            r == self.can_update(added_amount, now),
    {
        if !self.stake_pool.data.check_accrue(now) {
            return false;
        }
        let mut pool = self.stake_pool.data;
        accrue_pool(&mut pool, now);
        self.stake_details.data.check_accrue(pool.reward_per_token) && self.stake_pool.data.total_pool
            <= u64::MAX - added_amount && self.stake_details.data.staked_amount <= u64::MAX
            - added_amount
    }

    /// `update_states` with the clock reading `current_time`: accrues the
    /// pool and the user, then adds `added_amount` to the pool's total and to
    /// the stake.
    pub fn update_states_at(&mut self, added_amount: u64, current_time: i64) -> (r: Result<
        (),
        Failure<ErrorCode>,
    >)
        requires
            old(self).can_update(added_amount, current_time),
        ensures
            r is Ok,
            *final(self) == old(self).updated(added_amount, current_time),
    {
        accrue_pool(&mut self.stake_pool.data, current_time);
        let reward_per_token = self.stake_pool.data.reward_per_token;
        accrue_user(&mut self.stake_details.data, reward_per_token, current_time);
        self.stake_pool.data.total_pool = self.stake_pool.data.total_pool + added_amount;
        self.stake_details.data.staked_amount = self.stake_details.data.staked_amount
            + added_amount;
        self.stake_details.data.last_updated = current_time;
        Ok(())
    }

    /// `update_states` with the clock reading `now`: `None` (the program
    /// aborts, the accounts unchanged) exactly where the arithmetic at `now`
    /// overflows or time goes back; otherwise the update.
    pub fn update_states_with_time(&mut self, added_amount: u64, now: i64) -> (r: Option<
        Result<(), Failure<ErrorCode>>,
    >)
        ensures
            r is None <==> !old(self).can_update(added_amount, now),
            r is None ==> *final(self) == *old(self),
            r is Some ==> r == Some(Ok::<(), Failure<ErrorCode>>(())) && *final(self) == old(
                self,
            ).updated(added_amount, now),
    {
        if !self.check_update(added_amount, now) {
            return None;
        }
        let _ = self.update_states_at(added_amount, now);
        Some(Ok(()))
    }

    /// `update_states`: reads the clock and runs
    /// [`Stake::update_states_with_time`] at the time read.
    pub fn update_states(&mut self, added_amount: u64) -> (r: Option<Result<(), Failure<ErrorCode>>>)
        ensures
            r matches Some(Err(Failure::Program(_))) ==> *final(self) == *old(self),
            !(r matches Some(Err(Failure::Program(_)))) ==> exists|now: i64|
                {
                    &&& (r is None <==> !#[trigger] old(self).can_update(added_amount, now))
                    &&& r is None ==> *final(self) == *old(self)
                    &&& r is Some ==> r == Some(Ok::<(), Failure<ErrorCode>>(())) && *final(self)
                        == old(self).updated(added_amount, now)
                },
    {
        let current_time = match clock_unix_timestamp() {
            Ok(t) => t,
            Err(e) => return Some(Err(Failure::Program(e))),
        };
        self.update_states_with_time(added_amount, current_time)
    }

    /// The transfer of the staked tokens into the treasury. Refuses with
    /// `InvalidTokenBalance` exactly when the user's token account holds
    /// less than `amount_added`.
    pub fn stake_funds(&self, amount_added: u64) -> (r: Result<CpiRequest, Failure<ErrorCode>>)
        ensures
            self.user_ata.amount < amount_added ==> r == Err::<CpiRequest, Failure<ErrorCode>>(
                Failure::Custom(ErrorCode::InvalidTokenBalance),
            ),
            amount_added <= self.user_ata.amount ==> (r matches Ok(req) && req@
                == self.stake_transfer(amount_added)),
    {
        if self.user_ata.amount < amount_added {
            return Err(Failure::Custom(ErrorCode::InvalidTokenBalance));
        }
        let signer_seeds: Vec<Vec<u8>> = Vec::new();
        assert(crate::cpi::seeds_view(signer_seeds@) =~= Seq::empty());
        Ok(
            CpiRequest::TransferChecked {
                token_program: self.token_program,
                from: self.user_ata.key,
                mint: self.mint.key,
                to: self.treasury_ata.key,
                authority: self.user,
                amount: amount_added,
                decimals: self.mint.decimals,
                signer_seeds,
            },
        )
    }
}

impl Stake {
    /// What the `stake` instruction ends with when the clock reads `now`:
    /// `None` where the update aborts, `InvalidTokenBalance` where the
    /// user's token account holds less than `amount_added`, and otherwise the
    /// transfer into the treasury.
    pub open spec fn stake_outcome(self, added_amount: u64, amount_added: u64, now: i64) -> Option<
        Result<Seq<CpiRequestView>, Failure<ErrorCode>>,
    > {
        if !self.can_update(added_amount, now) {
            None
        } else if self.user_ata.amount < amount_added {
            Some(Err(Failure::Custom(ErrorCode::InvalidTokenBalance)))
        } else {
            Some(Ok(seq![self.stake_transfer(amount_added)]))
        }
    }

    /// The accounts after the `stake` instruction when the clock reads
    /// `now`: updated unless the update aborts.
    pub open spec fn stake_state(self, added_amount: u64, now: i64) -> Stake {
        if self.can_update(added_amount, now) {
            self.updated(added_amount, now)
        } else {
            self
        }
    }
}

/// The `stake` instruction with the clock reading `current_time`: updates
/// the accounts for `added_amount`, then asks for the transfer of
/// `amount_added` into the treasury; see [`Stake::stake_outcome`].
pub fn handler_with_time(
    accounts: &mut Stake,
    added_amount: u64,
    amount_added: u64,
    current_time: i64,
) -> (r: Option<Result<Vec<CpiRequest>, Failure<ErrorCode>>>)
    ensures
        outcome_view(r) == old(accounts).stake_outcome(added_amount, amount_added, current_time),
        *final(accounts) == old(accounts).stake_state(added_amount, current_time),
{
    match accounts.update_states_with_time(added_amount, current_time) {
        None => None,
        Some(Err(e)) => Some(Err(e)),
        Some(Ok(())) => match accounts.stake_funds(amount_added) {
            Err(e) => Some(Err(e)),
            Ok(transfer) => {
                let v = vec![transfer];
                assert(requests_view(v@) =~= seq![old(accounts).stake_transfer(amount_added)]);
                Some(Ok(v))
            },
        },
    }
}

/// The `stake` instruction: reads the clock and runs [`handler_with_time`]
/// at the time read.
pub fn handler(accounts: &mut Stake, added_amount: u64, amount_added: u64) -> (r: Option<
    Result<Vec<CpiRequest>, Failure<ErrorCode>>,
>)
    ensures
        r matches Some(Err(Failure::Program(_))) ==> *final(accounts) == *old(accounts),
        !(r matches Some(Err(Failure::Program(_)))) ==> exists|now: i64|
            outcome_view(r) == old(accounts).stake_outcome(added_amount, amount_added, now)
                && *final(accounts) == #[trigger] old(accounts).stake_state(added_amount, now),
{
    let current_time = match clock_unix_timestamp() {
        Ok(t) => t,
        Err(e) => return Some(Err(Failure::Program(e))),
    };
    handler_with_time(accounts, added_amount, amount_added, current_time)
}

} // verus!
