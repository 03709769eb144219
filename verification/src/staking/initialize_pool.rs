//! `initialize_pool`: the administrator opens a pool and funds its treasury.
use vstd::prelude::*;

use crate::account::{Account, Failure, Key, MintAccount, TokenAccount};
use crate::cpi::{requests_view, CpiRequest, CpiRequestView};
use crate::runtime::clock_unix_timestamp;
use crate::staking::error::ErrorCode;
use crate::staking::state::{AdminDetails, StakePool};

verus! {

/// The accounts of `initialize_pool`.
#[derive(Clone, Copy, Debug, PartialEq, Eq)]
pub struct InitializePool {
    pub admin: Key,
    pub admin_ata: TokenAccount,
    pub treasury_ata: TokenAccount,
    pub token_mint: MintAccount,
    pub stake_pool: Account<StakePool>,
    pub admin_details: Account<AdminDetails>,
    pub token_program: Key,
    pub system_program: Key,
    pub associated_token_program: Key,
}

impl InitializePool {
    /// The pool's data set by `initialize` at `now` (its bump is left as
    /// it was).
    pub open spec fn opened_pool(self, reward_rate: u64, now: i64) -> StakePool {
        StakePool {
            total_pool: 0,
            reward_rate: reward_rate,
            reward_per_token: 0,
            last_updated: now,
            ..self.stake_pool.data
        }
    }

    /// The accounts after `initialize` at `now`.
    pub open spec fn opened(self, reward_rate: u64, now: i64) -> InitializePool {
        InitializePool {
            stake_pool: Account { data: self.opened_pool(reward_rate, now), ..self.stake_pool },
            ..self
        }
    }

    /// The transfer of `transfer_amount` from the administrator into the
    /// treasury.
    pub open spec fn funding_transfer(self, transfer_amount: u64) -> CpiRequestView {
        CpiRequestView::TransferChecked {
            token_program: self.token_program,
            from: self.admin_ata.key,
            mint: self.token_mint.key,
            to: self.treasury_ata.key,
            authority: self.admin,
            amount: transfer_amount,
            decimals: self.token_mint.decimals,
            signer_seeds: Seq::empty(),
        }
    }

    /// `initialize` with the clock reading `current_time`: an empty pool at
    /// `reward_rate` that starts accruing at `current_time`.
    pub fn initialize_at(&mut self, reward_rate: u64, current_time: i64) -> (r: Result<
        (),
        Failure<ErrorCode>,
    >)
        ensures
            r is Ok,
            *final(self) == old(self).opened(reward_rate, current_time),
    {
        self.stake_pool.data.total_pool = 0;
        self.stake_pool.data.reward_rate = reward_rate;
        self.stake_pool.data.reward_per_token = 0;
        self.stake_pool.data.last_updated = current_time;
        Ok(())
    }

    /// `initialize`: reads the clock and runs
    /// [`InitializePool::initialize_at`]. Where the clock cannot be read, the
    /// error is returned with total, rate and reward per token already set.
    pub fn initialize(&mut self, reward_rate: u64) -> (r: Result<(), Failure<ErrorCode>>)
        ensures
            r is Ok ==> exists|now: i64| *final(self) == #[trigger] old(self).opened(reward_rate, now),
            r matches Err(e) ==> e is Program && *final(self) == old(self).opened(
                reward_rate,
                old(self).stake_pool.data.last_updated,
            ),
    {
        self.stake_pool.data.total_pool = 0;
        self.stake_pool.data.reward_rate = reward_rate;
        self.stake_pool.data.reward_per_token = 0;
        let current_time = match clock_unix_timestamp() {
            Ok(t) => t,
            Err(e) => return Err(Failure::Program(e)),
        };
        let r = self.initialize_at(reward_rate, current_time);
        assert(*final(self) == old(self).opened(reward_rate, current_time));
        r
    }

    /// The transfer that funds the treasury.
    pub fn transfer_to_treasury(&self, transfer_amount: u64) -> (r: CpiRequest)
        ensures
            r@ == self.funding_transfer(transfer_amount),
    {
        let signer_seeds: Vec<Vec<u8>> = Vec::new();
        assert(crate::cpi::seeds_view(signer_seeds@) =~= Seq::empty());
        CpiRequest::TransferChecked {
            token_program: self.token_program,
            from: self.admin_ata.key,
            mint: self.token_mint.key,
            to: self.treasury_ata.key,
            authority: self.admin,
            amount: transfer_amount,
            decimals: self.token_mint.decimals,
            signer_seeds,
        }
    }
}

/// The `initialize_pool` instruction: opens the pool, then asks for the
/// transfer that funds the treasury.
pub fn handler(accounts: &mut InitializePool, reward_rate: u64, transfer_amount: u64) -> (r:
    Result<Vec<CpiRequest>, Failure<ErrorCode>>)
    ensures
        r matches Ok(v) ==> requests_view(v@) == seq![
            old(accounts).funding_transfer(transfer_amount),
        ] && exists|now: i64| *final(accounts) == #[trigger] old(accounts).opened(reward_rate, now),
        r matches Err(e) ==> e is Program && *final(accounts) == old(accounts).opened(
            reward_rate,
            old(accounts).stake_pool.data.last_updated,
        ),
{
    match accounts.initialize(reward_rate) {
        Err(e) => Err(e),
        Ok(()) => {
            let transfer = accounts.transfer_to_treasury(transfer_amount);
            let v = vec![transfer];
            assert(requests_view(v@) =~= seq![old(accounts).funding_transfer(transfer_amount)]);
            Ok(v)
        },
    }
}

} // verus!
