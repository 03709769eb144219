//! `initialize`: registers the administrator.
use vstd::prelude::*;

use crate::account::{Account, Failure, Key};
use crate::staking::error::ErrorCode;
use crate::staking::state::AdminDetails;

verus! {

/// The accounts of `initialize`.
#[derive(Clone, Copy, Debug, PartialEq, Eq)]
pub struct Initialize {
    pub admin: Key,
    pub admin_details: Account<AdminDetails>,
    pub system_program: Key,
}

/// The bump seeds found for the derived addresses of `initialize`.
#[derive(Clone, Copy, Debug, PartialEq, Eq)]
pub struct InitializeBumps {
    pub admin_details: u8,
}

/// The `initialize` instruction: records the signer as the administrator.
pub fn handler(accounts: &mut Initialize, bumps: InitializeBumps) -> (r: Result<
    (),
    Failure<ErrorCode>,
>)
    ensures
        r is Ok,
        *final(accounts) == (Initialize {
            admin_details: Account {
                data: AdminDetails { admin: old(accounts).admin, bump: bumps.admin_details },
                ..old(accounts).admin_details
            },
            ..*old(accounts)
        }),
{
    accounts.admin_details.data.admin = accounts.admin;
    accounts.admin_details.data.bump = bumps.admin_details;
    Ok(())
}

} // verus!
