use vstd::prelude::*;

verus! {

/// The data of a vault account: the bump seed of its derived address.
#[derive(Clone, Copy, Debug, PartialEq, Eq)]
pub struct Vault {
    pub vault_bump: u8,
}

/// The first seed of a vault's derived address: `b"vault"`.
pub const VAULT_SEED: [u8; 5] = [118, 97, 117, 108, 116];

} // verus!
