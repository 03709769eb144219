//! The escrow's record and the seeds of its derived address.
use vstd::prelude::*;

use crate::account::{key_bytes, Key};
use crate::cpi::seeds_view;

verus! {

/// The terms of an escrow: its seed, the maker, the two mints, the amount
/// of A locked, the amount of B asked, and the bump seed of its address.
#[derive(Clone, Copy, Debug, PartialEq, Eq)]
pub struct EscrowDetails {
    pub seed: u64,
    pub maker_address: Key,
    pub mint_a: Key,
    pub mint_b: Key,
    pub token_a_amount: u64,
    pub token_b_amount: u64,
    pub escrow_bump: u8,
}

/// The first seed of an escrow's derived address: `b"escrow"`.
pub const ESCROW_SEED: [u8; 6] = [101, 115, 99, 114, 111, 119];

/// The seeds with which the program signs for an escrow of `owner`:
/// `b"escrow"`, the owner's key, `seed` in little-endian and the bump.
pub open spec fn escrow_seeds(owner: Key, seed: u64, bump: u8) -> Seq<Seq<u8>> {
    seq![ESCROW_SEED@, owner@, vstd::bytes::spec_u64_to_le_bytes(seed), seq![bump]]
}

/// Builds [`escrow_seeds`].
pub fn escrow_signer_seeds(owner: &Key, seed: u64, bump: u8) -> (r: Vec<Vec<u8>>)
    ensures
        seeds_view(r@) == escrow_seeds(*owner, seed, bump),
{
    let mut r: Vec<Vec<u8>> = Vec::new();
    r.push(vstd::slice::slice_to_vec(ESCROW_SEED.as_slice()));
    r.push(key_bytes(owner));
    r.push(vstd::bytes::u64_to_le_bytes(seed));
    r.push(vec![bump]);
    assert(r@[3]@ =~= seq![bump]);
    assert(seeds_view(r@) =~= escrow_seeds(*owner, seed, bump));
    r
}

/// The signer seeds tell escrows apart: two escrows sign with the same
/// seeds only where they have the same owner, the same `seed` (all eight
/// bytes of it) and the same bump.
pub proof fn lemma_escrow_seeds_identify_escrow(
    owner1: Key,
    seed1: u64,
    bump1: u8,
    owner2: Key,
    seed2: u64,
    bump2: u8,
)
    requires
        escrow_seeds(owner1, seed1, bump1) == escrow_seeds(owner2, seed2, bump2),
    ensures
        owner1@ == owner2@,
        seed1 == seed2,
        bump1 == bump2,
{
    let a = escrow_seeds(owner1, seed1, bump1);
    let b = escrow_seeds(owner2, seed2, bump2);
    assert(a[1] == b[1]);
    assert(a[2] == b[2]);
    assert(a[3] == b[3]);
    assert(a[3][0] == b[3][0]);
    vstd::bytes::lemma_auto_spec_u64_to_from_le_bytes();
    assert(vstd::bytes::spec_u64_from_le_bytes(vstd::bytes::spec_u64_to_le_bytes(seed1)) == seed1);
    assert(vstd::bytes::spec_u64_from_le_bytes(vstd::bytes::spec_u64_to_le_bytes(seed2)) == seed2);
}

} // verus!
