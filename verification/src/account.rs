//! Plain-value views of the accounts that the programs read, and the errors
//! that an instruction can end with.
use vstd::prelude::*;

verus! {

/// The 32 bytes of a public key.
pub type Key = [u8; 32];

/// Compares two keys byte by byte.
pub fn key_eq(a: &Key, b: &Key) -> (r: bool)
    ensures
        r == (a@ == b@),
{
    let mut i: usize = 0;
    while i < 32
        invariant
            0 <= i <= 32,
            a@.len() == 32,
            b@.len() == 32,
            forall|j: int| 0 <= j < i ==> a@[j] == b@[j],
        decreases 32 - i,
    {
        if a[i] != b[i] {
            assert(a@[i as int] != b@[i as int]);
            return false;
        }
        i = i + 1;
    }
    assert(a@ =~= b@);
    true
}

/// Copies a key into a byte vector (a seed or a comparison operand).
pub fn key_bytes(k: &Key) -> (r: Vec<u8>)
    ensures
        r@ == k@,
        r@.len() == 32,
{
    vstd::slice::slice_to_vec(k.as_slice())
}

/// A token account: its address and the number of tokens it holds.
#[derive(Clone, Copy, Debug, PartialEq, Eq)]
pub struct TokenAccount {
    pub key: Key,
    pub amount: u64,
}

/// A mint: its address and the number of decimals of its tokens.
#[derive(Clone, Copy, Debug, PartialEq, Eq)]
pub struct MintAccount {
    pub key: Key,
    pub decimals: u8,
}

/// An account read for its address and its lamport balance (a signer or a
/// system account).
#[derive(Clone, Copy, Debug, PartialEq, Eq)]
pub struct LamportAccount {
    pub key: Key,
    pub lamports: u64,
}

/// An account owned by one of the programs: address, lamports and the
/// program's data stored in it.
#[derive(Clone, Copy, Debug, PartialEq, Eq)]
pub struct Account<T> {
    pub key: Key,
    pub lamports: u64,
    pub data: T,
}

/// The instructions sysvar as an account: its address and its data, the
/// serialized instructions of the running transaction followed by the index
/// of the current one.
#[derive(Clone, Debug, PartialEq, Eq)]
pub struct SysvarAccount {
    pub key: Key,
    pub data: Vec<u8>,
}

/// An instruction of the running transaction as the instructions sysvar
/// holds it: the program called, the addresses of its accounts in order, and
/// its data.
#[derive(Clone, Debug, PartialEq, Eq)]
pub struct SysvarInstruction {
    pub program_id: Key,
    pub account_keys: Vec<Key>,
    pub data: Vec<u8>,
}

/// The mathematical value of a [`SysvarInstruction`].
pub struct SysvarInstructionView {
    pub program_id: Key,
    pub account_keys: Seq<Key>,
    pub data: Seq<u8>,
}

impl View for SysvarInstruction {
    type V = SysvarInstructionView;

    open spec fn view(&self) -> SysvarInstructionView {
        SysvarInstructionView {
            program_id: self.program_id,
            account_keys: self.account_keys@,
            data: self.data@,
        }
    }
}

/// The runtime errors that the instructions can end with.
#[derive(Clone, Copy, Debug, PartialEq, Eq)]
pub enum ProgramErrorKind {
    ArithmeticOverflow,
    UnsupportedSysvar,
    InvalidArgument,
    /// Any other error of the runtime, by its numeric code.
    Other(u64),
}

/// The error of an instruction: one of the program's own error codes, or an
/// error of the runtime.
#[derive(Clone, Copy, Debug, PartialEq, Eq)]
pub enum Failure<C> {
    Custom(C),
    Program(ProgramErrorKind),
}

/// Adds `amount` lamports to a balance, as Anchor's `Lamports::add_lamports`
/// does to an account; refuses with `ArithmeticOverflow`,
/// leaving the balance as it was, where the sum does not fit in a `u64`.
pub fn add_lamports(lamports: &mut u64, amount: u64) -> (r: Result<(), ProgramErrorKind>)
    ensures
        old(lamports) + amount <= u64::MAX ==> r is Ok && *final(lamports) == old(lamports) + amount,
        old(lamports) + amount > u64::MAX ==> r == Err::<(), ProgramErrorKind>(
            ProgramErrorKind::ArithmeticOverflow,
        ) && *final(lamports) == *old(lamports),
{
    match lamports.checked_add(amount) {
        Some(v) => {
            *lamports = v;
            Ok(())
        },
        None => Err(ProgramErrorKind::ArithmeticOverflow),
    }
}

/// Takes `amount` lamports from a balance, as Anchor's
/// `Lamports::sub_lamports` does to an account; refuses with `ArithmeticOverflow`,
/// leaving the balance as it was, where the balance is smaller than `amount`.
pub fn sub_lamports(lamports: &mut u64, amount: u64) -> (r: Result<(), ProgramErrorKind>)
    ensures
        amount <= *old(lamports) ==> r is Ok && *final(lamports) == old(lamports) - amount,
        amount > *old(lamports) ==> r == Err::<(), ProgramErrorKind>(
            ProgramErrorKind::ArithmeticOverflow,
        ) && *final(lamports) == *old(lamports),
{
    match lamports.checked_sub(amount) {
        Some(v) => {
            *lamports = v;
            Ok(())
        },
        None => Err(ProgramErrorKind::ArithmeticOverflow),
    }
}

} // verus!
