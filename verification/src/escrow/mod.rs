//! An escrow: the maker locks tokens of mint A in a vault and names a price
//! in tokens of mint B; a taker pays the price and receives the locked
//! tokens; the maker may close the escrow and take back what is left.

pub mod state;
pub mod make_escrow;
pub mod take_escrow;
pub mod close_escrow;
