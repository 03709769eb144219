# anchor_programs

The account logic of four Solana programs written with Anchor, verified
with Verus:

- `escrow`: a maker locks tokens of one mint and names a price in another;
  a taker pays it; the maker can close the escrow.
- `flash_loan`: `borrow` lends from a treasury only inside a transaction
  that ends with the program's `repay`, whose fourth and fifth account
  slots hold the borrower's and the treasury's token accounts.
- `staking`: a pool that pays rewards at a fixed rate, shared in proportion
  to the amounts staked.
- `vault`: each user keeps lamports in a vault at an address derived from
  the user's key.

Layout:

- `src/` is the verified library. Each instruction handler takes the
  accounts as plain values (`src/account.rs`), changes the programs' own
  data, and returns the token or lamport transfers it needs as
  `cpi::CpiRequest`s. `src/runtime.rs` holds the trusted wrappers over the
  Solana runtime (the clock and the instructions sysvar). Properties that
  span several instructions are proved in `staking/laws.rs`,
  `flash_loan/laws.rs` and `vault/withdraw_lamports.rs`.
- `tests/` runs the library on concrete accounts.
- `app/` is the Anchor side: account validation (`#[derive(Accounts)]`),
  the programs' entry points, and the execution of the requested transfers.
