# escrow

The decisions of a token escrow program for Solana, verified with Verus.

A sender opens a deal for an exact amount of one mint's tokens to a receiver,
funds a vault that the deal's state account controls, and then releases the
deal to the receiver or cancels it and takes the tokens back.

- `src/` is the verified library: addresses and program-derived-address seeds
  (`address`, `pda`), errors (`error`), the deal record and its account encoding
  (`state`), the account views and the account constraints (`accounts`), the
  instructions (`instructions/`, with the entry points in `lib.rs`), the
  instruction data (`instruction`), and the laws of a deal's life (`lifecycle`).
- `app/` is the on-chain program around it: it reads the accounts, makes the
  calls into the system and token programs that the library asks for, and
  stores what the library decides.
- `tests/` runs the instructions end to end against an in-memory ledger and
  checks the library's functions on concrete values.
