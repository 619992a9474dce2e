# solana_cpmm_program

A constant-product automated market maker (Uniswap V2 style) for the Solana
runtime, written in Verus.

- `src/` is the verified library: the pool arithmetic (`amm.rs`, `math.rs`),
  the state and instruction codecs (`state.rs`, `cmd.rs`), the account checks
  and the instruction handlers (`instructions/`), the dispatcher
  (`processor.rs`) and the properties that span functions (`laws.rs`).
  Each handler is a step function: given the accounts as they stand, it either
  refuses the instruction, asks for cross-program invocations and names the
  next step, or finishes with the account data to write.
- `src/chain.rs` holds the calls into the address, SDK id and SPL token
  interface crates (derivation, account layouts, well-known program ids),
  with the contracts assumed of them.
- `app/` is the on-chain entrypoint: it reads the sysvars, performs the
  invocations the library asks for and writes the results.
- `tests/` runs the library inside an in-memory ledger that stands for the
  runtime, with the system, token and associated token account programs.
