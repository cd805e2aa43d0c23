# dispute_resolution

A decentralized court for token-backed disputes. Parties raise a dispute and
pay a fee into the court treasury, an administrator approves it and fixes the
stake a juror must put up, holders of a juror NFT stake to become ready jurors,
the administrator draws a panel, drawn jurors vote, and jurors claim their
stakes back.

Layout:

- `src/` — the verified library (Verus). `instructions.rs` holds each
  instruction as a function from the accounts it reads, the signer and the
  clock to the new account state and the amount of tokens to move, with an
  exact contract; `laws.rs` proves what holds across instructions (the dispute
  invariant, the schedule and life cycle, who gets a stake back);
  `accounts.rs` holds the checks on each instruction's accounts and the
  addresses the program derives for them;
  `state.rs`, `errors.rs` and `pubkey.rs` hold the account data;
  `solana.rs` and `metadata.rs` hold the calls into the runtime crates
  (program derived addresses, the system program's address, NFT metadata).
- `tests/` — tests of the library on concrete values.
- `app/` — the on-chain program: account loading and creation, the clock, and
  the token transfers, around calls into the library.
