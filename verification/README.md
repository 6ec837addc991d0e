# anchor_staking

The decisions of an NFT staking program, verified with Verus.

- `src/` is the library: the accounts' state (`state`), the addresses
  (`key`), the program's errors (`error`), the seeds a stake record's address
  is derived from (`seeds`), one module per instruction under `instructions/`
  and the laws that span instructions (`laws`).
- `app/` is the on-chain program around it: the account declarations, the
  token and metadata invocations and the clock. It hands the library what it
  read of the accounts and writes back what the library decided.
