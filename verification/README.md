# amm

A constant-product automated market maker for a pair of tokens x and y,
with a liquidity-provider (LP) token.

- `src/` is the verified library. For each instruction (`initialize`,
  `deposit`, `swap`, `withdraw`) it decides, from a snapshot of the pool's
  accounts, whether the request is accepted and which token movements carry
  it out. Each decision is proved equal to a spec function
  (`initialize_outcome`, `deposit_outcome`, `swap_outcome`,
  `withdraw_outcome`). `src/math.rs` holds the curve and share arithmetic,
  `src/seeds.rs` the signer seeds of the pool's configuration, and
  `src/laws.rs` properties that span operations: swaps never shrink the
  reserve product and cannot be round-tripped for profit, and deposits and
  withdrawals never lower the value of an LP token.
- `app/` is the on-chain program: the account structures, the stored
  configuration, and the token-program calls that execute the library's plans.
- `tests/` runs the library on the pool's scenarios.
