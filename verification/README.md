# cbmm

A verified library for the Constant Burn Market Maker: a constant product market maker
on a real quote reserve `A` plus a virtual reserve `V` against a virtual base token `B`,
whose base supply can be burned by allowed users at a rate the pool's fees pay for.

- `src/helpers/math.rs`: fees, swap outputs, burn amounts and the reserves a top-up aims for.
- `src/helpers/rate_limit.rs`: the burn rate limiter (decaying stress and a geometric queue).
- `src/state.rs`: platform configuration, pools, virtual token accounts and burn allowances.
- `src/instructions/`: the decisions of each instruction, from accounts to accounts and events.
- `src/cpmm_poc/`: the constant product market maker with a central state, whose burns leave a top-up owed to the pool.
- `src/laws.rs`: properties that span operations (curve product, conservation of tokens,
  solvency after a top-up, rate limits, accepted configurations).
- `src/clock.rs`, `src/std_ints.rs`: the runtime clock and the integer operations of std
  that the library relies on.
- `app/`: the on-chain program around the library (account validation, token transfers,
  the clock and events).
