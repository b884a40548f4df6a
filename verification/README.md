# stake2wake

A wake-up staking program: a user stakes tokens on a daily wake-up
challenge and checks in once per day. A check-in from the wake-up time of day
to 15 minutes after it counts the day; the check-in that completes the last
day sends the stake back. A check-in outside that window fails the challenge
and slashes the stake to the treasury. A user may cancel early for a penalty
that falls from 20% to 5% of the stake as the challenge progresses, and the
treasury authority withdraws what the treasury has collected.

- `src/` is the verified library. Each instruction is a step from plain
  account data (addresses as 32 bytes, balances, the clock) to new account
  data, the token transfers to perform, and the record to log; refusals leave
  the accounts unchanged. `src/laws.rs` proves properties that span
  instructions: one check-in per day, the day count stays consistent, daily
  on-time check-ins return the stake exactly once at the end, a cancellation
  splits the stake, later cancellations cost no more, and the treasury's
  recorded total is backed by the tokens moved into its account.
- `app/` is the on-chain program around it: account validation, clock reads,
  token-program transfers and event logs.
