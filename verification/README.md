# gardal

A token bucket rate limiter whose arithmetic is exact and proved correct with
Verus.

Tokens are added to a bucket at a steady rate, up to a burst capacity;
operations consume tokens, may report how long to wait when too few are
there, or may borrow from future capacity and report when the debt is paid.

## Exact units

Time is counted in nanoseconds and token quantities in *token units*:
`UNITS_PER_TOKEN` (3.6 × 10¹²) units make one token, which is what a bucket
refilling at one token per hour gains each nanosecond. Every rate built from
a whole number of tokens per second, minute or hour therefore refills by a
whole number of units per nanosecond, and balances, waits and refills are
computed without rounding (waits are rounded up to whole nanoseconds).

## Layout

- `src/` — the verified library
  - `units.rs`: units, bounds and exact helper arithmetic
  - `limit.rs`: `RateLimit`, rate and burst configuration
  - `storage.rs`: the bucket state (its "zero time") and the storage policy
  - `bucket.rs`: `TokenBucket`; every operation that reads the clock has an
    `_at` twin that takes the time as an argument and has an exact contract
  - `tokens.rs`, `error.rs`, `clock.rs`, `manual_clock.rs`, `time.rs`:
    consumed tokens, errors, clocks and durations
  - `throttle.rs`: the decisions behind rate-limited streams
  - `laws.rs`: properties across operations and over time, proved
- `app/` — async stream adapters (tokio timers, `futures::Stream`) and a
  bucket shared between threads, driving the verified decisions
- `tests/` — tests of the library
