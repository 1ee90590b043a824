//! A token bucket rate limiter whose arithmetic is exact and verified.
//!
//! - [`TokenBucket`]: the token bucket, with pluggable storage and clock
//! - [`RateLimit`]: configuration for rate and burst limits
//! - [`Clock`] and its implementations: time sources, in nanoseconds
//! - [`throttle`]: the decisions behind rate-limited streams
//! - [`laws`]: properties that hold across operations and over time
//!
//! Balances are counted in token units ([`UNITS_PER_TOKEN`] units make a
//! token), so that rates per second, minute and hour refill by whole units
//! every nanosecond and no rounding ever happens inside the bucket.
pub mod bucket;
pub mod clock;
pub mod error;
pub mod laws;
pub mod limit;
pub mod manual_clock;
pub mod storage;
pub mod throttle;
pub mod time;
pub mod tokens;
pub mod units;

pub use bucket::{TokenBucket, UNLIMITED_BUCKET};
pub use clock::{Clock, FastClock, Nanos, QuantaClock, StdClock, TokioClock};
pub use error::{ExceededBurstCapacity, RateLimited};
pub use limit::RateLimit;
pub use manual_clock::ManualClock;
pub use storage::{ConsumePolicy, LocalStorage, TimeStorage, TokenAcquisition, TokenBucketStorage};
pub use tokens::Tokens;
pub use units::{NANOS_PER_SECOND, UNITS_PER_TOKEN};
