//! The token bucket's state: a single "zero time".
//!
//! The zero time is the instant at which the bucket would hold zero tokens
//! if no burst cap applied. It is kept in rate-scaled nanoseconds
//! (nanoseconds times the rate in units per nanosecond), so the balance at
//! time `now` is simply `now * rate - zero_time`, capped at the burst capacity.
use vstd::prelude::*;

use crate::units::{
    clamp_zero_time, max_int, min_int, saturating_amount, scaled_time, MAX_BURST,
    MAX_RATE, UNITS_PER_TOKEN, ZERO_TIME_BOUND,
};

verus! {

/// The balance, in token units, at time `now` of a bucket whose zero time is `zero`.
pub open spec fn bucket_balance(zero: int, rate: int, burst: int, now: int) -> int {
    min_int(now * rate - zero, burst)
}

/// The zero time that leaves `tokens` units in the bucket at time `now`.
pub open spec fn zero_time_for(tokens: int, rate: int, now: int) -> int {
    now * rate - tokens
}

/// How much a consumption takes from the available units.
pub enum ConsumePolicy {
    /// Take exactly this many units, or nothing when fewer are available.
    Exact(i128),
    /// Take whatever is available, up to this many units, provided at least
    /// one whole token is there.
    Saturating(i128),
}

/// The units `policy` takes when `available` units are in the bucket.
pub open spec fn policy_take(policy: ConsumePolicy, available: int) -> int {
    match policy {
        ConsumePolicy::Exact(want) => if available < want {
            0
        } else {
            want as int
        },
        ConsumePolicy::Saturating(want) => saturating_amount(available, want as int),
    }
}

/// The amount a policy asks for is not negative.
pub open spec fn policy_wf(policy: ConsumePolicy) -> bool {
    match policy {
        ConsumePolicy::Exact(want) => want >= 0,
        ConsumePolicy::Saturating(want) => want >= 0,
    }
}

impl ConsumePolicy {
    /// The units this policy takes when `available` units are in the bucket.
    pub fn take(&self, available: i128) -> (r: i128)
        requires
            policy_wf(*self),
        ensures
            r == policy_take(*self, available as int),
            0 <= r <= max_int(available as int, 0),
    {
        match self {
            ConsumePolicy::Exact(want) => if available < *want {
                0
            } else {
                *want
            },
            ConsumePolicy::Saturating(want) => {
                let positive = if available > 0 {
                    available
                } else {
                    0
                };
                if positive < UNITS_PER_TOKEN as i128 {
                    0
                } else if positive < *want {
                    positive
                } else {
                    *want
                }
            },
        }
    }
}

/// Storage policy abstraction used by [`TokenBucketStorage`].
///
/// A storage holds the bucket's zero time and gives exclusive access to it.
pub trait TimeStorage: Sized {
    /// The zero time currently held.
    spec fn zero_time(&self) -> int;

    /// Create a new storage policy with the provided zero time.
    fn new(zero_time: i128) -> (s: Self)
        ensures
            s.zero_time() == zero_time,
    ;

    /// Load the current zero time.
    fn load(&self) -> (r: i128)
        ensures
            r == self.zero_time(),
    ;

    /// Store the zero time.
    fn store(&mut self, value: i128)
        ensures
            final(self).zero_time() == value,
    ;

    /// Compare and exchange the zero time: `Ok` only when the held value was
    /// `current`, and then `new` is stored; on `Err` the storage is unchanged
    /// and the held value is returned. (A weak exchange may fail even when the
    /// held value was `current`.)
    fn compare_exchange_weak(&mut self, current: i128, new: i128) -> (r: Result<(), i128>)
        ensures
            r is Ok ==> old(self).zero_time() == current && final(self).zero_time() == new,
            r matches Err(actual) ==> actual == old(self).zero_time() && final(self).zero_time()
                == old(self).zero_time(),
    ;
}

/// Storage for a bucket owned by a single user at a time.
///
/// Access is exclusive, so a compare-and-exchange fails only when the held
/// value differs from the expected one.
pub struct LocalStorage {
    zero_time: i128,
}

impl TimeStorage for LocalStorage {
    closed spec fn zero_time(&self) -> int {
        self.zero_time as int
    }

    fn new(zero_time: i128) -> (s: Self) {
        LocalStorage { zero_time }
    }

    fn load(&self) -> (r: i128) {
        self.zero_time
    }

    fn store(&mut self, value: i128) {
        self.zero_time = value;
    }

    fn compare_exchange_weak(&mut self, current: i128, new: i128) -> (r: Result<(), i128>)
        ensures
            r is Ok <==> current == old(self).zero_time(),
    {
        if self.zero_time == current {
            self.zero_time = new;
            Ok(())
        } else {
            Err(self.zero_time)
        }
    }
}

/// Outcome of a consumption attempt that reports when the bucket was empty.
pub enum TokenAcquisition {
    /// This many token units were taken.
    Acquired(i128),
    /// Nothing was taken; the bucket's zero time (in rate-scaled nanoseconds) is given.
    ZeroedAt(i128),
}

/// Primitive storage for a token bucket using a policy provided zero time.
///
/// Heavily inspired by folly's TokenBucket algorithm.
pub struct TokenBucketStorage<S> {
    inner: S,
}

impl<S: TimeStorage> TokenBucketStorage<S> {
    /// The zero time held, in rate-scaled nanoseconds.
    pub closed spec fn zero_time(&self) -> int {
        self.inner.zero_time()
    }

    /// The held zero time lies within the representable range.
    pub open spec fn wf(&self) -> bool {
        -ZERO_TIME_BOUND <= self.zero_time() <= ZERO_TIME_BOUND
    }

    /// Create a new storage object around the provided storage; a zero time
    /// outside the representable range is brought to its nearest end.
    pub fn new(storage: S) -> (r: Self)
        ensures
            r.wf(),
            r.zero_time() == clamp_zero_time(storage.zero_time()),
    {
        let mut storage = storage;
        let z = storage.load();
        if z < -ZERO_TIME_BOUND {
            storage.store(-ZERO_TIME_BOUND);
        } else if z > ZERO_TIME_BOUND {
            storage.store(ZERO_TIME_BOUND);
        }
        Self { inner: storage }
    }

    /// Reset the bucket to a given zero time (brought into the representable range).
    pub fn reset(&mut self, zero_time: i128)
        ensures
            final(self).wf(),
            final(self).zero_time() == clamp_zero_time(zero_time as int),
    {
        if zero_time < -ZERO_TIME_BOUND {
            self.inner.store(-ZERO_TIME_BOUND);
        } else if zero_time > ZERO_TIME_BOUND {
            self.inner.store(ZERO_TIME_BOUND);
        } else {
            self.inner.store(zero_time);
        }
    }

    /// Current token balance, in token units, given a rate, burst size and current time.
    pub fn balance(&self, rate: u64, burst_size: u128, now: u64) -> (r: i128)
        requires
            self.wf(),
            1 <= rate <= MAX_RATE,
            1 <= burst_size <= MAX_BURST,
        ensures
            r == bucket_balance(self.zero_time(), rate as int, burst_size as int, now as int),
            r <= burst_size,
    {
        let zt = self.inner.load();
        let raw = scaled_time(now, rate) - zt;
        let cap = burst_size as i128;
        if raw < cap {
            raw
        } else {
            cap
        }
    }

    /// The policy decides, from the currently available token units, how
    /// many to consume. The function returns the amount actually consumed.
    pub fn consume(
        &mut self,
        rate: u64,
        burst_size: u128,
        now: u64,
        policy: ConsumePolicy,
    ) -> (r: i128)
        requires
            old(self).wf(),
            1 <= rate <= MAX_RATE,
            1 <= burst_size <= MAX_BURST,
            policy_wf(policy),
        ensures
            final(self).wf(),
            ({
                let avail = bucket_balance(
                    old(self).zero_time(),
                    rate as int,
                    burst_size as int,
                    now as int,
                );
                &&& r == policy_take(policy, avail)
                &&& r == 0 ==> final(self).zero_time() == old(self).zero_time()
                &&& r != 0 ==> final(self).zero_time() == zero_time_for(avail - r, rate as int, now as int)
            }),
    {
        let available = self.balance(rate, burst_size, now);
        let consumed = policy.take(available);
        if consumed == 0 {
            return 0;
        }
        let tokens_new = available - consumed;
        let zero_time_new = scaled_time(now, rate) - tokens_new;
        self.inner.store(zero_time_new);
        consumed
    }

    /// Like [`consume`](Self::consume), but when nothing is consumed reports
    /// the zero time at which the bucket was observed.
    pub fn consume2(
        &mut self,
        rate: u64,
        burst_size: u128,
        now: u64,
        policy: ConsumePolicy,
    ) -> (r: TokenAcquisition)
        requires
            old(self).wf(),
            1 <= rate <= MAX_RATE,
            1 <= burst_size <= MAX_BURST,
            policy_wf(policy),
        ensures
            final(self).wf(),
            ({
                let avail = bucket_balance(
                    old(self).zero_time(),
                    rate as int,
                    burst_size as int,
                    now as int,
                );
                match r {
                    TokenAcquisition::Acquired(c) => {
                        &&& c != 0
                        &&& c == policy_take(policy, avail)
                        &&& final(self).zero_time() == zero_time_for(avail - c, rate as int, now as int)
                    },
                    TokenAcquisition::ZeroedAt(z) => {
                        &&& policy_take(policy, avail) == 0
                        &&& z == old(self).zero_time()
                        &&& final(self).zero_time() == old(self).zero_time()
                    },
                }
            }),
    {
        let zero_time_old = self.inner.load();
        let available = self.balance(rate, burst_size, now);
        let consumed = policy.take(available);
        if consumed == 0 {
            return TokenAcquisition::ZeroedAt(zero_time_old);
        }
        let tokens_new = available - consumed;
        let zero_time_new = scaled_time(now, rate) - tokens_new;
        self.inner.store(zero_time_new);
        TokenAcquisition::Acquired(consumed)
    }

    /// Return token units back to the bucket (a negative amount borrows from
    /// the future). The resulting zero time is brought into the representable
    /// range and returned.
    pub fn return_tokens(&mut self, tokens: i128) -> (r: i128)
        requires
            old(self).wf(),
        ensures
            final(self).wf(),
            r == final(self).zero_time(),
            r == clamp_zero_time(old(self).zero_time() - tokens),
    {
        let zero_time_old = self.inner.load();
        // `zero_time_old - tokens` may not fit in `i128`; compare first.
        let zero_time_new = if tokens >= 0 {
            if tokens > zero_time_old + ZERO_TIME_BOUND {
                -ZERO_TIME_BOUND
            } else {
                zero_time_old - tokens
            }
        } else {
            if tokens < zero_time_old - ZERO_TIME_BOUND {
                ZERO_TIME_BOUND
            } else {
                zero_time_old - tokens
            }
        };
        self.inner.store(zero_time_new);
        zero_time_new
    }

    /// Time, in rate-scaled nanoseconds, when the bucket will have `target`
    /// token units available (ignoring the burst cap).
    pub fn time_when_bucket(&self, target: i128) -> (r: i128)
        requires
            self.wf(),
            -ZERO_TIME_BOUND <= target <= ZERO_TIME_BOUND,
        ensures
            r == self.zero_time() + target,
    {
        self.inner.load() + target
    }
}

} // verus!
