use std::time::Duration;

use vstd::prelude::*;

use crate::clock::{Clock, Nanos, StdClock};
use crate::error::{ExceededBurstCapacity, RateLimited};
use crate::limit::RateLimit;
use crate::storage::{
    bucket_balance, zero_time_for, ConsumePolicy, LocalStorage, TimeStorage, TokenAcquisition, TokenBucketStorage,
};
use crate::time::{duration_from_nanos, duration_nanos};
use crate::tokens::Tokens;
use crate::units::{
    clamp_zero_time, max_int, min_int, nanos_covering, nanos_to_cover, saturating_amount, scaled_time, MAX_BURST,
    UNITS_PER_TOKEN, ZERO_TIME_BOUND,
};

verus! {

/// `likely_stable::unlikely` is a branch hint that returns its argument.
pub assume_specification[ likely_stable::unlikely ](b: bool) -> (r: bool)
    ensures
        r == b,
;

/// What an exact consumption takes from a balance: everything asked for, or nothing.
pub open spec fn exact_take(balance: int, want: int) -> int {
    if balance < want {
        0
    } else {
        want
    }
}

/// What a saturating consumption takes from a balance: whatever is there
/// (fractions included), up to `want`, once at least one whole token is there.
pub open spec fn saturating_take(balance: int, want: int) -> int {
    saturating_amount(balance, want)
}

/// The zero time after `take` units are taken at time `now` (unchanged when nothing is taken).
pub open spec fn zero_after_take(zero: int, rate: int, burst: int, now: int, take: int) -> int {
    if take == 0 {
        zero
    } else {
        zero_time_for(bucket_balance(zero, rate, burst, now) - take, rate, now)
    }
}

/// The zero time after `want` units are consumed at time `now`, borrowing from
/// the future whatever the balance does not cover.
pub open spec fn zero_after_borrow(zero: int, rate: int, burst: int, now: int, want: int) -> int {
    clamp_zero_time(zero_time_for(bucket_balance(zero, rate, burst, now) - want, rate, now))
}

/// The units held by an optional `Tokens` (zero for `None`).
pub open spec fn option_units(t: Option<Tokens>) -> int {
    match t {
        Some(t) => t.units_view(),
        None => 0,
    }
}

/// Wait, in nanoseconds, suggested when `want` units could not be taken from a
/// bucket with zero time `zero` at `now`: the time until that many units have
/// accumulated, or `u64::MAX` when the request exceeds what can ever accumulate
/// from a full bucket at this moment.
pub open spec fn retry_wait(zero: int, rate: int, now: int, want: int) -> int {
    let missing = zero - now * rate + want;
    if missing > 0 {
        nanos_to_cover(missing, rate)
    } else {
        u64::MAX as int
    }
}

/// An exact consumption of `want` units at `now`: `taken` units leave the bucket
/// and the zero time moves from `old_zero` to `new_zero`.
pub open spec fn exact_consumption(
    old_zero: int,
    rate: int,
    burst: int,
    now: int,
    want: int,
    new_zero: int,
    taken: int,
) -> bool {
    let balance = bucket_balance(old_zero, rate, burst, now);
    &&& taken == exact_take(balance, want)
    &&& new_zero == zero_after_take(old_zero, rate, burst, now, taken)
}

/// A saturating consumption of up to `want` units at `now`.
pub open spec fn saturating_consumption(
    old_zero: int,
    rate: int,
    burst: int,
    now: int,
    want: int,
    new_zero: int,
    taken: int,
) -> bool {
    let balance = bucket_balance(old_zero, rate, burst, now);
    &&& taken == saturating_take(balance, want)
    &&& new_zero == zero_after_take(old_zero, rate, burst, now, taken)
}

/// An attempt at taking `want` units at `now` that reports how long to wait on failure.
pub open spec fn attempted_consumption(
    old_zero: int,
    rate: int,
    burst: int,
    now: int,
    want: int,
    new_zero: int,
    r: Result<Tokens, RateLimited>,
) -> bool {
    let balance = bucket_balance(old_zero, rate, burst, now);
    match r {
        Ok(t) => {
            &&& balance >= want
            &&& t.units_view() == want
            &&& new_zero == zero_time_for(balance - want, rate, now)
        },
        Err(e) => {
            &&& balance < want
            &&& new_zero == old_zero
            &&& e.retry_time().nanos_view() == retry_wait(old_zero, rate, now, want)
        },
    }
}

/// A consumption of `want` units at `now` that borrows what the balance lacks;
/// `wait` is `None` when nothing was borrowed, else the time until the debt is paid.
pub open spec fn borrowing_consumption(
    old_zero: int,
    rate: int,
    burst: int,
    now: int,
    want: int,
    new_zero: int,
    wait: Option<Nanos>,
) -> bool {
    let balance = bucket_balance(old_zero, rate, burst, now);
    &&& new_zero == zero_after_borrow(old_zero, rate, burst, now, want)
    &&& (wait is None <==> balance >= want)
    &&& (wait matches Some(n) ==> n.nanos_view() == nanos_to_cover(new_zero - now * rate, rate))
}

/// A consumption of `want` units, capped at the burst capacity, that borrows
/// what the balance lacks; `taken` is `None` when nothing was borrowed, else the
/// capped amount, and `wait_nanos` the time until the debt is paid (zero when
/// nothing was borrowed).
pub open spec fn capped_borrowing_consumption(
    old_zero: int,
    rate: int,
    burst: int,
    now: int,
    want: int,
    new_zero: int,
    taken: Option<Tokens>,
    wait_nanos: int,
) -> bool {
    let capped = min_int(want, burst);
    let balance = bucket_balance(old_zero, rate, burst, now);
    &&& new_zero == zero_after_borrow(old_zero, rate, burst, now, capped)
    &&& (taken is None <==> balance >= capped)
    &&& (taken is None ==> wait_nanos == 0)
    &&& (taken matches Some(t) ==> t.units_view() == capped && wait_nanos == nanos_to_cover(
        new_zero - now * rate,
        rate,
    ))
}

/// A token bucket rate limiter with configurable storage and clock implementations.
///
/// Tokens are added to the bucket at a steady rate up to the burst capacity,
/// and operations consume tokens. When the bucket is empty, operations are
/// rate limited; borrowing operations may take the bucket into debt.
///
/// All amounts are exact: balances are in token units (see
/// [`UNITS_PER_TOKEN`](crate::UNITS_PER_TOKEN)) and times in nanoseconds.
pub struct TokenBucket<S = LocalStorage, C = StdClock> {
    bucket: TokenBucketStorage<S>,
    clock: C,
    limit: RateLimit,
}

/// No bucket: a stream or caller given this applies no rate limit.
pub const UNLIMITED_BUCKET: Option<TokenBucket> = None;

impl TokenBucket<LocalStorage, StdClock> {
    /// Creates a new token bucket with the specified rate limit using the
    /// standard clock. The bucket starts empty at the clock's origin.
    pub fn new(limit: RateLimit) -> (r: Self)
        requires
            limit.wf(),
        ensures
            r.wf(),
            r.limit_view() == limit,
            r.zero_time() == 0,
    {
        TokenBucket::<LocalStorage, StdClock>::from_parts(limit, StdClock::default())
    }
}

impl<C: Clock> TokenBucket<LocalStorage, C> {
    /// Creates a new token bucket with a custom clock implementation. The
    /// bucket is empty at the moment of creation.
    pub fn with_clock(limit: RateLimit, clock: C) -> (r: Self)
        requires
            limit.wf(),
        ensures
            r.wf(),
            r.limit_view() == limit,
            r.clock_view() == clock,
            exists|now: u64|
                #![trigger bucket_balance(r.zero_time(), limit.rate_view(), limit.burst_view(), now as int)]
                clock.reads(now) && r.zero_time() == now * limit.rate_view() && bucket_balance(
                    r.zero_time(),
                    limit.rate_view(),
                    limit.burst_view(),
                    now as int,
                ) == 0,
    {
        let now = clock.now();
        let zero = scaled_time(now, limit.rate_units());
        let storage = LocalStorage::new(zero);
        let r = Self { bucket: TokenBucketStorage::new(storage), clock, limit };
        assert(bucket_balance(r.zero_time(), limit.rate_view(), limit.burst_view(), now as int) == 0);
        r
    }
}

impl<S: TimeStorage, C: Clock> TokenBucket<S, C> {
    /// The bucket's zero time, in rate-scaled nanoseconds.
    pub closed spec fn zero_time(&self) -> int {
        self.bucket.zero_time()
    }

    /// The bucket's rate limit.
    pub closed spec fn limit_view(&self) -> RateLimit {
        self.limit
    }

    /// The bucket's clock.
    pub closed spec fn clock_view(&self) -> C {
        self.clock
    }

    /// Rate in units per nanosecond.
    pub open spec fn rate(&self) -> int {
        self.limit_view().rate_view()
    }

    /// Burst capacity in units.
    pub open spec fn burst_cap(&self) -> int {
        self.limit_view().burst_view()
    }

    /// The balance, in units, at time `now`.
    pub open spec fn balance_view(&self, now: int) -> int {
        bucket_balance(self.zero_time(), self.rate(), self.burst_cap(), now)
    }

    /// The bucket's limit is valid and its zero time representable.
    pub closed spec fn wf(&self) -> bool {
        &&& self.limit.wf()
        &&& self.bucket.wf()
    }

    /// Exposes what `wf` holds for the limit.
    pub proof fn lemma_wf_limit(&self)
        requires
            self.wf(),
        ensures
            self.limit_view().wf(),
            -ZERO_TIME_BOUND <= self.zero_time() <= ZERO_TIME_BOUND,
    {
    }

    /// Creates a token bucket from custom storage and clock implementations.
    /// The bucket is empty at the clock's origin (time zero).
    pub fn from_parts(limit: RateLimit, clock: C) -> (r: Self)
        requires
            limit.wf(),
        ensures
            r.wf(),
            r.limit_view() == limit,
            r.clock_view() == clock,
            r.zero_time() == 0,
    {
        let storage = S::new(0);
        Self { bucket: TokenBucketStorage::new(storage), clock, limit }
    }

    /// Updates the rate limit configuration at time `now`, preserving the
    /// tokens available then (a debt is forgiven).
    pub fn reset_at(&mut self, limit: RateLimit, now: u64)
        requires
            old(self).wf(),
            limit.wf(),
        ensures
            final(self).wf(),
            final(self).limit_view() == limit,
            final(self).clock_view() == old(self).clock_view(),
            final(self).zero_time() == zero_time_for(
                max_int(old(self).balance_view(now as int), 0),
                limit.rate_view(),
                now as int,
            ),
    {
        let balance = self.bucket.balance(self.limit.rate_units(), self.limit.burst_units(), now);
        let available = if balance > 0 {
            balance
        } else {
            0
        };
        self.limit = limit;
        self.set_capacity(available, now);
    }

    /// Updates the rate limit configuration while preserving available tokens.
    pub fn reset(&mut self, limit: RateLimit)
        requires
            old(self).wf(),
            limit.wf(),
        ensures
            final(self).wf(),
            final(self).limit_view() == limit,
            final(self).clock_view() == old(self).clock_view(),
            exists|now: u64|
                #![trigger old(self).balance_view(now as int)]
                old(self).clock_view().reads(now) && final(self).zero_time() == zero_time_for(
                    max_int(old(self).balance_view(now as int), 0),
                    limit.rate_view(),
                    now as int,
                ),
    {
        let now = self.clock.now();
        self.reset_at(limit, now);
        assert(old(self).balance_view(now as int) == old(self).balance_view(now as int));
    }

    /// Consumes the bucket and returns a new one with the rate limit updated
    /// at time `now`, preserving the tokens available then.
    pub fn update_limit_at(self, limit: RateLimit, now: u64) -> (r: Self)
        requires
            self.wf(),
            limit.wf(),
        ensures
            r.wf(),
            r.limit_view() == limit,
            r.clock_view() == self.clock_view(),
            r.zero_time() == zero_time_for(
                max_int(self.balance_view(now as int), 0),
                limit.rate_view(),
                now as int,
            ),
    {
        let available = {
            let balance = self.bucket.balance(
                self.limit.rate_units(),
                self.limit.burst_units(),
                now,
            );
            if balance > 0 {
                balance
            } else {
                0
            }
        };
        let mut new = Self { bucket: self.bucket, clock: self.clock, limit };
        new.set_capacity(available, now);
        new
    }

    /// Consumes the bucket and returns a new one with updated rate limits,
    /// preserving available tokens.
    pub fn update_limit(self, limit: RateLimit) -> (r: Self)
        requires
            self.wf(),
            limit.wf(),
        ensures
            r.wf(),
            r.limit_view() == limit,
            r.clock_view() == self.clock_view(),
            exists|now: u64|
                #![trigger self.balance_view(now as int)]
                self.clock_view().reads(now) && r.zero_time() == zero_time_for(
                    max_int(self.balance_view(now as int), 0),
                    limit.rate_view(),
                    now as int,
                ),
    {
        let now = self.clock.now();
        let ghost before = self;
        let r = self.update_limit_at(limit, now);
        assert(before.balance_view(now as int) == before.balance_view(now as int));
        r
    }

    /// Set the number of token units currently available in the bucket.
    fn set_capacity(&mut self, tokens: i128, now: u64)
        requires
            old(self).wf(),
            0 <= tokens <= MAX_BURST,
        ensures
            final(self).wf(),
            final(self).limit_view() == old(self).limit_view(),
            final(self).clock_view() == old(self).clock_view(),
            final(self).zero_time() == zero_time_for(tokens as int, old(self).rate(), now as int),
    {
        let zero = scaled_time(now, self.limit.rate_units()) - tokens;
        self.bucket.reset(zero);
    }

    /// Attempts to consume exactly `to_consume` tokens at time `now`.
    ///
    /// Returns `Some(tokens)` if successful, or `None` (leaving the bucket
    /// unchanged) if fewer tokens are available.
    pub fn consume_at(&mut self, to_consume: u32, now: u64) -> (r: Option<Tokens>)
        requires
            old(self).wf(),
            to_consume > 0,
        ensures
            final(self).wf(),
            final(self).limit_view() == old(self).limit_view(),
            final(self).clock_view() == old(self).clock_view(),
            r matches Some(t) ==> t.wf(),
            exact_consumption(
                old(self).zero_time(),
                old(self).rate(),
                old(self).burst_cap(),
                now as int,
                to_consume * UNITS_PER_TOKEN,
                final(self).zero_time(),
                option_units(r),
            ),
    {
        let want: i128 = (to_consume as i128) * 3_600_000_000_000;
        let consumed = self.bucket.consume(
            self.limit.rate_units(),
            self.limit.burst_units(),
            now,
            ConsumePolicy::Exact(want),
        );
        Tokens::new_checked(consumed as u128)
    }

    /// Attempts to consume exactly the specified number of tokens.
    ///
    /// Returns `Some(tokens)` if successful, or `None` (leaving the bucket
    /// unchanged) if fewer tokens are available.
    pub fn consume(&mut self, to_consume: u32) -> (r: Option<Tokens>)
        requires
            old(self).wf(),
            to_consume > 0,
        ensures
            final(self).wf(),
            final(self).limit_view() == old(self).limit_view(),
            final(self).clock_view() == old(self).clock_view(),
            r matches Some(t) ==> t.wf(),
            exists|now: u64|
                old(self).clock_view().reads(now) && #[trigger] exact_consumption(
                    old(self).zero_time(),
                    old(self).rate(),
                    old(self).burst_cap(),
                    now as int,
                    to_consume * UNITS_PER_TOKEN,
                    final(self).zero_time(),
                    option_units(r),
                ),
    {
        let now = self.clock.now();
        self.consume_at(to_consume, now)
    }

    /// Attempts to consume exactly one token.
    pub fn consume_one(&mut self) -> (r: Option<Tokens>)
        requires
            old(self).wf(),
        ensures
            final(self).wf(),
            final(self).limit_view() == old(self).limit_view(),
            final(self).clock_view() == old(self).clock_view(),
            r matches Some(t) ==> t.wf(),
            exists|now: u64|
                old(self).clock_view().reads(now) && #[trigger] exact_consumption(
                    old(self).zero_time(),
                    old(self).rate(),
                    old(self).burst_cap(),
                    now as int,
                    UNITS_PER_TOKEN as int,
                    final(self).zero_time(),
                    option_units(r),
                ),
    {
        self.consume(1)
    }

    /// Attempts to consume tokens at time `now`, reporting how long to wait
    /// when rate limited.
    pub fn try_consume_at(&mut self, to_consume: u32, now: u64) -> (r: Result<
        Tokens,
        RateLimited,
    >)
        requires
            old(self).wf(),
            to_consume > 0,
        ensures
            final(self).wf(),
            final(self).limit_view() == old(self).limit_view(),
            final(self).clock_view() == old(self).clock_view(),
            r matches Ok(t) ==> t.wf(),
            r matches Err(e) ==> e.retry_time().wf(),
            attempted_consumption(
                old(self).zero_time(),
                old(self).rate(),
                old(self).burst_cap(),
                now as int,
                to_consume * UNITS_PER_TOKEN,
                final(self).zero_time(),
                r,
            ),
    {
        let want: i128 = (to_consume as i128) * 3_600_000_000_000;
        let rate = self.limit.rate_units();
        let acquired = self.bucket.consume2(
            rate,
            self.limit.burst_units(),
            now,
            ConsumePolicy::Exact(want),
        );
        match acquired {
            TokenAcquisition::Acquired(consumed) => Ok(Tokens::new_checked(consumed as u128).unwrap()),
            TokenAcquisition::ZeroedAt(zero_time) => {
                let missing = zero_time - scaled_time(now, rate) + want;
                let wait = if missing > 0 {
                    nanos_covering(missing, rate)
                } else {
                    u64::MAX
                };
                Err(RateLimited::after(Nanos::new_checked(wait).unwrap()))
            },
        }
    }

    /// Attempts to consume tokens, reporting how long to wait when rate limited.
    pub fn try_consume(&mut self, to_consume: u32) -> (r: Result<Tokens, RateLimited>)
        requires
            old(self).wf(),
            to_consume > 0,
        ensures
            final(self).wf(),
            final(self).limit_view() == old(self).limit_view(),
            final(self).clock_view() == old(self).clock_view(),
            r matches Ok(t) ==> t.wf(),
            r matches Err(e) ==> e.retry_time().wf(),
            exists|now: u64|
                old(self).clock_view().reads(now) && #[trigger] attempted_consumption(
                    old(self).zero_time(),
                    old(self).rate(),
                    old(self).burst_cap(),
                    now as int,
                    to_consume * UNITS_PER_TOKEN,
                    final(self).zero_time(),
                    r,
                ),
    {
        let now = self.clock.now();
        self.try_consume_at(to_consume, now)
    }

    /// Attempts to consume one token, reporting how long to wait when rate limited.
    pub fn try_consume_one(&mut self) -> (r: Result<Tokens, RateLimited>)
        requires
            old(self).wf(),
        ensures
            final(self).wf(),
            final(self).limit_view() == old(self).limit_view(),
            final(self).clock_view() == old(self).clock_view(),
            r matches Ok(t) ==> t.wf(),
            r matches Err(e) ==> e.retry_time().wf(),
            exists|now: u64|
                old(self).clock_view().reads(now) && #[trigger] attempted_consumption(
                    old(self).zero_time(),
                    old(self).rate(),
                    old(self).burst_cap(),
                    now as int,
                    UNITS_PER_TOKEN as int,
                    final(self).zero_time(),
                    r,
                ),
    {
        self.try_consume(1)
    }

    /// Consumes up to the requested number of tokens at time `now`,
    /// returning whatever is available, fractions of a token included
    /// (`None`, taking nothing, when less than one whole token is there).
    pub fn saturating_consume_at(&mut self, to_consume: u32, now: u64) -> (r: Option<Tokens>)
        requires
            old(self).wf(),
            to_consume > 0,
        ensures
            final(self).wf(),
            final(self).limit_view() == old(self).limit_view(),
            final(self).clock_view() == old(self).clock_view(),
            r matches Some(t) ==> t.wf() && t.units_view() >= UNITS_PER_TOKEN,
            saturating_consumption(
                old(self).zero_time(),
                old(self).rate(),
                old(self).burst_cap(),
                now as int,
                to_consume * UNITS_PER_TOKEN,
                final(self).zero_time(),
                option_units(r),
            ),
    {
        let want: i128 = (to_consume as i128) * 3_600_000_000_000;
        let consumed = self.saturating_consume_inner(want, now);
        Tokens::new_checked(consumed as u128)
    }

    /// Consumes up to the requested number of tokens, returning whatever is
    /// available, fractions of a token included (`None`, taking nothing, when
    /// less than one whole token is there).
    pub fn saturating_consume(&mut self, to_consume: u32) -> (r: Option<Tokens>)
        requires
            old(self).wf(),
            to_consume > 0,
        ensures
            final(self).wf(),
            final(self).limit_view() == old(self).limit_view(),
            final(self).clock_view() == old(self).clock_view(),
            r matches Some(t) ==> t.wf() && t.units_view() >= UNITS_PER_TOKEN,
            exists|now: u64|
                old(self).clock_view().reads(now) && #[trigger] saturating_consumption(
                    old(self).zero_time(),
                    old(self).rate(),
                    old(self).burst_cap(),
                    now as int,
                    to_consume * UNITS_PER_TOKEN,
                    final(self).zero_time(),
                    option_units(r),
                ),
    {
        let now = self.clock.now();
        self.saturating_consume_at(to_consume, now)
    }

    /// Returns unused token units to the bucket or manually adds them.
    ///
    /// The balance never rises above the burst capacity, however many units are added.
    pub fn add_tokens(&mut self, tokens: u128)
        requires
            old(self).wf(),
        ensures
            final(self).wf(),
            final(self).limit_view() == old(self).limit_view(),
            final(self).clock_view() == old(self).clock_view(),
            final(self).zero_time() == clamp_zero_time(old(self).zero_time() - tokens),
    {
        // Anything beyond twice the bound takes the zero time to its lower end anyway.
        let amount: i128 = if tokens > 2 * (ZERO_TIME_BOUND as u128) {
            2 * ZERO_TIME_BOUND
        } else {
            tokens as i128
        };
        self.bucket.return_tokens(amount);
    }

    /// Consumes tokens at time `now`, borrowing from future capacity.
    ///
    /// Returns `Err` (leaving the bucket unchanged) when more tokens are asked
    /// for than the burst capacity; `Ok(None)` when the balance covered the
    /// request; `Ok(Some(wait))` when the bucket went into debt, with the time
    /// until the debt is paid.
    pub fn consume_with_borrow_at(&mut self, to_consume: u32, now: u64) -> (r: Result<
        Option<Nanos>,
        ExceededBurstCapacity,
    >)
        requires
            old(self).wf(),
            to_consume > 0,
        ensures
            final(self).wf(),
            final(self).limit_view() == old(self).limit_view(),
            final(self).clock_view() == old(self).clock_view(),
            r is Err <==> to_consume * UNITS_PER_TOKEN > old(self).burst_cap(),
            r is Err ==> final(self).zero_time() == old(self).zero_time(),
            r matches Ok(Some(n)) ==> n.wf(),
            r matches Ok(w) ==> borrowing_consumption(
                old(self).zero_time(),
                old(self).rate(),
                old(self).burst_cap(),
                now as int,
                to_consume * UNITS_PER_TOKEN,
                final(self).zero_time(),
                w,
            ),
    {
        let rate = self.limit.rate_units();
        let want: i128 = (to_consume as i128) * 3_600_000_000_000;
        let mut remaining: i128 = want;
        if likely_stable::unlikely((self.limit.burst_units() as i128) < remaining) {
            return Err(ExceededBurstCapacity);
        }
        let ghost zero0 = self.zero_time();
        let ghost balance0 = self.balance_view(now as int);
        while remaining > 0
            invariant
                self.wf(),
                self.limit_view() == old(self).limit_view(),
                self.clock_view() == old(self).clock_view(),
                rate == self.rate(),
                zero0 == old(self).zero_time(),
                balance0 == bucket_balance(zero0, self.rate(), self.burst_cap(), now as int),
                0 < want <= self.burst_cap(),
                want == to_consume * UNITS_PER_TOKEN,
                (want as int) % (UNITS_PER_TOKEN as int) == 0,
                self.burst_cap() % (UNITS_PER_TOKEN as int) == 0,
                ({
                    ||| (remaining == want && self.zero_time() == zero0)
                    ||| (0 < remaining < want && 0 < balance0 && remaining == want - balance0
                        && self.zero_time() == now * rate)
                    ||| (remaining == 0 && balance0 >= want && self.zero_time() == zero_time_for(
                        balance0 - want,
                        rate as int,
                        now as int,
                    ))
                }),
            decreases remaining,
        {
            let consumed = self.saturating_consume_inner(remaining, now);
            if consumed > 0 {
                remaining = remaining - consumed;
            } else {
                self.bucket.return_tokens(-remaining);
                let debt_paid = self.bucket.time_when_bucket(0);
                let nap = debt_paid - scaled_time(now, rate);
                return Ok(Nanos::new_checked(nanos_covering(nap, rate)));
            }
        }
        Ok(None)
    }

    /// Consumes tokens by borrowing from future capacity.
    ///
    /// Returns `Err` (leaving the bucket unchanged) when more tokens are asked
    /// for than the burst capacity; `Ok(None)` when the balance covered the
    /// request; `Ok(Some(wait))` when the bucket went into debt, with the time
    /// until the debt is paid.
    pub fn consume_with_borrow(&mut self, to_consume: u32) -> (r: Result<
        Option<Nanos>,
        ExceededBurstCapacity,
    >)
        requires
            old(self).wf(),
            to_consume > 0,
        ensures
            final(self).wf(),
            final(self).limit_view() == old(self).limit_view(),
            final(self).clock_view() == old(self).clock_view(),
            r is Err <==> to_consume * UNITS_PER_TOKEN > old(self).burst_cap(),
            r is Err ==> final(self).zero_time() == old(self).zero_time(),
            r matches Ok(Some(n)) ==> n.wf(),
            r matches Ok(w) ==> exists|now: u64|
                old(self).clock_view().reads(now) && #[trigger] borrowing_consumption(
                    old(self).zero_time(),
                    old(self).rate(),
                    old(self).burst_cap(),
                    now as int,
                    to_consume * UNITS_PER_TOKEN,
                    final(self).zero_time(),
                    w,
                ),
    {
        let now = self.clock.now();
        self.consume_with_borrow_at(to_consume, now)
    }

    /// Consumes tokens at time `now` with borrowing, limited to the burst capacity.
    ///
    /// Returns the tokens taken and the wait until the debt is paid when the
    /// bucket went into debt, and `(None, 0)` when the balance covered the request.
    pub fn saturating_consume_with_borrow_at(&mut self, to_consume: u32, now: u64) -> (r: (
        Option<Tokens>,
        Duration,
    ))
        requires
            old(self).wf(),
            to_consume > 0,
        ensures
            final(self).wf(),
            final(self).limit_view() == old(self).limit_view(),
            final(self).clock_view() == old(self).clock_view(),
            r.0 matches Some(t) ==> t.wf(),
            capped_borrowing_consumption(
                old(self).zero_time(),
                old(self).rate(),
                old(self).burst_cap(),
                now as int,
                to_consume * UNITS_PER_TOKEN,
                final(self).zero_time(),
                r.0,
                duration_nanos(r.1) as int,
            ),
    {
        let rate = self.limit.rate_units();
        let requested: i128 = (to_consume as i128) * 3_600_000_000_000;
        let burst = self.limit.burst_units() as i128;
        let want: i128 = if requested < burst {
            requested
        } else {
            burst
        };
        let mut remaining: i128 = want;
        let ghost zero0 = self.zero_time();
        let ghost balance0 = self.balance_view(now as int);
        while remaining > 0
            invariant
                self.wf(),
                self.limit_view() == old(self).limit_view(),
                self.clock_view() == old(self).clock_view(),
                rate == self.rate(),
                zero0 == old(self).zero_time(),
                balance0 == bucket_balance(zero0, self.rate(), self.burst_cap(), now as int),
                0 < want <= self.burst_cap(),
                want == min_int(to_consume * UNITS_PER_TOKEN, self.burst_cap()),
                (want as int) % (UNITS_PER_TOKEN as int) == 0,
                self.burst_cap() % (UNITS_PER_TOKEN as int) == 0,
                ({
                    ||| (remaining == want && self.zero_time() == zero0)
                    ||| (0 < remaining < want && 0 < balance0 && remaining == want - balance0
                        && self.zero_time() == now * rate)
                    ||| (remaining == 0 && balance0 >= want && self.zero_time() == zero_time_for(
                        balance0 - want,
                        rate as int,
                        now as int,
                    ))
                }),
            decreases remaining,
        {
            let consumed = self.saturating_consume_inner(remaining, now);
            if consumed > 0 {
                remaining = remaining - consumed;
            } else {
                self.bucket.return_tokens(-remaining);
                let debt_paid = self.bucket.time_when_bucket(0);
                let nap = debt_paid - scaled_time(now, rate);
                let nanos = nanos_covering(nap, rate);
                return (Tokens::new_checked(want as u128), duration_from_nanos(nanos));
            }
        }
        (None, duration_from_nanos(0))
    }

    /// Consumes tokens with borrowing, limited to the burst capacity.
    ///
    /// Returns the tokens taken and the wait until the debt is paid when the
    /// bucket went into debt, and `(None, 0)` when the balance covered the request.
    pub fn saturating_consume_with_borrow(&mut self, to_consume: u32) -> (r: (
        Option<Tokens>,
        Duration,
    ))
        requires
            old(self).wf(),
            to_consume > 0,
        ensures
            final(self).wf(),
            final(self).limit_view() == old(self).limit_view(),
            final(self).clock_view() == old(self).clock_view(),
            r.0 matches Some(t) ==> t.wf(),
            exists|now: u64|
                old(self).clock_view().reads(now) && #[trigger] capped_borrowing_consumption(
                    old(self).zero_time(),
                    old(self).rate(),
                    old(self).burst_cap(),
                    now as int,
                    to_consume * UNITS_PER_TOKEN,
                    final(self).zero_time(),
                    r.0,
                    duration_nanos(r.1) as int,
                ),
    {
        let now = self.clock.now();
        self.saturating_consume_with_borrow_at(to_consume, now)
    }

    /// Returns the token units available for consumption at time `now`: the
    /// balance, or zero when the bucket is in debt.
    pub fn available_at(&self, now: u64) -> (r: i128)
        requires
            self.wf(),
        ensures
            r == max_int(self.balance_view(now as int), 0),
    {
        let b = self.balance_at(now);
        if b > 0 {
            b
        } else {
            0
        }
    }

    /// Returns the token units currently available for consumption: the
    /// balance, or zero when the bucket is in debt.
    pub fn available(&self) -> (r: i128)
        requires
            self.wf(),
        ensures
            r >= 0,
            exists|now: u64|
                #![trigger self.balance_view(now as int)]
                self.clock_view().reads(now) && r == max_int(self.balance_view(now as int), 0),
    {
        let now = self.clock.now();
        self.available_at(now)
    }

    /// Returns the token balance in units at time `now`, which is negative
    /// when the bucket is in debt and never exceeds the burst capacity.
    pub fn balance_at(&self, now: u64) -> (r: i128)
        requires
            self.wf(),
        ensures
            r == self.balance_view(now as int),
            r <= self.burst_cap(),
    {
        self.bucket.balance(self.limit.rate_units(), self.limit.burst_units(), now)
    }

    /// Returns the current token balance in units, which is negative when the
    /// bucket is in debt and never exceeds the burst capacity.
    pub fn balance(&self) -> (r: i128)
        requires
            self.wf(),
        ensures
            r <= self.burst_cap(),
            exists|now: u64| #![trigger self.balance_view(now as int)] self.clock_view().reads(now) && self.balance_view(now as int) == r,
    {
        let now = self.clock.now();
        self.balance_at(now)
    }

    /// Reads the bucket's clock.
    pub fn now(&self) -> (r: u64)
        ensures
            self.clock_view().reads(r),
    {
        self.clock.now()
    }

    /// Returns a reference to the current rate limit configuration.
    pub fn limit(&self) -> (r: &RateLimit)
        ensures
            *r == self.limit_view(),
    {
        &self.limit
    }

    /// Takes up to `to_consume` units from what is available at `now`.
    fn saturating_consume_inner(&mut self, to_consume: i128, now: u64) -> (r: i128)
        requires
            old(self).wf(),
            0 <= to_consume,
        ensures
            final(self).wf(),
            final(self).limit_view() == old(self).limit_view(),
            final(self).clock_view() == old(self).clock_view(),
            saturating_consumption(
                old(self).zero_time(),
                old(self).rate(),
                old(self).burst_cap(),
                now as int,
                to_consume as int,
                final(self).zero_time(),
                r as int,
            ),
    {
        self.bucket.consume(
            self.limit.rate_units(),
            self.limit.burst_units(),
            now,
            ConsumePolicy::Saturating(to_consume),
        )
    }
}

} // verus!
