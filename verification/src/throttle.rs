//! The decisions behind rate-limited streams.
//!
//! A rate-limited stream alternates between waiting (on the inner stream or
//! on a timer) and deciding what to do with a token bucket. The types here
//! hold the bucket and whatever state those decisions need; the code that
//! polls the inner stream and the timer hands them each event and performs
//! the action they return.
use vstd::prelude::*;

use crate::bucket::{borrowing_consumption, retry_wait, TokenBucket};
use crate::clock::{Clock, Nanos};
use crate::error::ExceededBurstCapacity;
use crate::limit::RateLimit;
use crate::storage::{zero_time_for, TimeStorage};
use crate::tokens::Tokens;
use crate::units::{clamp_zero_time, max_int, UNITS_PER_TOKEN};

verus! {

/// State of a stream that takes one token per item (its end takes none),
/// borrowing from future capacity so items are never held back, and delaying
/// the next poll until the debt is paid.
pub struct RateLimitedStream<ST, C> {
    bucket: TokenBucket<ST, C>,
}

impl<ST: TimeStorage, C: Clock> RateLimitedStream<ST, C> {
    /// The bucket that limits the stream.
    pub closed spec fn bucket_view(&self) -> TokenBucket<ST, C> {
        self.bucket
    }

    /// The bucket can always lend the one token each item takes.
    pub open spec fn wf(&self) -> bool {
        &&& self.bucket_view().wf()
        &&& self.bucket_view().burst_cap() >= UNITS_PER_TOKEN
    }

    /// Creates the state of a rate-limited stream.
    ///
    /// The bucket must hold at least one whole token.
    pub fn new(bucket: TokenBucket<ST, C>) -> (r: Self)
        requires
            bucket.wf(),
            bucket.burst_cap() >= UNITS_PER_TOKEN,
        ensures
            r.wf(),
            r.bucket_view() == bucket,
    {
        Self { bucket }
    }

    /// Returns a reference to the current rate limit configuration.
    pub fn limit(&self) -> (r: &RateLimit)
        ensures
            *r == self.bucket_view().limit_view(),
    {
        self.bucket.limit()
    }

    /// Returns the token units currently available (zero when in debt).
    pub fn available(&self) -> (r: i128)
        requires
            self.wf(),
        ensures
            r >= 0,
            exists|now: u64|
                #![trigger self.bucket_view().balance_view(now as int)]
                self.bucket_view().clock_view().reads(now) && r == max_int(self.bucket_view().balance_view(now as int), 0),
    {
        self.bucket.available()
    }

    /// Adds token units back to the bucket.
    pub fn add_tokens(&mut self, tokens: u128)
        requires
            old(self).wf(),
        ensures
            final(self).wf(),
            final(self).bucket_view().limit_view() == old(self).bucket_view().limit_view(),
            final(self).bucket_view().zero_time() == clamp_zero_time(
                old(self).bucket_view().zero_time() - tokens,
            ),
    {
        self.bucket.add_tokens(tokens)
    }

    /// The inner stream ended: the end is not an item, so no token is taken
    /// and no delay follows.
    pub fn stream_ended(&mut self)
        ensures
            final(self).bucket_view() == old(self).bucket_view(),
    {
    }

    /// The inner stream produced an item at time `now`: one token is
    /// consumed, borrowing if needed. Returns the delay to wait
    /// before the next poll, or `None` when the bucket covered the token.
    pub fn item_arrived_at(&mut self, now: u64) -> (r: Option<Nanos>)
        requires
            old(self).wf(),
        ensures
            final(self).wf(),
            final(self).bucket_view().limit_view() == old(self).bucket_view().limit_view(),
            r matches Some(n) ==> n.wf(),
            borrowing_consumption(
                old(self).bucket_view().zero_time(),
                old(self).bucket_view().rate(),
                old(self).bucket_view().burst_cap(),
                now as int,
                UNITS_PER_TOKEN as int,
                final(self).bucket_view().zero_time(),
                r,
            ),
    {
        let r = self.bucket.consume_with_borrow_at(1, now);
        match r {
            Ok(wait) => wait,
            Err(_) => None,
        }
    }

    /// The inner stream produced an item: one token is consumed, borrowing
    /// if needed. Returns the delay to wait before the
    /// next poll, or `None` when the bucket covered the token.
    pub fn item_arrived(&mut self) -> (r: Option<Nanos>)
        requires
            old(self).wf(),
        ensures
            final(self).wf(),
            final(self).bucket_view().limit_view() == old(self).bucket_view().limit_view(),
            r matches Some(n) ==> n.wf(),
            exists|now: u64|
                old(self).bucket_view().clock_view().reads(now) && #[trigger] borrowing_consumption(
                    old(self).bucket_view().zero_time(),
                    old(self).bucket_view().rate(),
                    old(self).bucket_view().burst_cap(),
                    now as int,
                    UNITS_PER_TOKEN as int,
                    final(self).bucket_view().zero_time(),
                    r,
                ),
    {
        let now = self.bucket.now();
        self.item_arrived_at(now)
    }
}

/// What a weighted stream does next.
pub enum WeightedAction {
    /// Poll the inner stream for the next item.
    PollStream,
    /// Wait for the delay, then call `delay_elapsed` for the held item.
    AwaitDelay,
}

/// What to do with an item that arrived on a weighted stream.
pub enum ItemVerdict<T> {
    /// Deliver the item now.
    Deliver(T),
    /// The item is held; wait this long, then collect it with `delay_elapsed`.
    Delay(Nanos),
}

/// The delay an item verdict asks for, if any.
pub open spec fn verdict_wait<T>(v: ItemVerdict<T>) -> Option<Nanos> {
    match v {
        ItemVerdict::Deliver(_) => None,
        ItemVerdict::Delay(n) => Some(n),
    }
}

/// An item of weight `weight` (in whole tokens) arrived at `now` at a weighted
/// stream whose bucket had zero time `zero`: the verdict, the item held
/// afterwards, and the bucket's new zero time `new_zero`.
pub open spec fn weighted_arrival<T>(
    zero: int,
    rate: int,
    burst: int,
    now: int,
    item: T,
    weight: int,
    new_zero: int,
    verdict: ItemVerdict<T>,
    held: Option<T>,
) -> bool {
    &&& match verdict {
        ItemVerdict::Deliver(i) => i == item && held is None,
        ItemVerdict::Delay(n) => n.wf() && held == Some(item),
    }
    &&& borrowing_consumption(
        zero,
        rate,
        burst,
        now,
        weight * UNITS_PER_TOKEN,
        new_zero,
        verdict_wait(verdict),
    )
}

/// An item arrived at a weighted stream and was weighed at `weight` whole
/// tokens: a weight of zero or above the burst capacity is refused with the
/// bucket and the held item left as they were; any other weight is an
/// arrival as [`weighted_arrival`] states.
pub open spec fn weighed_arrival<T>(
    zero: int,
    rate: int,
    burst: int,
    now: int,
    item: T,
    weight: int,
    new_zero: int,
    r: Result<ItemVerdict<T>, ExceededBurstCapacity>,
    held: Option<T>,
) -> bool {
    match r {
        Ok(verdict) => {
            &&& 0 < weight
            &&& weight * UNITS_PER_TOKEN <= burst
            &&& weighted_arrival(zero, rate, burst, now, item, weight, new_zero, verdict, held)
        },
        Err(_) => {
            &&& (weight == 0 || weight * UNITS_PER_TOKEN > burst)
            &&& new_zero == zero
            &&& held is None
        },
    }
}

/// State of a stream whose items each take a number of tokens given by a
/// weight, borrowing from future capacity and holding an item back until its
/// debt is paid.
pub struct WeightedStream<T, ST, C> {
    bucket: TokenBucket<ST, C>,
    pending_item: Option<T>,
}

impl<T, ST: TimeStorage, C: Clock> WeightedStream<T, ST, C> {
    /// The bucket that limits the stream.
    pub closed spec fn bucket_view(&self) -> TokenBucket<ST, C> {
        self.bucket
    }

    /// The item held back until its delay has passed.
    pub closed spec fn pending_view(&self) -> Option<T> {
        self.pending_item
    }

    /// The bucket is valid.
    pub open spec fn wf(&self) -> bool {
        self.bucket_view().wf()
    }

    /// Creates the state of a weighted stream, holding no item.
    pub fn new(bucket: TokenBucket<ST, C>) -> (r: Self)
        requires
            bucket.wf(),
        ensures
            r.wf(),
            r.bucket_view() == bucket,
            r.pending_view() is None,
    {
        Self { bucket, pending_item: None }
    }

    /// Returns the current rate limit.
    pub fn limit(&self) -> (r: &RateLimit)
        ensures
            *r == self.bucket_view().limit_view(),
    {
        self.bucket.limit()
    }

    /// Available token units in the bucket. Zero if in debt.
    pub fn available(&self) -> (r: i128)
        requires
            self.wf(),
        ensures
            r >= 0,
            exists|now: u64|
                #![trigger self.bucket_view().balance_view(now as int)]
                self.bucket_view().clock_view().reads(now) && r == max_int(self.bucket_view().balance_view(now as int), 0),
    {
        self.bucket.available()
    }

    /// Add token units to the bucket.
    pub fn add_tokens(&mut self, tokens: u128)
        requires
            old(self).wf(),
        ensures
            final(self).wf(),
            final(self).pending_view() == old(self).pending_view(),
            final(self).bucket_view().limit_view() == old(self).bucket_view().limit_view(),
            final(self).bucket_view().zero_time() == clamp_zero_time(
                old(self).bucket_view().zero_time() - tokens,
            ),
    {
        self.bucket.add_tokens(tokens)
    }

    /// What to do on a poll: wait out the delay of a held item, or poll the
    /// inner stream when no item is held.
    pub fn next_action(&self) -> (r: WeightedAction)
        ensures
            r is AwaitDelay <==> self.pending_view() is Some,
    {
        if self.pending_item.is_some() {
            WeightedAction::AwaitDelay
        } else {
            WeightedAction::PollStream
        }
    }

    /// The delay of the held item has passed: hands the item over.
    pub fn delay_elapsed(&mut self) -> (r: Option<T>)
        ensures
            r == old(self).pending_view(),
            final(self).pending_view() is None,
            final(self).bucket_view() == old(self).bucket_view(),
    {
        self.pending_item.take()
    }

    /// An item of the given weight (in whole tokens) arrived from the inner
    /// stream at time `now` and no item is held: its tokens are consumed, borrowing if needed.
    /// The item is delivered at once when the bucket covered it, and held
    /// back otherwise. The weight may not exceed the burst capacity.
    pub fn item_arrived_at(&mut self, item: T, weight: u32, now: u64) -> (r: ItemVerdict<T>)
        requires
            old(self).wf(),
            old(self).pending_view() is None,
            0 < weight,
            weight * UNITS_PER_TOKEN <= old(self).bucket_view().burst_cap(),
        ensures
            final(self).wf(),
            final(self).bucket_view().limit_view() == old(self).bucket_view().limit_view(),
            weighted_arrival(
                old(self).bucket_view().zero_time(),
                old(self).bucket_view().rate(),
                old(self).bucket_view().burst_cap(),
                now as int,
                item,
                weight as int,
                final(self).bucket_view().zero_time(),
                r,
                final(self).pending_view(),
            ),
    {
        let borrowed = self.bucket.consume_with_borrow_at(weight, now);
        match borrowed {
            Ok(Some(wait)) => {
                self.pending_item = Some(item);
                ItemVerdict::Delay(wait)
            },
            _ => ItemVerdict::Deliver(item),
        }
    }

    /// An item of the given weight (in whole tokens) arrived from the inner
    /// stream and no item is held: its tokens are consumed, borrowing if needed.
    /// The item is delivered at once when the bucket covered it, and held
    /// back otherwise. The weight may not exceed the burst capacity.
    pub fn item_arrived(&mut self, item: T, weight: u32) -> (r: ItemVerdict<T>)
        requires
            old(self).wf(),
            old(self).pending_view() is None,
            0 < weight,
            weight * UNITS_PER_TOKEN <= old(self).bucket_view().burst_cap(),
        ensures
            final(self).wf(),
            final(self).bucket_view().limit_view() == old(self).bucket_view().limit_view(),
            exists|now: u64|
                old(self).bucket_view().clock_view().reads(now) && #[trigger] weighted_arrival(
                    old(self).bucket_view().zero_time(),
                    old(self).bucket_view().rate(),
                    old(self).bucket_view().burst_cap(),
                    now as int,
                    item,
                    weight as int,
                    final(self).bucket_view().zero_time(),
                    r,
                    final(self).pending_view(),
                ),
    {
        let now = self.bucket.now();
        self.item_arrived_at(item, weight, now)
    }

    /// An item arrived from the inner stream at time `now` and no item is held:
    /// `weight_fn` is called once, on the item, for its weight in whole tokens.
    /// A weight of zero or above the burst capacity is refused (the item is
    /// dropped and the bucket left alone); any other weight is handled as by
    /// [`item_arrived_at`](Self::item_arrived_at).
    pub fn weighed_item_arrived_at<F: Fn(&T) -> u32>(
        &mut self,
        item: T,
        weight_fn: &F,
        now: u64,
    ) -> (r: Result<ItemVerdict<T>, ExceededBurstCapacity>)
        requires
            old(self).wf(),
            old(self).pending_view() is None,
            call_requires(*weight_fn, (&item,)),
        ensures
            final(self).wf(),
            final(self).bucket_view().limit_view() == old(self).bucket_view().limit_view(),
            exists|weight: u32|
                #[trigger] call_ensures(*weight_fn, (&item,), weight) && weighed_arrival(
                    old(self).bucket_view().zero_time(),
                    old(self).bucket_view().rate(),
                    old(self).bucket_view().burst_cap(),
                    now as int,
                    item,
                    weight as int,
                    final(self).bucket_view().zero_time(),
                    r,
                    final(self).pending_view(),
                ),
    {
        let weight = weight_fn(&item);
        if weight == 0 || (weight as u128) * UNITS_PER_TOKEN > self.bucket.limit().burst_units() {
            return Err(ExceededBurstCapacity);
        }
        Ok(self.item_arrived_at(item, weight, now))
    }

    /// An item arrived from the inner stream and no item is held: `weight_fn`
    /// is called once, on the item, for its weight in whole tokens. A weight
    /// of zero or above the burst capacity is refused (the item is dropped and
    /// the bucket left alone); any other weight is handled as by
    /// [`item_arrived`](Self::item_arrived).
    pub fn weighed_item_arrived<F: Fn(&T) -> u32>(&mut self, item: T, weight_fn: &F) -> (r: Result<
        ItemVerdict<T>,
        ExceededBurstCapacity,
    >)
        requires
            old(self).wf(),
            old(self).pending_view() is None,
            call_requires(*weight_fn, (&item,)),
        ensures
            final(self).wf(),
            final(self).bucket_view().limit_view() == old(self).bucket_view().limit_view(),
            exists|weight: u32, now: u64|
                old(self).bucket_view().clock_view().reads(now) && call_ensures(*weight_fn, (&item,), weight) && #[trigger] weighed_arrival(
                    old(self).bucket_view().zero_time(),
                    old(self).bucket_view().rate(),
                    old(self).bucket_view().burst_cap(),
                    now as int,
                    item,
                    weight as int,
                    final(self).bucket_view().zero_time(),
                    r,
                    final(self).pending_view(),
                ),
    {
        let now = self.bucket.now();
        self.weighed_item_arrived_at(item, weight_fn, now)
    }
}

/// What a lazily rate-limited stream does next.
pub enum LazyAction {
    /// The stream has ended: report its end.
    Finished,
    /// A token was taken: poll the inner stream, then report the outcome with
    /// `stream_polled`, handing the tokens back.
    PollStream(Tokens),
    /// No token was available: wait this long, then ask again.
    Wait(Nanos),
}

/// What polling the inner stream gave.
pub enum StreamOutcome {
    /// An item, which is delivered.
    Item,
    /// The end of the stream.
    Ended,
    /// Nothing yet.
    Pending,
}

/// A lazy stream's attempt at taking one token at `now`, moving its bucket
/// from `before` to `after`: polling the inner stream when the token was
/// there, waiting until it will be otherwise.
pub open spec fn lazy_acquisition<ST: TimeStorage, C: Clock>(
    before: TokenBucket<ST, C>,
    after: TokenBucket<ST, C>,
    now: int,
    r: LazyAction,
) -> bool {
    let balance = before.balance_view(now);
    let rate = before.rate();
    match r {
        LazyAction::PollStream(_) => {
            &&& balance >= UNITS_PER_TOKEN
            &&& after.zero_time() == zero_time_for(balance - UNITS_PER_TOKEN, rate, now)
        },
        LazyAction::Wait(n) => {
            &&& balance < UNITS_PER_TOKEN
            &&& after.zero_time() == before.zero_time()
            &&& n.nanos_view() == retry_wait(before.zero_time(), rate, now, UNITS_PER_TOKEN as int)
        },
        LazyAction::Finished => false,
    }
}

/// State of a stream that takes a token before it polls the inner stream, and
/// returns the token when the inner stream has nothing to give.
pub struct LazyRateLimitedStream<ST, C> {
    bucket: TokenBucket<ST, C>,
    terminated: bool,
}

impl<ST: TimeStorage, C: Clock> LazyRateLimitedStream<ST, C> {
    /// The bucket that limits the stream.
    pub closed spec fn bucket_view(&self) -> TokenBucket<ST, C> {
        self.bucket
    }

    /// Whether the inner stream has ended.
    pub closed spec fn terminated_view(&self) -> bool {
        self.terminated
    }

    /// The bucket is valid.
    pub open spec fn wf(&self) -> bool {
        self.bucket_view().wf()
    }

    /// Creates the state of a lazily rate-limited stream that has not ended.
    pub fn new(bucket: TokenBucket<ST, C>) -> (r: Self)
        requires
            bucket.wf(),
        ensures
            r.wf(),
            r.bucket_view() == bucket,
            !r.terminated_view(),
    {
        Self { terminated: false, bucket }
    }

    /// Returns the current rate limit.
    pub fn limit(&self) -> (r: &RateLimit)
        ensures
            *r == self.bucket_view().limit_view(),
    {
        self.bucket.limit()
    }

    /// Available token units in the bucket. Zero if in debt.
    pub fn available(&self) -> (r: i128)
        requires
            self.wf(),
        ensures
            r >= 0,
            exists|now: u64|
                #![trigger self.bucket_view().balance_view(now as int)]
                self.bucket_view().clock_view().reads(now) && r == max_int(self.bucket_view().balance_view(now as int), 0),
    {
        self.bucket.available()
    }

    /// Prime the bucket with the burst capacity (in whole tokens), which must
    /// hold at least one whole token.
    pub fn prime(&mut self)
        requires
            old(self).wf(),
            old(self).bucket_view().burst_cap() >= UNITS_PER_TOKEN,
        ensures
            final(self).wf(),
            final(self).terminated_view() == old(self).terminated_view(),
            final(self).bucket_view().limit_view() == old(self).bucket_view().limit_view(),
            final(self).bucket_view().zero_time() == clamp_zero_time(
                old(self).bucket_view().zero_time() - (old(self).bucket_view().burst_cap() / (
                UNITS_PER_TOKEN as int)) * UNITS_PER_TOKEN,
            ),
    {
        proof {
            self.bucket.lemma_wf_limit();
        }
        let whole = self.bucket.limit().burst();
        self.bucket.add_tokens((whole as u128) * UNITS_PER_TOKEN);
    }

    /// Adds token units to the bucket.
    pub fn add_tokens(&mut self, tokens: u128)
        requires
            old(self).wf(),
        ensures
            final(self).wf(),
            final(self).terminated_view() == old(self).terminated_view(),
            final(self).bucket_view().limit_view() == old(self).bucket_view().limit_view(),
            final(self).bucket_view().zero_time() == clamp_zero_time(
                old(self).bucket_view().zero_time() - tokens,
            ),
    {
        self.bucket.add_tokens(tokens)
    }

    /// What to do on a poll at time `now`: report the end once the inner
    /// stream has ended; otherwise try to take one token, and poll the inner
    /// stream if that worked or wait as long as the bucket suggests if it did not.
    pub fn acquire_at(&mut self, now: u64) -> (r: LazyAction)
        requires
            old(self).wf(),
        ensures
            final(self).wf(),
            final(self).terminated_view() == old(self).terminated_view(),
            final(self).bucket_view().limit_view() == old(self).bucket_view().limit_view(),
            old(self).terminated_view() ==> r is Finished && final(self).bucket_view()
                == old(self).bucket_view(),
            !old(self).terminated_view() ==> lazy_acquisition(
                old(self).bucket_view(),
                final(self).bucket_view(),
                now as int,
                r,
            ),
            r matches LazyAction::PollStream(t) ==> t.wf() && t.units_view() == UNITS_PER_TOKEN,
            r matches LazyAction::Wait(n) ==> n.wf(),
    {
        if self.terminated {
            return LazyAction::Finished;
        }
        match self.bucket.try_consume_at(1, now) {
            Ok(tokens) => LazyAction::PollStream(tokens),
            Err(e) => LazyAction::Wait(e.earliest_retry_after_nanos()),
        }
    }

    /// What to do on a poll: report the end once the inner stream has ended;
    /// otherwise try to take one token, and poll the inner stream if that
    /// worked or wait as long as the bucket suggests if it did not.
    pub fn acquire(&mut self) -> (r: LazyAction)
        requires
            old(self).wf(),
        ensures
            final(self).wf(),
            final(self).terminated_view() == old(self).terminated_view(),
            final(self).bucket_view().limit_view() == old(self).bucket_view().limit_view(),
            old(self).terminated_view() ==> r is Finished && final(self).bucket_view()
                == old(self).bucket_view(),
            !old(self).terminated_view() ==> exists|now: u64|
                old(self).bucket_view().clock_view().reads(now) && #[trigger] lazy_acquisition(
                    old(self).bucket_view(),
                    final(self).bucket_view(),
                    now as int,
                    r,
                ),
            r matches LazyAction::PollStream(t) ==> t.wf() && t.units_view() == UNITS_PER_TOKEN,
            r matches LazyAction::Wait(n) ==> n.wf(),
    {
        let now = self.bucket.now();
        self.acquire_at(now)
    }

    /// Reports what polling the inner stream gave after a token was taken:
    /// the token is kept for an item, and handed back otherwise; the end of
    /// the stream is remembered.
    pub fn stream_polled(&mut self, tokens: Tokens, outcome: StreamOutcome)
        requires
            old(self).wf(),
        ensures
            final(self).wf(),
            final(self).bucket_view().limit_view() == old(self).bucket_view().limit_view(),
            final(self).terminated_view() == (old(self).terminated_view() || outcome is Ended),
            outcome is Item ==> final(self).bucket_view() == old(self).bucket_view(),
            !(outcome is Item) ==> final(self).bucket_view().zero_time() == clamp_zero_time(
                old(self).bucket_view().zero_time() - tokens.units_view(),
            ),
    {
        match outcome {
            StreamOutcome::Item => {},
            StreamOutcome::Ended => {
                self.bucket.add_tokens(tokens.as_units());
                self.terminated = true;
            },
            StreamOutcome::Pending => {
                self.bucket.add_tokens(tokens.as_units());
            },
        }
    }

    /// Whether the inner stream has ended.
    pub fn is_terminated(&self) -> (r: bool)
        ensures
            r == self.terminated_view(),
    {
        self.terminated
    }
}

} // verus!
