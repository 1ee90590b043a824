use gardal::{
    LocalStorage, Nanos, RateLimit, TimeStorage, TokenBucketStorage, Tokens, NANOS_PER_SECOND,
    UNITS_PER_TOKEN,
};

#[test]
fn per_second_rate_and_burst() {
    let limit = RateLimit::per_second(100);
    assert_eq!(100 * UNITS_PER_TOKEN, limit.rate_per_second());
    assert_eq!(100, limit.burst());
}

#[test]
fn per_second_and_burst_rate_and_burst() {
    let limit = RateLimit::per_second_and_burst(10, 50);
    assert_eq!(10 * UNITS_PER_TOKEN, limit.rate_per_second());
    assert_eq!(50, limit.burst());
}

#[test]
fn per_minute_rate() {
    let limit = RateLimit::per_minute(60);
    assert_eq!(UNITS_PER_TOKEN, limit.rate_per_second());
    assert_eq!(60 * UNITS_PER_TOKEN, limit.rate_per_minute());
    // burst equals the per-minute rate
    assert_eq!(60, limit.burst());
}

#[test]
fn per_hour_rate() {
    let limit = RateLimit::per_hour(3600);
    assert_eq!(UNITS_PER_TOKEN, limit.rate_per_second());
    assert_eq!(3600 * UNITS_PER_TOKEN, limit.rate_per_hour());
    // burst equals the per-hour rate
    assert_eq!(3600, limit.burst());
}

#[test]
fn with_burst_keeps_rate() {
    let limit = RateLimit::per_second(10).with_burst(100);
    assert_eq!(10 * UNITS_PER_TOKEN, limit.rate_per_second());
    assert_eq!(100, limit.burst());
}

#[test]
fn fractional_rates_are_exact() {
    let limit = RateLimit::per_minute(30);
    // half a token per second
    assert_eq!(UNITS_PER_TOKEN / 2, limit.rate_per_second());
    assert_eq!(30 * UNITS_PER_TOKEN, limit.rate_per_minute());
    assert_eq!(1800 * UNITS_PER_TOKEN, limit.rate_per_hour());
}

#[test]
fn tokens_round_trip() {
    assert_eq!(7, Tokens::new(7).as_u64());
    assert_eq!(u64::MAX, Tokens::new(u64::MAX).as_u64());
    assert_eq!(7 * UNITS_PER_TOKEN, Tokens::new(7).as_units());
}

#[test]
fn tokens_new_checked() {
    assert!(Tokens::new_checked(0).is_none());
    let half = Tokens::new_checked(UNITS_PER_TOKEN / 2).unwrap();
    assert_eq!(0, half.as_u64());
    assert_eq!(UNITS_PER_TOKEN / 2, half.as_units());
    assert_eq!(u64::MAX, Tokens::new_checked(u128::MAX).unwrap().as_u64());
}

#[test]
fn nanos_new_checked() {
    assert!(Nanos::new_checked(0).is_none());
    let n = Nanos::new_checked(NANOS_PER_SECOND).unwrap();
    assert_eq!(NANOS_PER_SECOND, n.as_nanos());
    assert_eq!(std::time::Duration::from_secs(1), n.as_duration());
    assert!(n == Nanos::new_checked(NANOS_PER_SECOND).unwrap());
}

#[test]
fn nanos_text() {
    assert_eq!("1s", Nanos::new_checked(NANOS_PER_SECOND).unwrap().to_string());
    assert_eq!("1.5s", Nanos::new_checked(3 * NANOS_PER_SECOND / 2).unwrap().to_string());
    assert_eq!("250ms", Nanos::new_checked(NANOS_PER_SECOND / 4).unwrap().to_string());
    assert_eq!("7ns", Nanos::new_checked(7).unwrap().to_string());
}

#[test]
fn time_when_bucket_holds_the_target() {
    // one token per second: the rate is 3600 units per nanosecond
    let rate: i128 = 3600;
    let storage = TokenBucketStorage::new(LocalStorage::new(0));
    let target = 3 * UNITS_PER_TOKEN as i128;
    let moment = storage.time_when_bucket(target);
    assert_eq!(target, moment);
    // three seconds after time zero the bucket holds the three tokens
    let t = (moment / rate) as u64;
    assert_eq!(3 * NANOS_PER_SECOND, t);
    assert_eq!(target, storage.balance(3600, 10 * UNITS_PER_TOKEN, t));
    assert!(storage.balance(3600, 10 * UNITS_PER_TOKEN, t - 1) < target);
}

#[test]
fn local_storage_compare_exchange() {
    let mut s = LocalStorage::new(1);
    assert_eq!(Err(1), s.compare_exchange_weak(2, 3));
    assert_eq!(1, s.load());
    assert_eq!(Ok(()), s.compare_exchange_weak(1, 3));
    assert_eq!(3, s.load());
}
