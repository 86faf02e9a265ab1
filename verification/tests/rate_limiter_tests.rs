use binance_connector::error::Error;
use binance_connector::rate_limiter::RateLimiter;
use governor::clock::FakeRelativeClock;
use governor::Quota;
use std::num::NonZeroU32;
use std::time::Duration;

const MS: u64 = 1_000_000;

#[test]
fn five_per_second_admits_five_then_one_more_after_200ms() {
    let mut limiter = RateLimiter::per_second(5);
    for _ in 0..5 {
        assert!(limiter.try_acquire(0).is_some());
    }
    assert!(limiter.try_acquire(0).is_none());
    assert!(limiter.try_acquire(199 * MS).is_none());
    assert!(limiter.try_acquire(200 * MS).is_some());
    assert!(limiter.try_acquire(200 * MS).is_none());
}

#[test]
fn a_refusal_changes_nothing() {
    let mut limiter = RateLimiter::per_second(1);
    assert!(limiter.try_acquire(0).is_some());
    for _ in 0..100 {
        assert!(limiter.try_acquire(999 * MS).is_none());
    }
    assert!(limiter.try_acquire(1000 * MS).is_some());
}

#[test]
fn the_budget_per_minute_has_a_burst_of_one_second() {
    let limiter = RateLimiter::new(1200);
    assert_eq!(limiter.capacity(), 20);
    assert_eq!(limiter.interval_nanos(), 50 * MS);
    let limiter = RateLimiter::new(60);
    assert_eq!(limiter.capacity(), 1);
    assert_eq!(limiter.interval_nanos(), 1000 * MS);
    let limiter = RateLimiter::new(61);
    assert_eq!(limiter.capacity(), 2);
    assert_eq!(limiter.interval_nanos(), 60_000_000_000 / 61);
    let limiter = RateLimiter::new(1);
    assert_eq!(limiter.capacity(), 1);
    assert_eq!(limiter.interval_nanos(), 60_000_000_000);
    let limiter = RateLimiter::new(u32::MAX);
    assert_eq!(limiter.capacity(), 71_582_789);
    assert_eq!(limiter.interval_nanos(), 13);
}

#[test]
fn the_budget_per_second() {
    let limiter = RateLimiter::per_second(10);
    assert_eq!(limiter.capacity(), 10);
    assert_eq!(limiter.interval_nanos(), 100 * MS);
    let limiter = RateLimiter::per_second(1_000_000_000);
    assert_eq!(limiter.interval_nanos(), 1);
}

#[test]
fn acquire_hands_out_the_burst_and_then_spaces_requests() {
    // 60 per minute: one token, one second apart
    let mut limiter = RateLimiter::new(60);
    let mut waits = Vec::new();
    for _ in 0..4 {
        assert!(limiter.fits(0));
        waits.push(limiter.acquire(0).wait_nanos);
    }
    assert_eq!(waits, vec![0, 1000 * MS, 2000 * MS, 3000 * MS]);
}

#[test]
fn twenty_acquires_at_ten_per_second_take_a_second() {
    let mut limiter = RateLimiter::per_second(10);
    let mut last = 0;
    for k in 0..20u64 {
        let wait = limiter.acquire(0).wait_nanos;
        assert_eq!(wait, if k < 10 { 0 } else { (k - 9) * 100 * MS });
        last = wait;
    }
    assert_eq!(last, 1000 * MS);
}

#[test]
fn acquire_reserves_before_the_wait() {
    let mut limiter = RateLimiter::per_second(1);
    assert_eq!(limiter.acquire(0).wait_nanos, 0);
    // the second caller is told to wait, and its token is taken:
    assert_eq!(limiter.acquire(0).wait_nanos, 1000 * MS);
    // a third caller, a moment later, queues behind it
    assert_eq!(limiter.acquire(10 * MS).wait_nanos, 1990 * MS);
    // and nobody is admitted at once meanwhile
    assert!(limiter.try_acquire(1500 * MS).is_none());
}

#[test]
fn an_idle_limiter_refills_no_further_than_its_capacity() {
    let mut limiter = RateLimiter::per_second(5);
    let later = 3_600 * 1000 * MS;
    let mut admitted = 0;
    for _ in 0..10 {
        if limiter.try_acquire(later).is_some() {
            admitted += 1;
        }
    }
    assert_eq!(admitted, 5);
}

#[test]
fn no_window_shorter_than_the_interval_admits_more_than_the_capacity() {
    let mut limiter = RateLimiter::per_second(5);
    let mut grants: Vec<u64> = Vec::new();
    let mut now = 0u64;
    for k in 0..200u64 {
        now += (k * 37 % 11) * 10 * MS;
        let wait = limiter.acquire(now).wait_nanos;
        grants.push(now + wait);
    }
    for i in 0..grants.len() {
        for j in i..grants.len() {
            assert!(grants[j] >= grants[i]);
            let count = (j - i + 1) as u64;
            let span = grants[j] - grants[i];
            // count - capacity intervals have passed
            assert!((count.saturating_sub(5)) * 200 * MS <= span);
            if span < 200 * MS {
                assert!(count <= 5);
            }
            if span < 1000 * MS {
                assert!(count < 10);
            }
        }
    }
}

#[test]
fn a_full_bucket_and_its_refill_pass_within_one_second() {
    // nine requests within 0.8 s: the burst of five, then one per interval
    let mut limiter = RateLimiter::per_second(5);
    let mut admitted = 0;
    for _ in 0..5 {
        admitted += limiter.try_acquire(0).is_some() as u32;
    }
    for k in 1..=4u64 {
        admitted += limiter.try_acquire(k * 200 * MS).is_some() as u32;
    }
    assert_eq!(admitted, 9);
}

#[test]
fn zero_budgets_are_configuration_errors() {
    for (capacity, interval) in [(0u32, 1u64), (1, 0), (0, 0), (0, u64::MAX)] {
        match RateLimiter::with_budget(capacity, interval) {
            Err(Error::ConfigError(m)) => {
                assert_eq!(m, "Rate and capacity must be greater than 0")
            }
            other => panic!("unexpected {:?}", other.map(|l| l.capacity())),
        }
    }
    match RateLimiter::with_budget(2, u64::MAX) {
        Err(Error::ConfigError(m)) => assert_eq!(m, "Refill time of the bucket is too long"),
        other => panic!("unexpected {:?}", other.map(|l| l.capacity())),
    }
    assert!(RateLimiter::with_budget(1, u64::MAX).is_ok());
    let limiter = RateLimiter::with_budget(3, 7).unwrap();
    assert_eq!(limiter.capacity(), 3);
    assert_eq!(limiter.interval_nanos(), 7);
    assert_eq!(limiter.latest_time(), u64::MAX - 21);
}

#[test]
fn the_limits_of_time_are_told() {
    let mut limiter = RateLimiter::with_budget(1, 10).unwrap();
    assert!(limiter.fits(u64::MAX - 10));
    assert!(!limiter.fits(u64::MAX - 9));
    assert!(limiter.try_acquire(limiter.latest_time()).is_some());
    assert!(!limiter.fits(0));
}

#[test]
fn the_rate_is_kept_however_the_two_calls_are_mixed() {
    let capacity = 3u64;
    let interval = 100 * MS;
    let mut limiter = RateLimiter::with_budget(3, interval).unwrap();
    let mut grants: Vec<u64> = Vec::new();
    let mut now = 0u64;
    for k in 0..300u64 {
        now += (k * k % 7) * 15 * MS;
        if k % 3 == 0 {
            grants.push(now + limiter.acquire(now).wait_nanos);
        } else if limiter.try_acquire(now).is_some() {
            grants.push(now);
        }
    }
    assert!(grants.len() > 100);
    for i in 0..grants.len() {
        for j in i + 1..grants.len() {
            let count = (j - i + 1) as u64;
            if count > capacity {
                assert!(grants[j] >= grants[i] + (count - capacity) * interval);
            }
        }
    }
}

/// The decisions of `governor`'s limiter and of this one, for the same calls
/// at the same times.
fn side_by_side(per_second: u32, steps_ms: &[u64]) -> (Vec<bool>, Vec<bool>) {
    let clock = FakeRelativeClock::default();
    let quota = Quota::per_second(NonZeroU32::new(per_second).unwrap());
    let theirs = governor::RateLimiter::direct_with_clock(quota, &clock);
    let mut ours = RateLimiter::per_second(per_second);
    let mut now = 0u64;
    let mut a = Vec::new();
    let mut b = Vec::new();
    for step in steps_ms {
        clock.advance(Duration::from_millis(*step));
        now += step * MS;
        a.push(theirs.check().is_ok());
        b.push(ours.try_acquire(now).is_some());
    }
    (a, b)
}

#[test]
fn a_busy_limiter_decides_as_governor_does() {
    // a burst, then requests that come faster than tokens are refilled
    let mut steps = vec![0; 12];
    for k in 0..200u64 {
        steps.push(k * 13 % 90);
    }
    let (theirs, ours) = side_by_side(10, &steps);
    assert_eq!(theirs, ours);
    assert_eq!(ours.iter().filter(|x| **x).count(), 10 + (steps.iter().sum::<u64>() / 100) as usize);
}

#[test]
fn after_an_idle_time_the_burst_is_capped_at_the_capacity() {
    // five at once, an hour of silence, then ten at once
    let mut steps = vec![0; 5];
    steps.push(3_600_000);
    steps.extend(vec![0; 9]);
    let (theirs, ours) = side_by_side(5, &steps);
    assert_eq!(ours[..5], [true; 5]);
    assert_eq!(ours[5..].iter().filter(|x| **x).count(), 5);
    // governor lets one more through after the silence than the bucket holds
    assert_eq!(theirs[..5], [true; 5]);
    assert_eq!(theirs[5..].iter().filter(|x| **x).count(), 6);
}
