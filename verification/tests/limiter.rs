use chilloutvr::api_client::http_rate_limiter;
use chilloutvr::limiter::RateLimiter;

#[test]
fn burst_then_refill() {
    // five requests of burst, one per five seconds sustained
    let mut limiter = RateLimiter::new(5, 5000);
    for _ in 0..5 {
        assert!(limiter.try_acquire(0));
    }
    // the burst is spent
    assert!(!limiter.try_acquire(0));
    assert_eq!(limiter.wait_hint(0), 5000);
    assert!(!limiter.is_ready(4999));
    assert!(limiter.is_ready(5000));
    assert!(limiter.try_acquire(5000));
    assert!(!limiter.try_acquire(5000));
}

#[test]
fn refill_is_capped_at_capacity() {
    let mut limiter = RateLimiter::new(2, 1000);
    assert!(limiter.try_acquire(0));
    assert!(limiter.try_acquire(0));
    assert!(!limiter.try_acquire(0));
    // a very long idle time refills to the burst capacity, no further
    for _ in 0..2 {
        assert!(limiter.try_acquire(1_000_000));
    }
    assert!(!limiter.try_acquire(1_000_000));
}

#[test]
fn window_admissions_bounded() {
    // the token-bucket law on a concrete trace: with burst 3 and period
    // 100, any window of length 500 admits at most 3 + 500/100 = 8 calls
    let mut limiter = RateLimiter::new(3, 100);
    let mut admitted_in_window = 0;
    let window_start = 0u64;
    let window_end = 500u64;
    let mut now = 0u64;
    // hammer the limiter far more often than the budget allows
    while now <= window_end {
        for _ in 0..4 {
            if limiter.try_acquire(now) && now >= window_start {
                admitted_in_window += 1;
            }
        }
        now += 50;
    }
    assert!(admitted_in_window <= 8, "admitted {admitted_in_window} in the window");
    // and the budget really was used: the burst came through at once
    assert!(admitted_in_window >= 3);
}

#[test]
fn wait_hint_is_exact() {
    let mut limiter = RateLimiter::new(1, 700);
    assert!(limiter.try_acquire(0));
    assert_eq!(limiter.wait_hint(0), 700);
    assert_eq!(limiter.wait_hint(200), 500);
    assert_eq!(limiter.wait_hint(700), 0);
    assert!(limiter.try_acquire(700));
}

#[test]
fn http_limiter_shape() {
    let limiter = http_rate_limiter();
    // twelve per minute sustained, bursts of five: five seconds per request
    assert_eq!(limiter.period, 5000);
    assert_eq!(limiter.capacity, 25000);
    assert_eq!(limiter.available, 25000);
    assert_eq!(limiter.last, 0);
}
