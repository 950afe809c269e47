use oandars::RateLimiter;

#[test]
fn burst_is_bounded_by_capacity() {
    // Created at clock 0, so the first refill is due at 9 ms; every call
    // below happens before that.
    let mut limiter = RateLimiter::new(60, 1, 9, 0);
    let mut granted: u32 = 0;
    for _ in 0..100 {
        if limiter.try_acquire(1) {
            granted += 1;
        }
    }
    assert_eq!(granted, 60);
}

#[test]
fn grants_resume_only_after_a_refill_interval() {
    let mut limiter = RateLimiter::new(2, 1, 10, 0);
    assert!(limiter.try_acquire(1));
    assert!(limiter.try_acquire(2));
    // The bucket is empty and the refill at 10 ms has not come yet.
    assert!(!limiter.try_acquire(3));
    assert!(!limiter.try_acquire(9));
    // One interval elapsed: exactly one token comes back.
    assert!(limiter.try_acquire(10));
    assert!(!limiter.try_acquire(11));
    // The next refill is due at 20 ms.
    assert!(!limiter.try_acquire(19));
    assert!(limiter.try_acquire(20));
}

#[test]
fn refill_is_capped_at_capacity() {
    let mut limiter = RateLimiter::new(5, 1, 1, 0);
    // A long idle period credits far more intervals than the bucket holds.
    let mut granted: u32 = 0;
    for _ in 0..20 {
        if limiter.try_acquire(1000) {
            granted += 1;
        }
    }
    assert_eq!(granted, 5);
}

#[test]
fn achieved_rate_follows_quantum_per_interval() {
    // Starting empty-handed after the initial burst, one grant per interval.
    let mut limiter = RateLimiter::new(3, 1, 10, 0);
    assert!(limiter.try_acquire(0));
    assert!(limiter.try_acquire(0));
    assert!(limiter.try_acquire(0));
    let mut granted: u32 = 0;
    for now in 1..101u64 {
        if limiter.try_acquire(now) {
            granted += 1;
        }
    }
    // Refills at 10, 20, ..., 100: ten grants over the window.
    assert_eq!(granted, 10);
}

#[test]
fn two_streams_share_one_burst_budget() {
    // Two pagination streams interleave admission checks against one
    // limiter, all within the first refill interval of the fake clock.
    let mut limiter = RateLimiter::new(60, 1, 9, 0);
    let mut stream_a: u32 = 0;
    let mut stream_b: u32 = 0;
    for _ in 0..50 {
        if limiter.try_acquire(1) {
            stream_a += 1;
        }
        if limiter.try_acquire(2) {
            stream_b += 1;
        }
    }
    assert!(stream_a + stream_b <= 60);
    assert_eq!(stream_a + stream_b, 60);
}
