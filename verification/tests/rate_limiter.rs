use backend::rate_limiter::{IpKey, RateLimiter, RateLimiterImpl};

#[test]
fn keys_are_limited_for_the_wait() {
    let mut l = RateLimiterImpl::new(100);
    let k = IpKey::V4(1);
    assert_eq!(l.wait_time(), 100);
    assert!(l.is_free(&k, 0));
    l.mark_as_limited(k, 1000);
    assert!(!l.is_free(&k, 1000));
    assert!(!l.is_free(&k, 1099));
    assert!(l.is_free(&k, 1100));
    assert!(!l.is_free(&k, 999));
    assert!(l.is_free(&IpKey::V4(2), 1000));
    assert!(l.is_free(&IpKey::V6(1), 1000));
}

#[test]
fn zero_wait_never_limits() {
    let mut l = RateLimiterImpl::new(0);
    l.mark_as_limited(IpKey::V6(1), 1000);
    assert!(l.is_free(&IpKey::V6(1), 1000));
}

#[test]
fn garbage_collection_forgets_only_expired_keys() {
    let mut l = RateLimiterImpl::new(100);
    let key = |k: u64| if k % 2 == 0 { IpKey::V4(k as u32) } else { IpKey::V6(k as u128) };
    for k in 0..50u64 {
        l.mark_as_limited(key(k), 1000 + k * 10);
    }
    l.collect_garbage(1200);
    for k in 0..50u64 {
        for t in [1200u64, 1300, 1500, 1600, 2000] {
            let expected = t >= 1000 + k * 10 + 100;
            assert_eq!(l.is_free(&key(k), t), expected);
        }
    }
}
