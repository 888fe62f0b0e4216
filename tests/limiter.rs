use cloud_completion::limiter::{RateLimiter, MAX_CONCURRENT_REQUESTS};

#[test]
fn at_most_limit_admitted() {
    assert_eq!(MAX_CONCURRENT_REQUESTS, 4);
    let mut limiter = RateLimiter::new(MAX_CONCURRENT_REQUESTS);
    let admitted: Vec<bool> = (0..6u64).map(|t| limiter.request(t)).collect();
    assert_eq!(admitted, vec![true, true, true, true, false, false]);
    assert_eq!(limiter.in_flight(), 4);
    assert_eq!(limiter.waiting(), vec![4, 5]);
}

#[test]
fn release_admits_oldest_waiting() {
    let mut limiter = RateLimiter::new(2);
    for t in 0..5u64 {
        limiter.request(t);
    }
    assert_eq!(limiter.release(), Some(2));
    assert_eq!(limiter.in_flight(), 2);
    assert_eq!(limiter.release(), Some(3));
    assert_eq!(limiter.release(), Some(4));
    assert_eq!(limiter.release(), None);
    assert_eq!(limiter.in_flight(), 1);
    assert_eq!(limiter.release(), None);
    assert_eq!(limiter.in_flight(), 0);
    assert!(limiter.request(9));
}

#[test]
fn cancelled_request_leaves_queue() {
    let mut limiter = RateLimiter::new(1);
    limiter.request(1);
    limiter.request(2);
    limiter.request(3);
    assert!(limiter.cancel(2));
    assert!(!limiter.cancel(7));
    assert_eq!(limiter.waiting(), vec![3]);
    assert_eq!(limiter.release(), Some(3));
    assert_eq!(limiter.limit(), 1);
}
