use solar_catalog::error::CustomError;
use solar_catalog::rate_limit::{RateLimitService, MAX_REQUESTS_PER_MINUTE};

#[test]
fn first_ten_requests_pass_eleventh_is_rejected() {
    let service = RateLimitService::new();
    for count in 1..=10u64 {
        assert!(service.assert_rate_limit_not_exceeded(count).is_ok());
    }
    let rejected = service.assert_rate_limit_not_exceeded(11);
    match rejected {
        Err(CustomError::TooManyRequests { actual_count, permission_count }) => {
            assert_eq!(actual_count, 11);
            assert_eq!(permission_count, 10);
        }
        _ => panic!("the eleventh request must be rejected with both counts"),
    }
}

#[test]
fn threshold_is_ten() {
    assert_eq!(MAX_REQUESTS_PER_MINUTE, 10);
}

#[test]
fn a_reset_counter_passes_again() {
    // After the bucket's lifetime has elapsed the counter starts over: the
    // next request observes a count of one, which passes.
    let service = RateLimitService::new();
    assert!(service.assert_rate_limit_not_exceeded(1).is_ok());
}

#[test]
fn bucket_keys_separate_clients_and_minutes() {
    let service = RateLimitService::new();
    let key_a = service.bucket_key("10.0.0.1", 120);
    let key_b = service.bucket_key("10.0.0.2", 120);
    let key_c = service.bucket_key("10.0.0.1", 180);
    assert_eq!(key_a, "rate_limit:10.0.0.1:2");
    assert_eq!(key_b, "rate_limit:10.0.0.2:2");
    assert_eq!(key_c, "rate_limit:10.0.0.1:3");
    assert_ne!(key_a, key_b);
    assert_ne!(key_a, key_c);
}
