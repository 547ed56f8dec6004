use solar_catalog::keys::{
    minute_of_epoch, planet_cache_key, planet_image_cache_key, rate_limit_bucket_key,
};
use solar_catalog::text::decimal_string;

#[test]
fn planet_key_is_prefix_plus_id() {
    let key = planet_cache_key("60ef3c72b4b0d9c1d0a4a1b2");
    assert_eq!(key, "planet60ef3c72b4b0d9c1d0a4a1b2");
}

#[test]
fn image_key_adds_fixed_suffix() {
    let key = planet_image_cache_key("60ef3c72b4b0d9c1d0a4a1b2");
    assert_eq!(key, "planet60ef3c72b4b0d9c1d0a4a1b2image");
}

#[test]
fn rate_key_holds_client_and_minute() {
    let key = rate_limit_bucket_key("127.0.0.1", 7);
    assert_eq!(key, "rate_limit:127.0.0.1:7");
}

#[test]
fn minute_buckets_follow_the_clock() {
    assert_eq!(minute_of_epoch(0), 0);
    assert_eq!(minute_of_epoch(59), 0);
    assert_eq!(minute_of_epoch(60), 1);
    assert_eq!(minute_of_epoch(3_599), 59);
    assert_eq!(minute_of_epoch(3_600), 0);
}

#[test]
fn decimal_rendering_is_exact() {
    assert_eq!(decimal_string(0), "0");
    assert_eq!(decimal_string(9), "9");
    assert_eq!(decimal_string(10), "10");
    assert_eq!(decimal_string(59), "59");
    assert_eq!(decimal_string(18_446_744_073_709_551_615), "18446744073709551615");
}
