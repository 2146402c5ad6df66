use plot::numbers::{parse_micros, parse_u32};
use plot::retrieval::delay_millis;

#[test]
fn decimal_text_becomes_millionths() {
    assert_eq!(parse_micros("3.2"), Some(3_200_000));
    assert_eq!(parse_micros("12"), Some(12_000_000));
    assert_eq!(parse_micros("-0.5"), Some(-500_000));
    assert_eq!(parse_micros("0"), Some(0));
    assert_eq!(parse_micros("1.2345678"), Some(1_234_567));
    assert_eq!(parse_micros("999999999999"), Some(999_999_999_999_000_000));
}

#[test]
fn malformed_decimal_text_is_refused() {
    assert_eq!(parse_micros(""), None);
    assert_eq!(parse_micros("-"), None);
    assert_eq!(parse_micros("abc"), None);
    assert_eq!(parse_micros("1."), None);
    assert_eq!(parse_micros(".5"), None);
    assert_eq!(parse_micros("1e3"), None);
    assert_eq!(parse_micros("1.2.3"), None);
    assert_eq!(parse_micros("1000000000000"), None);
}

#[test]
fn unsigned_text_becomes_u32() {
    assert_eq!(parse_u32("0"), Some(0));
    assert_eq!(parse_u32("4294967295"), Some(u32::MAX));
    assert_eq!(parse_u32("4294967296"), None);
    assert_eq!(parse_u32("12a"), None);
    assert_eq!(parse_u32("-1"), None);
    assert_eq!(parse_u32(""), None);
}

#[test]
fn throttle_bounds_give_shortest_and_longest_pause() {
    assert_eq!(delay_millis(100), 10);
    assert_eq!(delay_millis(0), 10_000);
}

#[test]
fn throttle_maps_monotonically_to_pause() {
    assert_eq!(delay_millis(50), 5_000);
    assert_eq!(delay_millis(99), 100);
    assert_eq!(delay_millis(-5), 10_000);
    assert_eq!(delay_millis(250), 10);
    let mut prev = delay_millis(0);
    for t in 1..=100 {
        let d = delay_millis(t);
        assert!(d <= prev);
        assert!((10..=10_000).contains(&d));
        prev = d;
    }
}
