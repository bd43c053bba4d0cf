use std::time::Duration;

use moonshine::clock::{frame_interval, monotonic_ms};

#[test]
fn frame_interval_agrees_with_duration() {
    let mut rates: Vec<u32> = (0..20_000).collect();
    let mut tie = 1024u64;
    while tie <= u32::MAX as u64 {
        rates.push(tie as u32);
        tie *= 5;
    }
    rates.extend([1 << 31, u32::MAX, 1_999_999_999, 2_000_000_000, 2_000_000_001, 999_999_999]);
    for rate in rates {
        let expected = Duration::from_secs_f64(1.0 / rate.max(1) as f64);
        assert_eq!(frame_interval(rate) as u128, expected.as_nanos(), "{rate}");
    }
}

#[test]
fn common_rates() {
    assert_eq!(frame_interval(60), 16_666_667);
    assert_eq!(frame_interval(30), 33_333_333);
    assert_eq!(frame_interval(120), 8_333_333);
    assert_eq!(frame_interval(1), 1_000_000_000);
    assert_eq!(frame_interval(0), 1_000_000_000);
    assert_eq!(frame_interval(1024), 976_562);
}

#[test]
fn milliseconds_wrap_around() {
    assert_eq!(monotonic_ms(0), 0);
    assert_eq!(monotonic_ms(4_294_967_295), u32::MAX);
    assert_eq!(monotonic_ms(4_294_967_296), 0);
    assert_eq!(monotonic_ms(4_294_967_296 * 3 + 17), 17);
}
