use img_comp::decimal::to_decimal;
use img_comp::elapsed::Elapsed;
use std::time::{Duration, Instant};

fn text(secs: u64, nanos: u32) -> String {
    Elapsed::new(secs, nanos).expect("a proper fraction of a second").to_string()
}

#[test]
fn nanoseconds_below_one_microsecond() {
    assert_eq!(text(0, 950), "950 ns");
    assert_eq!(text(0, 0), "0 ns");
    assert_eq!(text(0, 999), "999 ns");
}

#[test]
fn microseconds_below_one_millisecond() {
    assert_eq!(text(0, 1_000), "1 µs");
    assert_eq!(text(0, 1_999), "1 µs");
    assert_eq!(text(0, 999_999), "999 µs");
}

#[test]
fn milliseconds_are_truncated_not_rounded() {
    assert_eq!(text(0, 1_000_000), "1 ms");
    assert_eq!(text(0, 1_500_000), "1 ms");
    assert_eq!(text(0, 999_999_999), "999 ms");
}

#[test]
fn seconds_below_ten_show_two_digits_of_hundredths() {
    assert_eq!(text(9, 999_000_000), "9.99 s");
    assert_eq!(text(9, 999_999_999), "9.99 s");
    assert_eq!(text(1, 0), "1.00 s");
    assert_eq!(text(1, 9_999_999), "1.00 s");
    assert_eq!(text(1, 50_000_000), "1.05 s");
    assert_eq!(text(3, 140_000_000), "3.14 s");
}

#[test]
fn ten_seconds_and_more_drop_the_fraction() {
    assert_eq!(text(10, 100_000_000), "10 s");
    assert_eq!(text(10, 0), "10 s");
    assert_eq!(text(10, 999_999_999), "10 s");
    assert_eq!(text(86_400, 1), "86400 s");
    assert_eq!(text(u64::MAX, 0), "18446744073709551615 s");
}

#[test]
fn a_full_second_of_nanoseconds_is_no_fraction() {
    assert!(Elapsed::new(0, 1_000_000_000).is_none());
    assert!(Elapsed::new(7, u32::MAX).is_none());
    assert!(Elapsed::new(7, 999_999_999).is_some());
}

#[test]
fn the_parts_of_a_span_come_back() {
    let span = Elapsed::new(12, 345).unwrap();
    assert_eq!(span.as_secs(), 12);
    assert_eq!(span.subsec_nanos(), 345);
}

#[test]
fn time_since_an_instant_is_a_short_span() {
    let start = Instant::now();
    let span = Elapsed::from(&start);
    assert!(span.as_secs() < 60);
    assert!(span.subsec_nanos() < 1_000_000_000);
    let text = span.to_string();
    assert!(text.ends_with(" ns") || text.ends_with(" µs") || text.ends_with(" ms") || text.ends_with(" s"));
}

#[test]
fn later_readings_of_one_instant_do_not_go_back() {
    let start = Instant::now();
    let first = Elapsed::from(&start);
    let second = Elapsed::from(&start);
    assert!((second.as_secs(), second.subsec_nanos()) >= (first.as_secs(), first.subsec_nanos()));
}

#[test]
fn decimal_numerals() {
    assert_eq!(to_decimal(0), "0");
    assert_eq!(to_decimal(7), "7");
    assert_eq!(to_decimal(10), "10");
    assert_eq!(to_decimal(1_000_000), "1000000");
    assert_eq!(to_decimal(u128::MAX), "340282366920938463463374607431768211455");
}

#[test]
fn a_duration_gives_its_seconds_and_its_fraction() {
    let span = Elapsed::from_duration(&Duration::new(12, 345_000_000));
    assert_eq!(span.as_secs(), 12);
    assert_eq!(span.subsec_nanos(), 345_000_000);
    assert_eq!(span.to_string(), "12 s");
    let span = Elapsed::from_duration(&Duration::from_millis(1_500));
    assert_eq!((span.as_secs(), span.subsec_nanos()), (1, 500_000_000));
    assert_eq!(span.to_string(), "1.50 s");
    assert_eq!(Elapsed::from_duration(&Duration::from_nanos(950)).to_string(), "950 ns");
    assert_eq!(Elapsed::from_duration(&Duration::new(3, 1_999_999_999)).as_secs(), 4);
}

#[test]
fn time_since_an_instant_covers_a_pause() {
    let start = Instant::now();
    while start.elapsed() < Duration::from_millis(5) {
        std::hint::spin_loop();
    }
    let span = Elapsed::from(&start);
    let nanos = span.as_secs() as u128 * 1_000_000_000 + span.subsec_nanos() as u128;
    assert!(nanos >= 5_000_000);
    assert!(nanos <= start.elapsed().as_nanos());
}
