use std::time::Duration;

use easyduration::EasyDuration;

#[test]
fn test_easy_duration() {
    // Seconds.
    assert_eq!(1i8.seconds(), Duration::from_secs(1));
    assert_eq!(1i16.seconds(), Duration::from_secs(1));
    assert_eq!(1i32.seconds(), Duration::from_secs(1));
    assert_eq!(1i64.seconds(), Duration::from_secs(1));
    assert_eq!(1u8.seconds(), Duration::from_secs(1));
    assert_eq!(1u16.seconds(), Duration::from_secs(1));
    assert_eq!(1u32.seconds(), Duration::from_secs(1));
    assert_eq!(1u64.seconds(), Duration::from_secs(1));

    // Minutes
    assert_eq!(1i8.minutes(), Duration::from_secs(60));
    assert_eq!(1i16.minutes(), Duration::from_secs(60));
    assert_eq!(1i32.minutes(), Duration::from_secs(60));
    assert_eq!(1i64.minutes(), Duration::from_secs(60));
    assert_eq!(1u8.minutes(), Duration::from_secs(60));
    assert_eq!(1u16.minutes(), Duration::from_secs(60));
    assert_eq!(1u32.minutes(), Duration::from_secs(60));
    assert_eq!(1u64.minutes(), Duration::from_secs(60));

    // Hours.
    assert_eq!(1i8.hours(), Duration::from_secs(60 * 60));
    assert_eq!(1i16.hours(), Duration::from_secs(60 * 60));
    assert_eq!(1i32.hours(), Duration::from_secs(60 * 60));
    assert_eq!(1i64.hours(), Duration::from_secs(60 * 60));
    assert_eq!(1u8.hours(), Duration::from_secs(60 * 60));
    assert_eq!(1u16.hours(), Duration::from_secs(60 * 60));
    assert_eq!(1u32.hours(), Duration::from_secs(60 * 60));
    assert_eq!(1u64.hours(), Duration::from_secs(60 * 60));

    // Days.
    assert_eq!(1i8.days(), Duration::from_secs(60 * 60 * 24));
    assert_eq!(1i16.days(), Duration::from_secs(60 * 60 * 24));
    assert_eq!(1i32.days(), Duration::from_secs(60 * 60 * 24));
    assert_eq!(1i64.days(), Duration::from_secs(60 * 60 * 24));
    assert_eq!(1u8.days(), Duration::from_secs(60 * 60 * 24));
    assert_eq!(1u16.days(), Duration::from_secs(60 * 60 * 24));
    assert_eq!(1u32.days(), Duration::from_secs(60 * 60 * 24));
    assert_eq!(1u64.days(), Duration::from_secs(60 * 60 * 24));

    // Years.
    assert_eq!(1i8.years(), Duration::from_secs(60 * 60 * 24 * 365));
    assert_eq!(1i16.years(), Duration::from_secs(60 * 60 * 24 * 365));
    assert_eq!(1i32.years(), Duration::from_secs(60 * 60 * 24 * 365));
    assert_eq!(1i64.years(), Duration::from_secs(60 * 60 * 24 * 365));
    assert_eq!(1u8.years(), Duration::from_secs(60 * 60 * 24 * 365));
    assert_eq!(1u16.years(), Duration::from_secs(60 * 60 * 24 * 365));
    assert_eq!(1u32.years(), Duration::from_secs(60 * 60 * 24 * 365));
    assert_eq!(1u64.years(), Duration::from_secs(60 * 60 * 24 * 365));
}
