use rebuildctl::time::{Timestamp, FIRST_SECOND, LAST_SECOND};

fn at(secs: i64, nanos: u32) -> Timestamp {
    Timestamp::new(secs, nanos).unwrap()
}

#[test]
fn timestamps_cover_the_range_of_chrono() {
    let first = at(FIRST_SECOND, 0);
    let last = at(LAST_SECOND, 1_999_999_999);
    assert_eq!(first.text(), "-262143-01-01 00:00:00");
    assert_eq!(last.text(), "+262142-12-31 23:59:60");
    assert!(Timestamp::new(FIRST_SECOND - 1, 0).is_none());
    assert!(Timestamp::new(LAST_SECOND + 1, 0).is_none());
    assert!(chrono::DateTime::from_timestamp(FIRST_SECOND - 1, 0).is_none());
    assert!(chrono::DateTime::from_timestamp(LAST_SECOND + 1, 0).is_none());
    assert_eq!(last.seconds_since(&first), 16_544_868_105_600);
    assert_eq!(first.seconds_since(&last), -16_544_868_105_600);
}

#[test]
fn only_the_last_second_of_a_minute_can_leap() {
    for secs in [-61i64, -60, -2, -1, 0, 58, 59, 60, 119] {
        for nanos in [0u32, 999_999_999, 1_000_000_000, 1_999_999_999, 2_000_000_000] {
            assert_eq!(
                Timestamp::new(secs, nanos).is_some(),
                chrono::DateTime::from_timestamp(secs, nanos).is_some(),
            );
        }
    }
    assert!(Timestamp::new(-1, 1_000_000_000).is_some());
    assert!(Timestamp::new(-2, 1_000_000_000).is_none());
}

#[test]
fn a_timestamp_is_printed_to_the_second() {
    assert_eq!(at(0, 0).text(), "1970-01-01 00:00:00");
    assert_eq!(at(1_591_711_439, 999_999_999).text(), "2020-06-09 14:03:59");
    assert_eq!(at(1_591_711_439, 1_000_000_000).text(), "2020-06-09 14:03:60");
}

#[test]
fn fractions_of_a_second_are_dropped() {
    assert_eq!(at(100, 0).seconds_since(&at(40, 500_000_000)), 59);
    assert_eq!(at(40, 500_000_000).seconds_since(&at(100, 0)), -59);
    assert_eq!(at(40, 900_000_000).seconds_since(&at(40, 0)), 0);
    assert_eq!(at(40, 0).seconds_since(&at(40, 900_000_000)), 0);
}

#[test]
fn a_leap_second_counts_between_different_times_of_day() {
    let leap = at(59, 1_500_000_000);
    assert_eq!(at(61, 0).seconds_since(&at(59, 0)), 2);
    assert_eq!(at(61, 500_000_000).seconds_since(&leap), 2);
    assert_eq!(leap.seconds_since(&at(61, 500_000_000)), -2);
    assert_eq!(leap.seconds_since(&at(59, 0)), 1);
    // The same time of day on another day, and an earlier time of day on a later day.
    assert_eq!(at(86_459, 0).seconds_since(&leap), 86_398);
    assert_eq!(at(86_458, 500_000_000).seconds_since(&leap), 86_398);
}
