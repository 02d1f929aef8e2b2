//! Instants, timestamps and ages.

use attestation::clock::{age_of, parse_report_timestamp, Timestamp, UnixTime, NANOS_PER_SEC};
use attestation::error::AttestationError;
use std::time::{Duration, UNIX_EPOCH};

fn now(secs: u64, nanos: u32) -> UnixTime {
    UnixTime { secs, nanos }
}

fn stamp(secs: i64, nanos: u32) -> Timestamp {
    Timestamp { secs, nanos }
}

#[test]
fn a_second_has_a_billion_nanoseconds() {
    assert_eq!(NANOS_PER_SEC, 1_000_000_000);
}

#[test]
fn timestamp_is_read_as_utc() {
    assert_eq!(parse_report_timestamp("2020-05-01T00:00:00.000"), Ok(stamp(1_588_291_200, 0)));
    assert_eq!(parse_report_timestamp("1970-01-01T00:00:00"), Ok(stamp(0, 0)));
    assert_eq!(parse_report_timestamp("1970-01-01T00:00:01.5"), Ok(stamp(1, 500_000_000)));
    assert_eq!(
        parse_report_timestamp("2020-01-01T00:00:00.123"),
        Ok(stamp(1_577_836_800, 123_000_000))
    );
    assert_eq!(
        parse_report_timestamp("2019-12-31T23:59:59.999999999"),
        Ok(stamp(1_577_836_799, 999_999_999))
    );
    assert_eq!(parse_report_timestamp("1969-12-31T23:59:59"), Ok(stamp(-1, 0)));
}

#[test]
fn leap_second_is_counted_on_from_the_second_before() {
    assert_eq!(
        parse_report_timestamp("2016-12-31T23:59:60.25"),
        Ok(stamp(1_483_228_799, 1_250_000_000))
    );
}

#[test]
fn timestamp_of_another_form_is_a_report_error() {
    for text in [
        "",
        "yesterday",
        "2020-05-01",
        "2020-05-01 00:00:00",
        "2020-05-01T00:00:00Z",
        "2020-05-01T00:00:00+0100",
        "2020-13-01T00:00:00",
        "2020-02-30T00:00:00",
        "2020-05-01T24:00:00",
        "2020-05-01T00:00:00.000x",
        "01/05/2020T00:00:00",
    ] {
        assert_eq!(
            parse_report_timestamp(text),
            Err(AttestationError::ReportError),
            "{:?}",
            text
        );
    }
}

#[test]
fn age_is_the_difference_in_whole_seconds() {
    assert_eq!(age_of(now(1_588_291_260, 0), stamp(1_588_291_200, 0)), Ok(60));
    assert_eq!(age_of(now(100, 0), stamp(100, 0)), Ok(0));
    assert_eq!(age_of(now(100, 999_999_999), stamp(100, 0)), Ok(0));
    assert_eq!(age_of(now(101, 0), stamp(100, 1)), Ok(0));
    assert_eq!(age_of(now(101, 1), stamp(100, 1)), Ok(1));
    assert_eq!(age_of(now(10, 900_000_000), stamp(5, 500_000_000)), Ok(5));
    assert_eq!(age_of(now(10, 400_000_000), stamp(5, 500_000_000)), Ok(4));
    assert_eq!(age_of(now(0, 0), stamp(-86_400, 0)), Ok(86_400));
}

#[test]
fn age_counts_a_leap_second_on_from_the_second_before() {
    assert_eq!(age_of(now(1_483_228_800, 0), stamp(1_483_228_799, 1_000_000_000)), Ok(0));
    assert_eq!(age_of(now(1_483_228_801, 0), stamp(1_483_228_799, 1_500_000_000)), Ok(0));
    assert_eq!(age_of(now(1_483_228_801, 500_000_000), stamp(1_483_228_799, 1_500_000_000)), Ok(1));
}

#[test]
fn timestamp_less_than_a_second_ahead_has_age_zero() {
    assert_eq!(age_of(now(100, 0), stamp(100, 1)), Ok(0));
    assert_eq!(age_of(now(100, 0), stamp(100, 999_999_999)), Ok(0));
    assert_eq!(age_of(now(99, 1), stamp(100, 0)), Ok(0));
}

#[test]
fn timestamp_a_second_or_more_ahead_is_a_report_error() {
    assert_eq!(age_of(now(99, 0), stamp(100, 0)), Err(AttestationError::ReportError));
    assert_eq!(age_of(now(100, 0), stamp(101, 0)), Err(AttestationError::ReportError));
    assert_eq!(age_of(now(100, 5), stamp(101, 5)), Err(AttestationError::ReportError));
    assert_eq!(age_of(now(0, 0), stamp(i64::MAX, u32::MAX)), Err(AttestationError::ReportError));
    assert_eq!(age_of(now(100, 0), stamp(100, 1_000_000_000)), Err(AttestationError::ReportError));
}

#[test]
fn largest_age_fits() {
    assert_eq!(
        age_of(now(i64::MAX as u64, 999_999_999), stamp(i64::MIN, 0)),
        Ok(u64::MAX)
    );
    assert_eq!(age_of(now(i64::MAX as u64, 0), stamp(0, 0)), Ok(i64::MAX as u64));
}

#[test]
fn instant_that_is_not_representable_is_a_time_error() {
    assert_eq!(age_of(now(100, 1_000_000_000), stamp(0, 0)), Err(AttestationError::TimeError));
    assert_eq!(age_of(now(100, u32::MAX), stamp(0, 0)), Err(AttestationError::TimeError));
    assert_eq!(age_of(now(1 << 63, 0), stamp(0, 0)), Err(AttestationError::TimeError));
    assert_eq!(age_of(now(u64::MAX, 0), stamp(200, 0)), Err(AttestationError::TimeError));
    assert!(!now(100, 1_000_000_000).check_representable());
    assert!(!now(1 << 63, 0).check_representable());
    assert!(now((1 << 63) - 1, 999_999_999).check_representable());
    assert!(now(0, 0).check_representable());
}

#[test]
fn advancing_the_clock_advances_the_age() {
    let timestamp = stamp(1_588_291_200, 250_000_000);
    for base in [now(1_588_291_200, 250_000_000), now(1_588_291_203, 0), now(1_600_000_000, 7)] {
        let before = age_of(base, timestamp).unwrap();
        for delta in [0u64, 1, 2, 60, 86_400, 1 << 40] {
            let after = age_of(now(base.secs + delta, base.nanos), timestamp).unwrap();
            assert_eq!(after, before + delta);
        }
    }
}

#[test]
fn system_clock_is_past_the_epoch() {
    let instant = UnixTime::now().expect("the clock is set before 1970");
    assert!(instant.nanos < 1_000_000_000);
    assert!(instant.secs > 1_588_291_200);
    assert!(instant.check_representable());
}

#[test]
fn distance_from_the_epoch_is_split_into_seconds_and_nanoseconds() {
    assert_eq!(UnixTime::from_reading(Ok(Duration::new(0, 0))), Some(now(0, 0)));
    assert_eq!(UnixTime::from_reading(Ok(Duration::new(5, 7))), Some(now(5, 7)));
    assert_eq!(
        UnixTime::from_reading(Ok(Duration::from_millis(1_588_291_200_250))),
        Some(now(1_588_291_200, 250_000_000))
    );
    assert_eq!(
        UnixTime::from_reading(Ok(Duration::new(u64::MAX, 999_999_999))),
        Some(now(u64::MAX, 999_999_999))
    );
    assert_eq!(
        UnixTime::from_reading(Ok(Duration::new(1, 1_500_000_000))),
        Some(now(2, 500_000_000))
    );
}

#[test]
fn clock_before_the_epoch_gives_no_instant() {
    let before = UNIX_EPOCH - Duration::from_secs(1);
    assert_eq!(UnixTime::from_reading(before.duration_since(UNIX_EPOCH)), None);
    let after = UNIX_EPOCH + Duration::new(3, 4);
    assert_eq!(UnixTime::from_reading(after.duration_since(UNIX_EPOCH)), Some(now(3, 4)));
}
