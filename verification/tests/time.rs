use chrono::{DateTime, NaiveDate, NaiveDateTime};
use wed::date_format::{deserialize, serialize};
use wed::error::Error;
use wed::time::{Timestamp, MAX_SECONDS, MIN_SECONDS};
use wed::{date_parser, DATE_INPUT_FORMAT};

fn stamp(moment: NaiveDateTime) -> Timestamp {
    Timestamp::new(moment.and_utc().timestamp(), moment.and_utc().timestamp_subsec_nanos()).unwrap()
}

fn moment(hour: u32, minute: u32, second: u32, nano: u32) -> NaiveDateTime {
    NaiveDate::from_ymd_opt(2015, 6, 30).unwrap().and_hms_nano_opt(hour, minute, second, nano).unwrap()
}

#[test]
fn a_timestamp_is_what_the_calendar_can_hold() {
    for (secs, nanos) in [
        (0i64, 0u32),
        (MIN_SECONDS, 0),
        (MIN_SECONDS - 1, 0),
        (MAX_SECONDS, 999_999_999),
        (MAX_SECONDS, 1_999_999_999),
        (MAX_SECONDS, 2_000_000_000),
        (MAX_SECONDS + 1, 0),
        (59, 1_000_000_000),
        (58, 1_000_000_000),
        (60, 1_000_000_000),
        (-1, 1_500_000_000),
        (-2, 1_500_000_000),
        (-61, 1_000_000_000),
        (i64::MIN, 0),
        (i64::MAX, 0),
        (1621555200, 999_999_999),
    ] {
        let ours = Timestamp::new(secs, nanos);
        let theirs = DateTime::from_timestamp(secs, nanos);
        assert_eq!(ours.is_some(), theirs.is_some());
        if let Some(ours) = ours {
            assert_eq!(ours.secs(), secs);
            assert_eq!(ours.nanos(), nanos);
            assert_eq!(ours, stamp(theirs.unwrap().naive_utc()));
        }
    }
}

#[test]
fn differences_agree_with_the_calendar() {
    let moments = vec![
        moment(0, 0, 0, 0),
        moment(3, 0, 59, 0),
        moment(3, 0, 59, 999_999_999),
        moment(3, 0, 59, 1_000_000_000),
        moment(3, 0, 59, 1_500_000_000),
        moment(3, 1, 0, 0),
        moment(3, 1, 0, 200_000_000),
        moment(2, 59, 59, 1_000_000_000),
        moment(23, 59, 59, 1_999_999_999),
        moment(23, 59, 59, 1),
        NaiveDate::from_ymd_opt(2015, 7, 1).unwrap().and_hms_nano_opt(0, 0, 0, 5).unwrap(),
        NaiveDate::from_ymd_opt(2015, 7, 16).unwrap().and_hms_opt(0, 0, 0).unwrap(),
        NaiveDate::from_ymd_opt(1969, 12, 31).unwrap().and_hms_nano_opt(23, 59, 59, 1_250_000_000).unwrap(),
        NaiveDate::from_ymd_opt(1960, 2, 29).unwrap().and_hms_nano_opt(12, 30, 1, 999).unwrap(),
        NaiveDateTime::MIN,
        NaiveDateTime::MAX,
    ];
    for a in &moments {
        for b in &moments {
            let delta = a.signed_duration_since(*b);
            let (ours_a, ours_b) = (stamp(*a), stamp(*b));
            assert_eq!(ours_a.whole_seconds_since(&ours_b), delta.num_seconds());
            assert_eq!(ours_a.whole_minutes_since(&ours_b), delta.num_minutes());
            assert_eq!(ours_a.whole_days_since(&ours_b), delta.num_days());
            assert_eq!(ours_a.whole_minutes_apart(&ours_b), delta.num_minutes().abs());
            assert_eq!(ours_a.before(&ours_b), a < b);
        }
    }
}

#[test]
fn whole_units_are_cut_off_towards_zero() {
    let start = stamp(moment(0, 0, 0, 0));
    let later = stamp(moment(0, 1, 59, 999_999_999));
    assert_eq!(later.whole_minutes_since(&start), 1);
    assert_eq!(start.whole_minutes_since(&later), -1);
    assert_eq!(start.whole_minutes_apart(&later), 1);
    assert_eq!(later.whole_seconds_since(&start), 119);
    assert_eq!(start.whole_seconds_since(&later), -119);
    assert_eq!(later.whole_days_since(&start), 0);
}

#[test]
fn dates_are_read_as_typed_in() {
    assert_eq!(DATE_INPUT_FORMAT, "%Y-%m-%d %H:%M");
    let date = date_parser(&"2021-05-21 00:00".to_string()).unwrap();
    assert_eq!(date.secs(), 1621555200);
    assert_eq!(date.nanos(), 0);
    for text in ["2021-05-21", "2021-05-21 00:00:00", "tomorrow"] {
        let failed = date_parser(&text.to_string()).unwrap_err();
        assert_eq!(
            failed,
            Error::InvalidTimestamp { format: "%Y-%m-%d %H:%M".to_string(), value: text.to_string() }
        );
    }
    assert_eq!(
        date_parser(&"tomorrow".to_string()).unwrap_err().to_string(),
        "Failed to parse date and time, it should be in the format %Y-%m-%d %H:%M: tomorrow"
    );
}

#[test]
fn dates_are_stored_with_seconds() {
    let date = deserialize("2021-05-21 00:00:07").unwrap();
    assert_eq!(date.secs(), 1621555207);
    assert_eq!(serialize(&date), "2021-05-21 00:00:07");
    for text in ["2021-05-21 00:00", "2021-05-21T00:00:07"] {
        assert_eq!(
            deserialize(text),
            Err(Error::InvalidTimestamp {
                format: "%Y-%m-%d %H:%M:%S".to_string(),
                value: text.to_string(),
            })
        );
    }
    let leap = deserialize("2015-06-30 23:59:60").unwrap();
    assert_eq!(leap.nanos(), 1_000_000_000);
    assert_eq!(serialize(&leap), "2015-06-30 23:59:60");
    assert_eq!(serialize(&Timestamp::new(MIN_SECONDS, 0).unwrap()), "-262143-01-01 00:00:00");
    assert_eq!(serialize(&Timestamp::new(MAX_SECONDS, 0).unwrap()), "+262142-12-31 23:59:59");
}

#[test]
fn the_hours_of_the_provider_are_read() {
    let hour = Timestamp::parse("2023-05-21T12:00", "%Y-%m-%dT%H:%M").unwrap();
    assert_eq!(hour.secs(), 1684670400);
    assert!(Timestamp::parse("2023-05-21 12:00", "%Y-%m-%dT%H:%M").is_none());
    assert!(Timestamp::parse("2023-05-21T12:00", "%Q").is_none());
}
