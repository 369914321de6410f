use task_tui::clock::Timestamp;

#[test]
fn new_keeps_seconds_and_nanoseconds() {
    let stamp = Timestamp::new(1_609_459_200, 123_000_000).unwrap();
    assert_eq!(stamp.seconds(), 1_609_459_200);
    assert_eq!(stamp.nanoseconds(), 123_000_000);
}

#[test]
fn new_takes_times_before_1970() {
    let stamp = Timestamp::new(-1, 999_999_999).unwrap();
    assert_eq!(stamp.seconds(), -1);
    assert_eq!(stamp.to_rfc3339(), "1969-12-31T23:59:59.999999999Z");
}

#[test]
fn new_refuses_what_chrono_cannot_hold() {
    assert_eq!(Timestamp::new(0, 2_000_000_000), None);
    assert_eq!(Timestamp::new(i64::MAX, 0), None);
    assert_eq!(Timestamp::new(i64::MIN, 0), None);
    // A nanosecond count of a leap second is only known in the last second
    // of a minute.
    assert_eq!(Timestamp::new(0, 1_500_000_000), None);
    assert!(Timestamp::new(59, 1_500_000_000).is_some());
}

#[test]
fn rfc3339_text_of_a_whole_second() {
    let stamp = Timestamp::new(1_609_459_200, 0).unwrap();
    assert_eq!(stamp.to_rfc3339(), "2021-01-01T00:00:00Z");
}

#[test]
fn rfc3339_text_with_a_fraction() {
    let stamp = Timestamp::new(1_609_459_200, 123_000_000).unwrap();
    assert_eq!(stamp.to_rfc3339(), "2021-01-01T00:00:00.123Z");
    let stamp = Timestamp::new(1_609_459_200, 1).unwrap();
    assert_eq!(stamp.to_rfc3339(), "2021-01-01T00:00:00.000000001Z");
}

#[test]
fn display_text_is_the_one_of_the_detail_line() {
    let stamp = Timestamp::new(1_431_648_000, 0).unwrap();
    assert_eq!(stamp.to_string(), "2015-05-15 00:00:00 UTC");
    let stamp = Timestamp::new(1_609_459_200, 123_000_000).unwrap();
    assert_eq!(stamp.to_string(), "2021-01-01 00:00:00.123 UTC");
}

#[test]
fn parse_reads_what_was_written() {
    let stamp = Timestamp::new(1_609_459_200, 123_456_789).unwrap();
    assert_eq!(Timestamp::parse(&stamp.to_rfc3339()), Some(stamp));
}

#[test]
fn parse_brings_an_offset_to_utc() {
    let read = Timestamp::parse("2021-01-01T01:00:00+01:00").unwrap();
    assert_eq!(read.seconds(), 1_609_459_200);
    assert_eq!(read.nanoseconds(), 0);
}

#[test]
fn parse_takes_a_space_between_date_and_time() {
    let read = Timestamp::parse("2021-01-01 00:00:00Z").unwrap();
    assert_eq!(read.seconds(), 1_609_459_200);
}

#[test]
fn parse_refuses_what_is_no_time() {
    assert_eq!(Timestamp::parse(""), None);
    assert_eq!(Timestamp::parse("yesterday"), None);
    assert_eq!(Timestamp::parse("2021-13-01T00:00:00Z"), None);
    assert_eq!(Timestamp::parse("2021-01-01"), None);
}

#[test]
fn now_is_a_time_of_this_century() {
    let now = Timestamp::now();
    assert!(now.seconds() > 1_600_000_000);
    assert!(now.nanoseconds() < 2_000_000_000);
    assert_eq!(Timestamp::new(now.seconds(), now.nanoseconds()), Some(now));
}

#[test]
fn times_are_ordered_by_seconds_then_nanoseconds() {
    let early = Timestamp::new(10, 5).unwrap();
    let same_second = Timestamp::new(10, 6).unwrap();
    let later = Timestamp::new(11, 0).unwrap();
    assert!(early.at_or_before(&early));
    assert!(early.at_or_before(&same_second));
    assert!(!same_second.at_or_before(&early));
    assert!(same_second.at_or_before(&later));
    assert!(!later.at_or_before(&same_second));
    assert!(Timestamp::new(-1, 999_999_999).unwrap().at_or_before(&Timestamp::new(0, 0).unwrap()));
}
