use vbt::utils::time::{
    generate_time, generate_unix_timestamp, Timestamp, MAX_UNIX_SECONDS, MIN_UNIX_SECONDS,
};

#[test]
fn from_unix_accepts_exactly_the_representable_range() {
    assert!(Timestamp::from_unix(0).is_some());
    assert!(Timestamp::from_unix(MIN_UNIX_SECONDS).is_some());
    assert!(Timestamp::from_unix(MAX_UNIX_SECONDS).is_some());
    assert!(Timestamp::from_unix(MIN_UNIX_SECONDS - 1).is_none());
    assert!(Timestamp::from_unix(MAX_UNIX_SECONDS + 1).is_none());
    assert!(Timestamp::from_unix(i64::MIN).is_none());
    assert!(Timestamp::from_unix(i64::MAX).is_none());
    assert_eq!(Timestamp::from_unix(1_700_000_000).unwrap().unix(), 1_700_000_000);
}

#[test]
fn saturating_from_unix_holds_to_the_range() {
    assert_eq!(Timestamp::saturating_from_unix(i64::MIN).unix(), MIN_UNIX_SECONDS);
    assert_eq!(Timestamp::saturating_from_unix(i64::MAX).unix(), MAX_UNIX_SECONDS);
    assert_eq!(Timestamp::saturating_from_unix(42).unix(), 42);
}

#[test]
fn bounds_are_the_second_and_the_second_to_last_day_of_four_digit_years() {
    let first = Timestamp::from_unix(MIN_UNIX_SECONDS).unwrap();
    let last = Timestamp::from_unix(MAX_UNIX_SECONDS).unwrap();
    assert_eq!(first.to_utc_display(), "0000-01-02 00:00:00 UTC");
    assert_eq!(last.to_utc_display(), "9999-12-30 23:59:59 UTC");
    assert_eq!(last.to_rfc2822(), "Thu, 30 Dec 9999 23:59:59 +0000");
    assert_eq!(last.to_rfc2822_vietnam(), "Fri, 31 Dec 9999 06:59:59 +0700");
    assert_eq!(first.to_rfc2822_vietnam(), "Sun, 2 Jan 0000 07:00:00 +0700");
}

#[test]
fn rfc2822_text_of_a_known_instant() {
    let date = Timestamp::from_unix(1_431_648_000).unwrap();
    assert_eq!(date.to_rfc2822(), "Fri, 15 May 2015 00:00:00 +0000");
    assert_eq!(date.to_rfc2822_vietnam(), "Fri, 15 May 2015 07:00:00 +0700");
    assert_eq!(date.to_utc_display(), "2015-05-15 00:00:00 UTC");
}

#[test]
fn parse_reads_rfc2822_text() {
    let date = Timestamp::parse_rfc2822("Wed, 18 Feb 2015 23:16:09 GMT").unwrap();
    assert_eq!(date.unix(), 1_424_301_369);
    let east = Timestamp::parse_rfc2822("Fri, 15 May 2015 07:00:00 +0700").unwrap();
    assert_eq!(east.unix(), 1_431_648_000);
}

#[test]
fn parse_rejects_other_text() {
    assert!(Timestamp::parse_rfc2822("").is_none());
    assert!(Timestamp::parse_rfc2822("yesterday").is_none());
    assert!(Timestamp::parse_rfc2822("2015-05-15 00:00:00 UTC").is_none());
}

#[test]
fn from_parsed_keeps_representable_seconds_only() {
    assert_eq!(Timestamp::from_parsed(Some(5)).map(|t| t.unix()), Some(5));
    assert!(Timestamp::from_parsed(Some(MAX_UNIX_SECONDS + 1)).is_none());
    assert!(Timestamp::from_parsed(None).is_none());
}

#[test]
fn written_text_reads_back_as_the_same_instant() {
    for secs in [0i64, 1, 59, 1_431_648_000, 1_700_000_000, 4_102_444_800] {
        let date = Timestamp::from_unix(secs).unwrap();
        assert_eq!(Timestamp::parse_rfc2822(&date.to_rfc2822()), Some(date));
    }
}

#[test]
fn now_is_representable_and_recent() {
    let now = Timestamp::now();
    assert!(now.unix() > 1_700_000_000);
    assert!(now.unix() <= MAX_UNIX_SECONDS);
    assert!(generate_unix_timestamp() >= now.unix());
}

#[test]
fn generated_time_is_vietnam_time() {
    let text = generate_time();
    assert!(text.ends_with(" +0700"));
    let read = Timestamp::parse_rfc2822(&text).unwrap();
    let now = Timestamp::now();
    assert!(now.unix() - read.unix() >= 0);
    assert!(now.unix() - read.unix() < 60);
}
