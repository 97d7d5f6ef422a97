use wolfline::clock::{Duration, Instant};

fn at(text: &str) -> Instant {
    Instant::parse_rfc3339(text).unwrap()
}

#[test]
fn parse_reads_utc() {
    assert_eq!(Instant::parse_rfc3339("1970-01-01T00:00:00Z"), Some(Instant { secs: 0, nanos: 0 }));
    assert_eq!(
        Instant::parse_rfc3339("2015-05-15T00:00:00Z"),
        Some(Instant { secs: 1_431_648_000, nanos: 0 })
    );
}

#[test]
fn parse_reads_offsets_and_fractions() {
    assert_eq!(
        Instant::parse_rfc3339("1996-12-19T16:39:57-08:00"),
        Some(Instant { secs: 851_042_397, nanos: 0 })
    );
    assert_eq!(
        Instant::parse_rfc3339("1970-01-01T01:00:00.25+01:00"),
        Some(Instant { secs: 0, nanos: 250_000_000 })
    );
    assert_eq!(
        Instant::parse_rfc3339("1969-12-31T23:59:59Z"),
        Some(Instant { secs: -1, nanos: 0 })
    );
}

#[test]
fn parse_reads_a_leap_second() {
    assert_eq!(
        Instant::parse_rfc3339("2015-06-30T23:59:60Z"),
        Some(Instant { secs: 1_435_708_799, nanos: 1_000_000_000 })
    );
}

#[test]
fn parse_refuses_what_is_no_date() {
    assert_eq!(Instant::parse_rfc3339("not-a-date"), None);
    assert_eq!(Instant::parse_rfc3339(""), None);
    assert_eq!(Instant::parse_rfc3339("2015-05-15"), None);
    assert_eq!(Instant::parse_rfc3339("2015-05-15T00:00:00"), None);
    assert_eq!(Instant::parse_rfc3339("2015-13-15T00:00:00Z"), None);
    assert_eq!(Instant::parse_rfc3339("2015-05-15T00:00:00Z trailing"), None);
}

#[test]
fn new_accepts_what_the_calendar_holds() {
    assert_eq!(Instant::new(0, 0), Some(Instant { secs: 0, nanos: 0 }));
    assert_eq!(Instant::new(-1, 999_999_999), Some(Instant { secs: -1, nanos: 999_999_999 }));
    assert_eq!(Instant::new(59, 1_500_000_000), Some(Instant { secs: 59, nanos: 1_500_000_000 }));
}

#[test]
fn new_refuses_what_the_calendar_lacks() {
    assert_eq!(Instant::new(0, 2_000_000_000), None);
    assert_eq!(Instant::new(0, 1_000_000_000), None);
    assert_eq!(Instant::new(i64::MAX, 0), None);
    assert_eq!(Instant::new(i64::MIN, 0), None);
}

#[test]
fn now_is_after_2020() {
    let now = Instant::now();
    assert!(now.secs > 1_577_836_800);
    assert!(now.nanos < 2_000_000_000);
    assert_eq!(Instant::new(now.secs, now.nanos), Some(now));
}

#[test]
fn span_to_a_later_time_is_positive() {
    let from = at("2024-01-01T00:00:00Z");
    let to = at("2024-01-01T00:05:30.5Z");
    assert_eq!(to.signed_duration_since(from), Duration { secs: 330, nanos: 500_000_000 });
}

#[test]
fn span_to_an_earlier_time_is_negative() {
    let from = at("2024-01-01T00:05:30.5Z");
    let to = at("2024-01-01T00:00:00Z");
    assert_eq!(to.signed_duration_since(from), Duration { secs: -330, nanos: -500_000_000 });
    let to = at("2024-01-01T00:05:30Z");
    assert_eq!(to.signed_duration_since(from), Duration { secs: 0, nanos: -500_000_000 });
}

#[test]
fn span_to_the_same_time_is_zero() {
    let t = at("2024-02-29T12:00:00+05:30");
    assert_eq!(t.signed_duration_since(t), Duration { secs: 0, nanos: 0 });
}

#[test]
fn span_goes_by_the_point_in_time_not_the_offset() {
    let a = at("2024-01-01T12:00:00+02:00");
    let b = at("2024-01-01T10:00:00Z");
    assert_eq!(a.signed_duration_since(b), Duration { secs: 0, nanos: 0 });
}

#[test]
fn span_across_days() {
    let from = Instant::new(0, 0).unwrap();
    let to = Instant::new(86_400 * 365, 1).unwrap();
    assert_eq!(to.signed_duration_since(from), Duration { secs: 31_536_000, nanos: 1 });
    assert_eq!(from.signed_duration_since(to), Duration { secs: -31_536_000, nanos: -1 });
}

#[test]
fn span_from_within_a_leap_second() {
    let leap = at("2015-06-30T23:59:60.5Z");
    let before = at("2015-06-30T23:00:00Z");
    assert_eq!(leap.signed_duration_since(before), Duration { secs: 3600, nanos: 500_000_000 });
}
