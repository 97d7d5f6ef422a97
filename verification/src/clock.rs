//! Points in time and the spans between them, as plain numbers. The
//! calendar itself is left to `chrono`.

use vstd::prelude::*;

verus! {

/// A point in time: whole seconds since the start of 1970 in UTC, leap
/// seconds not counted, and the nanoseconds since the last whole second.
/// The nanoseconds reach 1,000,000,000 and more only within a leap second.
#[derive(Debug, Clone, Copy, PartialEq, Eq, Structural)]
pub struct Instant {
    pub secs: i64,
    pub nanos: u32,
}

/// A signed span of time: whole seconds, and the nanoseconds beyond them.
/// It is positive where the end lies after the start.
#[derive(Debug, Clone, Copy, PartialEq, Eq, Structural)]
pub struct Duration {
    pub secs: i64,
    pub nanos: i32,
}

/// Whether `chrono` has a date and time for this number of seconds and
/// nanoseconds: whether `DateTime::from_timestamp` returns one.
pub uninterp spec fn representable(secs: i64, nanos: u32) -> bool;

/// What `DateTime::parse_from_rfc3339` reads from `text`: the seconds and
/// nanoseconds of the point in time that the text denotes, or `None` where
/// the text is no RFC 3339 date and time.
pub uninterp spec fn rfc3339_reading(text: Seq<char>) -> Option<(i64, u32)>;

/// What `DateTime::signed_duration_since` returns for the point in time
/// `to`, taken from the point in time `from`, where one of the two lies
/// within a leap second: whole seconds and the nanoseconds beyond them.
pub uninterp spec fn elapsed_between(to_secs: i64, to_nanos: u32, from_secs: i64, from_nanos: u32) -> (
    i64,
    i32,
);

/// A span of `nanos` nanoseconds as whole seconds and the nanoseconds
/// beyond them. The seconds are rounded toward zero, so the two parts
/// never differ in sign.
pub open spec fn split_nanos(nanos: int) -> (i64, i32) {
    if nanos >= 0 {
        ((nanos / 1_000_000_000) as i64, (nanos % 1_000_000_000) as i32)
    } else {
        ((-((-nanos) / 1_000_000_000)) as i64, (-((-nanos) % 1_000_000_000)) as i32)
    }
}

/// The span from `from` to `to`. Where neither lies within a leap second
/// it is the plain difference of the two. Where one does, it is what
/// `chrono` makes of it.
pub open spec fn span_between(to: (i64, u32), from: (i64, u32)) -> (i64, i32) {
    if to.1 < 1_000_000_000 && from.1 < 1_000_000_000 {
        split_nanos((to.0 - from.0) * 1_000_000_000 + (to.1 - from.1))
    } else {
        elapsed_between(to.0, to.1, from.0, from.1)
    }
}

/// Calls `chrono::DateTime::from_timestamp` and says whether it returned a
/// date and time.
#[verifier::external_body]
fn chrono_represents(secs: i64, nanos: u32) -> (b: bool)
    ensures
        b == representable(secs, nanos),
{
    chrono::DateTime::from_timestamp(secs, nanos).is_some()
}

/// Calls `chrono::DateTime::parse_from_rfc3339` and hands out what it
/// read as seconds and nanoseconds (`timestamp`, `timestamp_subsec_nanos`).
///
/// Believed of it: it fails on some texts and panics on none; and
/// `from_timestamp` has a date and time for what it read, which `chrono`
/// documents as a guaranteed round trip.
#[verifier::external_body]
fn chrono_parse_rfc3339(text: &str) -> (reading: Option<(i64, u32)>)
    ensures
        reading == rfc3339_reading(text@),
        reading matches Some(t) ==> representable(t.0, t.1),
{
    match chrono::DateTime::parse_from_rfc3339(text) {
        Ok(at) => Some((at.timestamp(), at.timestamp_subsec_nanos())),
        Err(_) => None,
    }
}

/// Calls `chrono::Local::now` and hands out the current time as seconds
/// and nanoseconds (`timestamp`, `timestamp_subsec_nanos`).
///
/// Believed of it: `from_timestamp` has a date and time for what it
/// returns, by the same round trip. Nothing else is known of the result.
#[verifier::external_body]
fn chrono_now() -> (now: (i64, u32))
    ensures
        representable(now.0, now.1),
{
    let now = chrono::Local::now();
    (now.timestamp(), now.timestamp_subsec_nanos())
}

/// Calls `chrono::DateTime::signed_duration_since` on the dates and times
/// that `from_timestamp` has for `to` and `from`, and hands out the result
/// as whole seconds and nanoseconds (`num_seconds`, `subsec_nanos`).
///
/// Believed of it: where neither point lies within a leap second, the
/// span is the plain difference of the two, as `chrono` documents
/// ("assumes that there is no leap second ever"); in every case the two
/// parts agree in sign and the nanoseconds stay below a second, as
/// `num_seconds` and `subsec_nanos` are made.
#[verifier::external_body]
fn chrono_signed_duration_since(to: (i64, u32), from: (i64, u32)) -> (span: (i64, i32))
    requires
        representable(to.0, to.1),
        representable(from.0, from.1),
    ensures
        span == (if to.1 < 1_000_000_000 && from.1 < 1_000_000_000 {
            split_nanos((to.0 - from.0) * 1_000_000_000 + (to.1 - from.1))
        } else {
            elapsed_between(to.0, to.1, from.0, from.1)
        }),
        -1_000_000_000 < span.1 < 1_000_000_000,
        span.0 > 0 ==> span.1 >= 0,
        span.0 < 0 ==> span.1 <= 0,
{
    let to = chrono::DateTime::from_timestamp(to.0, to.1).unwrap();
    let from = chrono::DateTime::from_timestamp(from.0, from.1).unwrap();
    let span = to.signed_duration_since(from);
    (span.num_seconds(), span.subsec_nanos())
}

impl Instant {
    /// Whether the calendar has a date and time for this point in time.
    pub open spec fn wf(self) -> bool {
        representable(self.secs, self.nanos)
    }

    /// Whether this point in time lies within a leap second.
    pub open spec fn in_leap_second(self) -> bool {
        self.nanos >= 1_000_000_000
    }

    /// The nanoseconds since the start of 1970 in UTC, leap seconds not
    /// counted.
    pub open spec fn nanos_since_epoch(self) -> int {
        self.secs * 1_000_000_000 + self.nanos
    }

    /// The point in time that `text` denotes in the notation of RFC 3339,
    /// or `None` where `text` is not in that notation.
    pub open spec fn spec_parse(text: Seq<char>) -> Option<Instant> {
        match rfc3339_reading(text) {
            Some(t) => Some(Instant { secs: t.0, nanos: t.1 }),
            None => None,
        }
    }

    /// The span from `from` to `self`.
    pub open spec fn spec_since(self, from: Instant) -> Duration {
        let span = span_between((self.secs, self.nanos), (from.secs, from.nanos));
        Duration { secs: span.0, nanos: span.1 }
    }

    /// The point in time with these seconds and nanoseconds, or `None`
    /// where the calendar has no date and time for them.
    pub fn new(secs: i64, nanos: u32) -> (t: Option<Instant>)
        ensures
            t == (if representable(secs, nanos) {
                Some(Instant { secs, nanos })
            } else {
                None
            }),
    {
        if chrono_represents(secs, nanos) {
            Some(Instant { secs, nanos })
        } else {
            None
        }
    }

    /// Reads a date and time in the notation of RFC 3339.
    pub fn parse_rfc3339(text: &str) -> (t: Option<Instant>)
        ensures
            t == Instant::spec_parse(text@),
            t matches Some(at) ==> at.wf(),
    {
        match chrono_parse_rfc3339(text) {
            Some(t) => Some(Instant { secs: t.0, nanos: t.1 }),
            None => None,
        }
    }

    /// The current time.
    pub fn now() -> (t: Instant)
        ensures
            t.wf(),
    {
        let now = chrono_now();
        Instant { secs: now.0, nanos: now.1 }
    }

    /// The span from `from` to `self`: positive where `self` is the later
    /// of the two.
    pub fn signed_duration_since(self, from: Instant) -> (span: Duration)
        requires
            self.wf(),
            from.wf(),
        ensures
            span == self.spec_since(from),
            span.wf(),
    {
        let span = chrono_signed_duration_since((self.secs, self.nanos), (from.secs, from.nanos));
        Duration { secs: span.0, nanos: span.1 }
    }
}

impl View for Duration {
    type V = int;

    /// The span in nanoseconds.
    open spec fn view(&self) -> int {
        self.secs * 1_000_000_000 + self.nanos
    }
}

impl Duration {
    /// Whether the two parts agree in sign and the nanoseconds stay below
    /// a second, so that each span is written in one way only.
    pub open spec fn wf(self) -> bool {
        &&& -1_000_000_000 < self.nanos < 1_000_000_000
        &&& self.secs > 0 ==> self.nanos >= 0
        &&& self.secs < 0 ==> self.nanos <= 0
    }
}

/// Splitting a span into seconds and nanoseconds loses nothing, and the
/// two parts agree in sign, as long as the seconds fit.
pub proof fn lemma_split_nanos(nanos: int)
    requires
        -0x7fff_ffff_ffff_ffff <= nanos / 1_000_000_000 < 0x7fff_ffff_ffff_ffff,
    ensures
        split_nanos(nanos).0 * 1_000_000_000 + split_nanos(nanos).1 == nanos,
        -1_000_000_000 < split_nanos(nanos).1 < 1_000_000_000,
        split_nanos(nanos).0 > 0 ==> split_nanos(nanos).1 >= 0,
        split_nanos(nanos).0 < 0 ==> split_nanos(nanos).1 <= 0,
{
}

/// Between two points in time of which neither lies within a leap second,
/// the span is the difference of the two: positive where `to` is the
/// later, negative where it is the earlier, zero where they are the same.
pub proof fn lemma_span_is_difference(to: Instant, from: Instant)
    requires
        !to.in_leap_second(),
        !from.in_leap_second(),
        -0x7fff_ffff_ffff_fff0 <= to.secs - from.secs <= 0x7fff_ffff_ffff_fff0,
    ensures
        to.spec_since(from)@ == to.nanos_since_epoch() - from.nanos_since_epoch(),
        to.spec_since(from).wf(),
        to.spec_since(from)@ > 0 <==> to.nanos_since_epoch() > from.nanos_since_epoch(),
        to.spec_since(from)@ < 0 <==> to.nanos_since_epoch() < from.nanos_since_epoch(),
{
    let nanos = to.nanos_since_epoch() - from.nanos_since_epoch();
    assert(nanos == (to.secs - from.secs) * 1_000_000_000 + (to.nanos - from.nanos));
    lemma_split_nanos(nanos);
}

} // verus!
