//! Timestamps of log lines: an instant with the offset it was written in,
//! and its two RFC 3339 renderings.

use crate::error::LogError;
use vstd::prelude::*;

verus! {

/// Day, abbreviated month, year and time of day, then an offset written with
/// a colon, as in `+09:00`.
pub const FORMAT_COLON_OFFSET: &'static str = "%d/%b/%Y:%H:%M:%S %:z";

/// The same, with the offset written without a colon, as in `+0900`.
pub const FORMAT_PLAIN_OFFSET: &'static str = "%d/%b/%Y:%H:%M:%S %z";

/// `chrono::ParseError`, the reason a text was not read as a date and time.
#[verifier::external_type_specification]
#[verifier::external_body]
pub struct ExChronoParseError(chrono::ParseError);

/// A point in time together with the offset from UTC of the clock that
/// wrote it down.
#[derive(Clone, Copy, Debug, PartialEq, Eq, Structural)]
pub struct Instant {
    /// Seconds since 1970-01-01T00:00:00 UTC, leap seconds not counted.
    pub seconds: i64,
    /// Nanoseconds into the second; a thousand million or more inside a leap second.
    pub nanos: u32,
    /// Seconds that local time is ahead of UTC.
    pub offset: i32,
}

/// What `chrono::DateTime::parse_from_str` reads from a text under a format:
/// nothing, or the instant and the offset that the text gives.
pub uninterp spec fn chrono_parsed(text: Seq<char>, format: Seq<char>) -> Option<Instant>;

/// What `chrono::DateTime::to_rfc3339` writes for an instant seen at an
/// offset, or nothing where chrono has no date and time with those numbers.
pub uninterp spec fn rfc3339_text(seconds: i64, nanos: u32, offset: i32) -> Option<Seq<char>>;

/// Calls `chrono::DateTime::parse_from_str` and takes the parsed value apart
/// with `timestamp`, `timestamp_subsec_nanos` and `FixedOffset::local_minus_utc`.
/// The contract claims that the outcome depends on the text and the format alone.
#[verifier::external_body]
fn chrono_parse(text: &str, format: &str) -> (r: Result<Instant, chrono::ParseError>)
    ensures
        r is Ok <==> chrono_parsed(text@, format@) is Some,
        r matches Ok(instant) ==> chrono_parsed(text@, format@) == Some(instant),
{
    let parsed = chrono::DateTime::parse_from_str(text, format)?;
    Ok(
        Instant {
            seconds: parsed.timestamp(),
            nanos: parsed.timestamp_subsec_nanos(),
            offset: parsed.offset().local_minus_utc(),
        },
    )
}

/// Rebuilds the date and time with `chrono::FixedOffset::east_opt`,
/// `chrono::DateTime::from_timestamp` and `with_timezone`, and calls
/// `to_rfc3339` on it. The contract claims that the outcome depends on the
/// three numbers alone.
#[verifier::external_body]
fn chrono_rfc3339(seconds: i64, nanos: u32, offset: i32) -> (r: Option<String>)
    ensures
        r is Some <==> rfc3339_text(seconds, nanos, offset) is Some,
        r matches Some(text) ==> rfc3339_text(seconds, nanos, offset) == Some(text@),
{
    let zone = chrono::FixedOffset::east_opt(offset)?;
    let utc = chrono::DateTime::from_timestamp(seconds, nanos)?;
    Some(utc.with_timezone(&zone).to_rfc3339())
}

impl Instant {
    /// The same point in time, seen from UTC.
    pub open spec fn in_utc(self) -> Instant {
        Instant { seconds: self.seconds, nanos: self.nanos, offset: 0 }
    }

    /// The RFC 3339 text of the instant at its offset, if it has one.
    pub open spec fn rfc3339(self) -> Option<Seq<char>> {
        rfc3339_text(self.seconds, self.nanos, self.offset)
    }

    /// Keeps the point in time and drops the offset.
    pub fn to_utc(&self) -> (r: Instant)
        ensures
            r == self.in_utc(),
    {
        Instant { seconds: self.seconds, nanos: self.nanos, offset: 0 }
    }

    /// Renders the instant at its offset, as in `2017-12-14T22:16:45+09:00`.
    /// `None` where the numbers are outside what the calendar can hold.
    pub fn to_rfc3339(&self) -> (r: Option<String>)
        ensures
            r is Some <==> self.rfc3339() is Some,
            r matches Some(text) ==> self.rfc3339() == Some(text@),
    {
        chrono_rfc3339(self.seconds, self.nanos, self.offset)
    }
}

/// The instant that a timestamp denotes: read with the colon form of the
/// offset, and with the plain form where that fails.
pub open spec fn timestamp_instant(text: Seq<char>) -> Option<Instant> {
    match chrono_parsed(text, FORMAT_COLON_OFFSET@) {
        Some(instant) => Some(instant),
        None => chrono_parsed(text, FORMAT_PLAIN_OFFSET@),
    }
}

/// Reads a timestamp in either of the two accepted forms.
pub fn parse_timestamp(text: &str) -> (r: Result<Instant, LogError>)
    ensures
        match timestamp_instant(text@) {
            Some(instant) => r == Ok::<Instant, LogError>(instant),
            None => r == Err::<Instant, LogError>(LogError::TimestampInvalid),
        },
{
    match chrono_parse(text, FORMAT_COLON_OFFSET) {
        Ok(instant) => Ok(instant),
        Err(_) => match chrono_parse(text, FORMAT_PLAIN_OFFSET) {
            Ok(instant) => Ok(instant),
            Err(err) => Err(LogError::from(err)),
        },
    }
}

/// The two renderings of one instant.
#[derive(Clone, Debug, PartialEq, Eq)]
pub struct DualTimestamp {
    /// At the offset of the log line.
    pub local: String,
    /// At UTC.
    pub utc: String,
}

pub struct DualTimestampView {
    pub local: Seq<char>,
    pub utc: Seq<char>,
}

impl View for DualTimestamp {
    type V = DualTimestampView;

    open spec fn view(&self) -> DualTimestampView {
        DualTimestampView { local: self.local@, utc: self.utc@ }
    }
}

/// The renderings of an instant at its own offset and at UTC, where both exist.
pub open spec fn instant_renderings(instant: Instant) -> Option<DualTimestampView> {
    match (instant.rfc3339(), instant.in_utc().rfc3339()) {
        (Some(local), Some(utc)) => Some(DualTimestampView { local, utc }),
        _ => None,
    }
}

/// The normal form of a timestamp: both renderings of the instant it denotes.
pub open spec fn normalised(text: Seq<char>) -> Option<DualTimestampView> {
    match timestamp_instant(text) {
        Some(instant) => instant_renderings(instant),
        None => None,
    }
}

/// Renders an instant at its own offset and at UTC.
pub fn render_instant(instant: &Instant) -> (r: Option<DualTimestamp>)
    ensures
        r is Some <==> instant_renderings(*instant) is Some,
        r matches Some(pair) ==> instant_renderings(*instant) == Some(pair@),
{
    let local = match instant.to_rfc3339() {
        Some(text) => text,
        None => {
            return None;
        },
    };
    match instant.to_utc().to_rfc3339() {
        Some(utc) => Some(DualTimestamp { local, utc }),
        None => None,
    }
}

/// Reads a timestamp and renders it at its own offset and at UTC.
/// Fails where neither form is accepted or the instant cannot be rendered.
pub fn normalise_timestamp(text: &str) -> (r: Result<DualTimestamp, LogError>)
    ensures
        r is Ok <==> normalised(text@) is Some,
        r matches Ok(pair) ==> normalised(text@) == Some(pair@),
        r matches Err(e) ==> e == LogError::TimestampInvalid,
{
    let instant = match parse_timestamp(text) {
        Ok(instant) => instant,
        Err(e) => {
            return Err(e);
        },
    };
    match render_instant(&instant) {
        Some(pair) => Ok(pair),
        None => Err(LogError::TimestampInvalid),
    }
}

} // verus!
