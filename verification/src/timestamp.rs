//! Instants on the UTC time line, read from text by chrono.

use vstd::prelude::*;

verus! {

/// An instant: whole seconds since 1970-01-01T00:00:00Z, not counting leap
/// seconds, and the nanoseconds since that second began.
#[derive(Clone, Copy, Debug, PartialEq, Eq, Structural)]
pub struct Timestamp {
    pub seconds: i64,
    pub nanos: u32,
}

/// `chrono::ParseError`: why chrono rejected a text. Nothing is claimed of
/// what it holds.
#[verifier::external_type_specification]
#[verifier::external_body]
pub struct ExParseError(chrono::ParseError);

/// The instant that chrono reads from `text` as a `DateTime<Utc>`, as seconds
/// and nanoseconds; `None` where chrono rejects the text.
pub uninterp spec fn utc_instant(text: Seq<char>) -> Option<(i64, u32)>;

/// The instant that `text` denotes, if it denotes one.
pub open spec fn reading(text: Seq<char>) -> Option<Timestamp> {
    match utc_instant(text) {
        Some((seconds, nanos)) => Some(Timestamp { seconds, nanos }),
        None => None,
    }
}

/// `<chrono::DateTime<chrono::Utc> as FromStr>::from_str`, which accepts a
/// relaxed form of RFC 3339 and moves the instant to UTC, followed by
/// `DateTime::timestamp` and `DateTime::timestamp_subsec_nanos` on what it
/// read. The contract claims that the outcome depends on the text alone, and
/// names it.
#[verifier::external_body]
fn parse_utc(text: &str) -> (r: Result<Timestamp, chrono::ParseError>)
    ensures
        match r {
            Ok(t) => utc_instant(text@) == Some((t.seconds, t.nanos)),
            Err(_) => utc_instant(text@) is None,
        },
{
    match text.parse::<chrono::DateTime<chrono::Utc>>() {
        Ok(t) => Ok(Timestamp { seconds: t.timestamp(), nanos: t.timestamp_subsec_nanos() }),
        Err(e) => Err(e),
    }
}

/// Reads `text` as a date and time; `None` where it is none.
pub fn read_timestamp(text: &str) -> (r: Option<Timestamp>)
    ensures
        r == reading(text@),
{
    match parse_utc(text) {
        Ok(t) => Some(t),
        Err(_) => None,
    }
}

} // verus!
