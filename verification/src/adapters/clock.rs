//! Points in time, by way of the `chrono` crate.

use vstd::prelude::*;

verus! {

/// A point in time: whole seconds since the Unix epoch, and the nanoseconds
/// into that second.
#[derive(Clone, Copy, Debug, PartialEq, Eq, Structural)]
pub struct Timestamp {
    pub secs: i64,
    pub nanos: u32,
}

/// The point in time that a text denotes in the format of RFC 3339, as
/// seconds since the Unix epoch and nanoseconds into that second.
pub uninterp spec fn parsed_rfc3339(text: Seq<char>) -> Option<(i64, u32)>;

/// Reads a point in time from text in the format of RFC 3339.
///
/// Wraps `chrono::DateTime::parse_from_rfc3339`, which parses all valid
/// RFC 3339 values and fails on anything else.
#[verifier::external_body]
pub(crate) fn parse_rfc3339(text: &str) -> (time: Option<Timestamp>)
    ensures
        match time {
            Some(t) => parsed_rfc3339(text@) == Some((t.secs, t.nanos)),
            None => parsed_rfc3339(text@) is None,
        },
{
    match chrono::DateTime::parse_from_rfc3339(text) {
        Ok(t) => Some(Timestamp { secs: t.timestamp(), nanos: t.timestamp_subsec_nanos() }),
        Err(_) => None,
    }
}

/// The current time.
///
/// Wraps `chrono::Utc::now`. The value depends on the clock, so nothing is
/// claimed of it.
#[verifier::external_body]
pub(crate) fn now() -> Timestamp {
    let t = chrono::Utc::now();
    Timestamp { secs: t.timestamp(), nanos: t.timestamp_subsec_nanos() }
}

} // verus!
