//! Wall-clock instants as plain numbers, and their RFC 3339 text.

use vstd::prelude::*;
use crate::event::opt_view;

verus! {

/// An instant in UTC: whole seconds since 1970-01-01T00:00:00Z and the
/// nanoseconds past that second.
#[derive(Debug, Clone, Copy, PartialEq, Eq, Structural)]
pub struct Timestamp {
    pub secs: i64,
    pub nanos: u32,
}

/// The RFC 3339 text of the instant `secs` seconds and `nanos` nanoseconds
/// after the Unix epoch, or `None` where the calendar cannot represent it.
pub uninterp spec fn rfc3339_text(secs: i64, nanos: u32) -> Option<Seq<char>>;

/// Reads the system clock through `chrono::Utc::now` and takes the result
/// apart with `DateTime::timestamp` and `DateTime::timestamp_subsec_nanos`.
///
/// Nothing is claimed of the instant that comes back. `chrono` panics if the
/// system clock stands before 1970.
#[verifier::external_body]
pub(crate) fn utc_now() -> Timestamp {
    let now = chrono::Utc::now();
    Timestamp { secs: now.timestamp(), nanos: now.timestamp_subsec_nanos() }
}

/// Builds the instant with `chrono::DateTime::from_timestamp` and formats it
/// with `DateTime::to_rfc3339`.
///
/// The contract only gives the outcome its name: the same numbers always
/// yield the same text, and `None` comes back exactly where `from_timestamp`
/// rejects the numbers.
#[verifier::external_body]
pub(crate) fn rfc3339(t: Timestamp) -> (text: Option<String>)
    ensures
        opt_view(text) == rfc3339_text(t.secs, t.nanos),
{
    match chrono::DateTime::from_timestamp(t.secs, t.nanos) {
        Some(instant) => Some(instant.to_rfc3339()),
        None => None,
    }
}

} // verus!
