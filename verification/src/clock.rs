//! Wall-clock time and its RFC 3339 notation.

use crate::types::opt_text;
use vstd::prelude::*;

verus! {

/// A point in time, in milliseconds since the Unix epoch (UTC).
#[derive(Clone, Copy, Debug, PartialEq, Eq, Structural)]
pub struct Timestamp {
    pub millis: i64,
}

/// Milliseconds since the Unix epoch of the instant that stands in place of a
/// stored time that cannot be read: 2024-01-01T00:00:00Z.
pub const FALLBACK_MILLIS: i64 = 1_704_067_200_000;

/// RFC 3339 notation of the instant `millis` milliseconds after the Unix
/// epoch, as `chrono::DateTime::<Utc>::to_rfc3339` writes it; `None` where
/// chrono cannot represent the instant.
pub uninterp spec fn rfc3339_text(millis: i64) -> Option<Seq<char>>;

/// The instant that `chrono::DateTime::parse_from_rfc3339` reads from `text`,
/// in milliseconds since the Unix epoch; `None` where it rejects the text.
pub uninterp spec fn rfc3339_millis(text: Seq<char>) -> Option<i64>;

/// Trusted: reads the system clock through `chrono::Utc::now` and returns the
/// milliseconds of that instant. Nothing is claimed of the value. chrono
/// panics where the system clock stands before the Unix epoch.
#[verifier::external_body]
pub(crate) fn utc_now() -> (r: Timestamp) {
    Timestamp { millis: chrono::Utc::now().timestamp_millis() }
}

/// Trusted: `chrono::DateTime::from_timestamp_millis` followed by
/// `to_rfc3339`. The contract only gives the result its name: the same
/// milliseconds always yield the same text, and `None` comes back exactly
/// where chrono cannot represent the instant.
#[verifier::external_body]
pub(crate) fn format_rfc3339(ts: Timestamp) -> (r: Option<String>)
    ensures
        opt_text(r) == rfc3339_text(ts.millis),
{
    chrono::DateTime::from_timestamp_millis(ts.millis).map(|t| t.to_rfc3339())
}

/// Trusted: `chrono::DateTime::parse_from_rfc3339`, the result taken as
/// milliseconds since the Unix epoch through `timestamp_millis`. The contract
/// only gives the result its name; a rejected text yields `None`.
#[verifier::external_body]
pub(crate) fn scan_rfc3339(text: &str) -> (r: Option<Timestamp>)
    ensures
        opt_millis(r) == rfc3339_millis(text@),
{
    chrono::DateTime::parse_from_rfc3339(text).ok().map(|t| Timestamp { millis: t.timestamp_millis() })
}

impl Timestamp {
    /// The current time of the system clock.
    pub fn now() -> (r: Timestamp) {
        utc_now()
    }

    /// RFC 3339 notation of this instant, or `None` where the instant lies
    /// outside the range of representable dates.
    pub fn to_rfc3339(&self) -> (r: Option<String>)
        ensures
            opt_text(r) == rfc3339_text(self.millis),
    {
        format_rfc3339(*self)
    }

    /// The instant that an RFC 3339 text denotes, or `None` where the text is
    /// not in that notation.
    pub fn parse_rfc3339(text: &str) -> (r: Option<Timestamp>)
        ensures
            opt_millis(r) == rfc3339_millis(text@),
    {
        scan_rfc3339(text)
    }

    /// Reads a stored time: the instant that the text denotes in RFC 3339
    /// notation, the fallback instant for any other text.
    pub fn from_stored(text: &str) -> (r: Timestamp)
        ensures
            r == stored_time(text@),
    {
        match Timestamp::parse_rfc3339(text) {
            Some(t) => t,
            None => Timestamp { millis: FALLBACK_MILLIS },
        }
    }
}

/// The milliseconds of an optional instant.
pub open spec fn opt_millis(t: Option<Timestamp>) -> Option<i64> {
    match t {
        Some(x) => Some(x.millis),
        None => None,
    }
}

/// The instant that a stored text is read as: the one it denotes in RFC 3339
/// notation, or the fallback instant.
pub open spec fn stored_time(text: Seq<char>) -> Timestamp {
    match rfc3339_millis(text) {
        Some(m) => Timestamp { millis: m },
        None => Timestamp { millis: FALLBACK_MILLIS },
    }
}

} // verus!
