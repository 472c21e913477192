//! Wall-clock access and RFC 2822 date parsing, behind trusted wrappers
//! around chrono. Timestamps are plain values throughout the library:
//! seconds since the Unix epoch.

use vstd::prelude::*;

verus! {

/// What chrono's `DateTime::parse_from_rfc2822` yields for a string, as a
/// timestamp in seconds since the Unix epoch: `None` where the string is not
/// a valid RFC 2822 date. The result depends on the string alone.
pub uninterp spec fn rfc2822_timestamp(s: Seq<char>) -> Option<int>;

/// Relies on chrono's DateTime::parse_from_rfc2822: parses an RFC 2822 date
/// string; the result is a function of the string alone and is handed over
/// as seconds since the Unix epoch.
#[verifier::external_body]
pub(crate) fn parse_rfc2822(s: &str) -> (r: Option<i64>)
    ensures
        match r {
            Some(t) => rfc2822_timestamp(s@) == Some(t as int),
            None => rfc2822_timestamp(s@) is None,
        },
{
    chrono::DateTime::parse_from_rfc2822(s).ok().map(|dt| dt.timestamp())
}

/// Relies on chrono's Utc::now, for the current wall-clock time in seconds
/// since the Unix epoch. The value depends on the moment of the call, so
/// nothing is promised of it.
#[verifier::external_body]
pub(crate) fn now_timestamp() -> i64 {
    chrono::Utc::now().timestamp()
}

} // verus!
