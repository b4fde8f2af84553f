//! Timestamps from the `chrono` crate.

use vstd::prelude::*;
use chrono::TimeZone;

verus! {

/// The RFC 3339 text that `chrono` writes for a UNIX timestamp in seconds
/// (UTC offset `+00:00`), or `None` where `chrono` has no date for it.
pub uninterp spec fn utc_rfc3339(seconds: i64) -> Option<Seq<char>>;

/// The current time written as RFC 3339 in UTC: the system time turned
/// into a `chrono::DateTime<Utc>` (`From<SystemTime>`, which also takes
/// times before 1970) and written with `to_rfc3339()`. The current time:
/// nothing is promised of the text it returns.
#[verifier::external_body]
pub(crate) fn now_rfc3339() -> String {
    chrono::DateTime::<chrono::Utc>::from(std::time::SystemTime::now()).to_rfc3339()
}

/// `Utc.timestamp_opt(seconds, 0).single()` written with `to_rfc3339()`.
/// Claimed: the result is `utc_rfc3339(seconds)`, a function of `seconds`
/// alone.
#[verifier::external_body]
pub(crate) fn rfc3339_of_unix_seconds(seconds: i64) -> (r: Option<String>)
    ensures
        r.deep_view() == utc_rfc3339(seconds),
{
    match chrono::Utc.timestamp_opt(seconds, 0).single() {
        Some(dt) => Some(dt.to_rfc3339()),
        None => None,
    }
}

} // verus!
