//! Timestamp validation.
//!
//! Payload timestamps are RFC 3339 text; the library carries them as the
//! strings the server sent, and a decode only succeeds when the text parses.
//! Parsing is the calendar library's job; its outcome is named here.

use vstd::prelude::*;

verus! {

/// What parsing a string as an RFC 3339 timestamp yields: `None` when the
/// text is not one, otherwise its seconds since the Unix epoch.
pub uninterp spec fn rfc3339_unix_secs(s: Seq<char>) -> Option<i64>;

/// Relies on `<chrono::DateTime<chrono::Utc> as FromStr>::from_str` — the
/// relaxed RFC 3339 parser, the same one chrono's deserializer goes
/// through — and on `chrono::DateTime::timestamp`: whether a string parses,
/// and to which instant, depends on the characters alone.
#[verifier::external_body]
pub fn parse_rfc3339_unix_secs(s: &str) -> (r: Option<i64>)
    ensures
        r == rfc3339_unix_secs(s@),
{
    s.parse::<chrono::DateTime<chrono::Utc>>().ok().map(|dt| dt.timestamp())
}

} // verus!
