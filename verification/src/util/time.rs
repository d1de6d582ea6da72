use std::fmt::Write;
use vstd::prelude::*;

verus! {

/// An instant in UTC, as seconds and nanoseconds since the Unix epoch.
#[derive(Debug, Clone, Copy, PartialEq, Eq, Structural)]
pub struct Timestamp {
    pub seconds: i64,
    pub nanoseconds: u32,
}

/// What `chrono::DateTime::<Utc>::from_timestamp(seconds, nanoseconds)`
/// followed by `.format(pattern)` writes: `None` when the instant is out of
/// chrono's range or the pattern holds an item chrono cannot format.
pub uninterp spec fn chrono_utc_format(seconds: i64, nanoseconds: u32, pattern: Seq<char>) -> Option<Seq<char>>;

/// Trusted: builds the UTC date-time with `chrono::DateTime::from_timestamp`
/// and writes `DateTime::format(pattern)` into a string; both are
/// deterministic in their arguments (the zone is always UTC).
#[verifier::external_body]
pub(crate) fn format_utc(at: Timestamp, pattern: &str) -> (r: Option<String>)
    ensures
        match r {
            Some(s) => chrono_utc_format(at.seconds, at.nanoseconds, pattern@) == Some(s@),
            None => chrono_utc_format(at.seconds, at.nanoseconds, pattern@) is None,
        },
{
    let at = chrono::DateTime::from_timestamp(at.seconds, at.nanoseconds)?;
    let mut text = String::new();
    match write!(text, "{}", at.format(pattern)) {
        Ok(()) => Some(text),
        Err(_) => None,
    }
}

} // verus!
