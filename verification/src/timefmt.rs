//! Formatting a UTC time with a chrono format string.
use std::fmt::Write;
use vstd::prelude::*;

verus! {

/// The text that chrono's `format` gives for the UTC time `secs` seconds
/// and `nanos` nanoseconds after the Unix epoch with the format string
/// `fmt`, or `None` where the time is out of range or the format string is
/// not valid.
pub uninterp spec fn utc_format_text(secs: int, nanos: nat, fmt: Seq<char>) -> Option<Seq<char>>;

/// Calls `chrono::DateTime::<Utc>::from_timestamp` and writes the time's
/// `format(fmt)` into a string. Claimed: the text comes exactly where the
/// named result is `Some`, and is that text; a time out of range or a
/// format string that chrono refuses gives `None`.
#[verifier::external_body]
pub(crate) fn chrono_format_utc(secs: i64, nanos: u32, fmt: &str) -> (res: Option<String>)
    ensures
        res is Some <==> utc_format_text(secs as int, nanos as nat, fmt@) is Some,
        res matches Some(t) ==> utc_format_text(secs as int, nanos as nat, fmt@) == Some(t@),
{
    let dt = chrono::DateTime::<chrono::Utc>::from_timestamp(secs, nanos)?;
    let mut s = String::new();
    write!(s, "{}", dt.format(fmt)).ok()?;
    Some(s)
}

/// The UTC time `secs` seconds and `nanos` nanoseconds after the Unix epoch,
/// formatted with `fmtstr`; `None` where chrono cannot.
pub fn strfmt_timestr(secs: i64, nanos: u32, fmtstr: &str) -> (res: Option<String>)
    ensures
        res is Some <==> utc_format_text(secs as int, nanos as nat, fmtstr@) is Some,
        res matches Some(t) ==> utc_format_text(secs as int, nanos as nat, fmtstr@) == Some(t@),
{
    chrono_format_utc(secs, nanos, fmtstr)
}

} // verus!
