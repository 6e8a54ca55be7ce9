//! Timestamps: points in time, the clock, and the calendar text of a Unix
//! time, from `chrono`.

use std::fmt::Write;
use vstd::prelude::*;

verus! {

/// A point in time: whole seconds since the Unix epoch (UTC) and the
/// nanoseconds past them (at least a second's worth only within a leap second).
#[derive(Debug, Clone, Copy, PartialEq, Eq, Structural)]
pub struct Timestamp {
    /// Whole seconds since the Unix epoch
    pub secs: i64,
    /// Nanoseconds past `secs`
    pub nanos: u32,
}

/// The position of a timestamp on the time line: by seconds, then by
/// nanoseconds (the order of `chrono`'s `DateTime`).
pub open spec fn instant(t: Timestamp) -> int {
    t.secs * 0x1_0000_0000 + t.nanos
}

/// Whether `chrono::DateTime::from_timestamp(secs, 0)` gives a date: the day
/// `secs.div_euclid(86400) + 719163` (counted from January 1 of year 1) lies
/// in years -262143 to 262142, that is, `secs` lies from
/// -262143-01-01 00:00:00 to 262142-12-31 23:59:59 UTC.
pub open spec fn chrono_represents(secs: i64) -> bool {
    -8_334_601_228_800 <= secs <= 8_210_266_876_799
}

/// Whether `chrono` represents the Unix time `secs` (what
/// `chrono::DateTime::from_timestamp(secs, 0).is_some()` gives).
pub fn timestamp_in_range(secs: i64) -> (r: bool)
    ensures
        r == chrono_represents(secs),
{
    -8_334_601_228_800 <= secs && secs <= 8_210_266_876_799
}

/// The current time, from `chrono::Utc::now()`: its `timestamp()` and
/// `timestamp_subsec_nanos()`. Trusted: the value depends on the clock; only
/// that `chrono` represents it and that the nanoseconds are below a second is
/// stated (`Utc::now` builds it with `DateTime::from_timestamp(secs, nanos)`
/// from a `SystemTime` duration, whose `subsec_nanos` is below a second). `Utc::now` panics when the
/// machine's clock reads a time before 1970; that depends on the machine, not
/// on anything a caller passes.
#[verifier::external_body]
pub fn now_timestamp() -> (r: Timestamp)
    ensures
        chrono_represents(r.secs),
        r.nanos < 1_000_000_000,
{
    let now = chrono::Utc::now();
    Timestamp { secs: now.timestamp(), nanos: now.timestamp_subsec_nanos() }
}

/// Whether the time `a` comes before the time `b`.
pub fn earlier(a: Timestamp, b: Timestamp) -> (r: bool)
    ensures
        r == (instant(a) < instant(b)),
{
    a.secs < b.secs || (a.secs == b.secs && a.nanos < b.nanos)
}

/// Whether a `strftime` pattern holds no specifier but `%Y`, `%m`, `%d`, `%H`,
/// `%M` and `%S`: each `%` is followed by one of these letters, all other
/// characters are literal text. `chrono`'s `StrftimeItems` reads such a
/// pattern without an error item.
pub open spec fn strftime_plain(pattern: Seq<char>) -> bool {
    forall|i: int|
        #![trigger pattern[i]]
        0 <= i < pattern.len() && pattern[i] == '%' ==> i + 1 < pattern.len() && {
            let c = pattern[i + 1];
            c == 'Y' || c == 'm' || c == 'd' || c == 'H' || c == 'M' || c == 'S'
        }
}

/// The text that `chrono`'s `DateTime::format(pattern)` writes for the UTC
/// date and time `secs` seconds after the Unix epoch.
pub uninterp spec fn utc_format(secs: i64, pattern: Seq<char>) -> Seq<char>;

/// Formats the UTC date and time `secs` seconds after the Unix epoch with the
/// `strftime` pattern `pattern`, through `chrono`'s `DateTime::from_timestamp`
/// and `DateTime::format`. Gives `None` where `from_timestamp` has no date for
/// `secs`, or where the pattern holds a specifier that `chrono` refuses (the
/// writer's error is caught, not unwrapped). Trusted: the text is named
/// [`utc_format`]; the calendar arithmetic and the full pattern grammar are
/// not stated, only that a [`strftime_plain`] pattern is always accepted.
#[verifier::external_body]
pub fn format_utc(secs: i64, pattern: &str) -> (r: Option<String>)
    ensures
        r is Some ==> chrono_represents(secs),
        chrono_represents(secs) && strftime_plain(pattern@) ==> r is Some,
        r matches Some(t) ==> t@ == utc_format(secs, pattern@),
{
    let date = chrono::DateTime::from_timestamp(secs, 0)?;
    let mut out = String::new();
    write!(out, "{}", date.format(pattern)).ok()?;
    Some(out)
}

} // verus!
