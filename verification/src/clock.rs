use chrono::format::StrftimeItems;
use chrono::{DateTime, Utc};
use vstd::prelude::*;
use vstd::string::*;

verus! {

broadcast use vstd::string::group_string_axioms;

/// The pattern by which a message is stamped with the time it is sent: date and time of
/// day in UTC, with one space before and one after.
pub const STAMP_PATTERN: &'static str = " %Y-%m-%d %H:%M:%S ";

/// What chrono writes for the UTC time `secs` seconds and `nanos` nanoseconds after the
/// Unix epoch when it formats it by the strftime `pattern`.
pub uninterp spec fn spec_utc_format(secs: i64, nanos: u32, pattern: Seq<char>) -> Seq<char>;

/// The time stamp of a message sent `secs` seconds and `nanos` nanoseconds after the
/// Unix epoch.
pub open spec fn time_stamp_text(secs: i64, nanos: u32) -> Seq<char> {
    spec_utc_format(secs, nanos, STAMP_PATTERN@)
}

/// The last second that chrono can represent: 23:59:59 on December 31 of the year 262142,
/// chrono's `DateTime::<Utc>::MAX_UTC`, in seconds after the Unix epoch.
pub const MAX_UTC_SECS: i64 = 8_210_266_876_799;

/// The shape of every time stamp: a space, then the year (its first character a digit, or
/// a sign for years past 9999), and a space at the end.
pub open spec fn is_stamp_shaped(s: Seq<char>) -> bool {
    &&& s.len() >= 2
    &&& s[0] == ' '
    &&& ('0' <= s[1] <= '9' || s[1] == '+' || s[1] == '-')
    &&& s.last() == ' '
}

/// The current time, as whole seconds since the Unix epoch and the nanoseconds past them.
///
/// Calls `chrono::Utc::now` and reads the result back with `DateTime::timestamp` and
/// `DateTime::timestamp_subsec_nanos`. The time depends on the clock; the contract claims
/// only what holds of every reading. `Utc::now` builds the time with
/// `DateTime::from_timestamp(secs, nanos).unwrap()` from a duration since the epoch, so the
/// seconds are not negative (it panics where the clock is set before 1970), they lie within
/// chrono's range, up to `MAX_UTC_SECS` (it panics beyond), and the nanoseconds are the
/// duration's sub-second part, fewer than a billion. `timestamp` and
/// `timestamp_subsec_nanos` give back those two numbers.
#[verifier::external_body]
fn utc_now() -> (t: (i64, u32))
    ensures
        0 <= t.0 <= MAX_UTC_SECS,
        t.1 < 1_000_000_000,
{
    let now = Utc::now();
    (now.timestamp(), now.timestamp_subsec_nanos())
}

/// The UTC time `secs` seconds and `nanos` nanoseconds after the Unix epoch, formatted by
/// the strftime `pattern`; none where chrono cannot represent that time or does not
/// accept the pattern.
///
/// Calls `DateTime::from_timestamp`, `StrftimeItems::parse` and `DateTime::format_with_items`,
/// and writes the result out with `to_string`. The text is named by `spec_utc_format`.
/// What the contract claims besides, from chrono's source:
/// - `from_timestamp` succeeds on every time from 0 to `MAX_UTC_SECS` seconds with fewer than
///   a billion nanoseconds, and the stamp pattern parses, so with that pattern such a time is
///   always formatted;
/// - the formatter (format/formatting.rs) writes only the pattern's own literal text,
///   digits, signs, separators and the English names of months, weekdays and AM/PM, so the
///   text holds no NUL where the pattern holds none;
/// - with the stamp pattern, the leading and the trailing space are written as they stand
///   and `%Y` writes a year of 0 to 9999 as four digits, any other year with a sign first.
/// For other patterns and times, when the result is none is left unsaid.
#[verifier::external_body]
fn utc_format(secs: i64, nanos: u32, pattern: &str) -> (text: Option<String>)
    ensures
        text matches Some(s) ==> s@ == spec_utc_format(secs, nanos, pattern@),
        text matches Some(s) ==> (!pattern@.contains('\0') ==> !s@.contains('\0')),
        pattern@ == STAMP_PATTERN@ && 0 <= secs <= MAX_UTC_SECS && nanos < 1_000_000_000
            ==> text is Some,
        pattern@ == STAMP_PATTERN@ ==> (text matches Some(s) ==> is_stamp_shaped(s@)),
{
    let time = DateTime::from_timestamp(secs, nanos)?;
    let items = StrftimeItems::new(pattern).parse().ok()?;
    Some(time.format_with_items(items.iter()).to_string())
}

proof fn lemma_stamp_pattern_has_no_nul()
    ensures
        !STAMP_PATTERN@.contains('\0'),
{
    reveal_strlit(" %Y-%m-%d %H:%M:%S ");
    let p = STAMP_PATTERN@;
    if p.contains('\0') {
        let i = choose|i: int| 0 <= i < p.len() && p[i] == '\0';
        assert(false);
    }
}

/// The time stamp of a message sent `secs` seconds and `nanos` nanoseconds after the Unix
/// epoch; none where chrono cannot represent that time, which is never the case from the
/// epoch up to `MAX_UTC_SECS` with fewer than a billion nanoseconds.
pub fn format_time_stamp(secs: i64, nanos: u32) -> (stamp: Option<String>)
    ensures
        0 <= secs <= MAX_UTC_SECS && nanos < 1_000_000_000 ==> stamp is Some,
        stamp matches Some(s) ==> s@ == time_stamp_text(secs, nanos),
        stamp matches Some(s) ==> !s@.contains('\0'),
        stamp matches Some(s) ==> is_stamp_shaped(s@),
{
    proof {
        lemma_stamp_pattern_has_no_nul();
    }
    utc_format(secs, nanos, STAMP_PATTERN)
}

/// The time stamp of a message sent now, with the time it was read at.
pub fn current_time_stamp() -> (stamp: (i64, u32, String))
    ensures
        0 <= stamp.0 <= MAX_UTC_SECS,
        stamp.1 < 1_000_000_000,
        stamp.2@ == time_stamp_text(stamp.0, stamp.1),
        !stamp.2@.contains('\0'),
        is_stamp_shaped(stamp.2@),
{
    let (secs, nanos) = utc_now();
    match format_time_stamp(secs, nanos) {
        Some(text) => (secs, nanos, text),
        None => {
            proof {
                assert(false);
            }
            (secs, nanos, String::new())
        },
    }
}

} // verus!
