//! Which texts are dates and times, as the `chrono` crate reads them.
use chrono::{NaiveDate, NaiveDateTime, NaiveTime};
use vstd::prelude::*;

verus! {

/// Whether `chrono` reads `s` as a date with a time of day in the format
/// `fmt`.
pub uninterp spec fn spec_datetime_parses(s: Seq<char>, fmt: Seq<char>) -> bool;

/// Whether `chrono` reads `s` as a date in the format `fmt`.
pub uninterp spec fn spec_date_parses(s: Seq<char>, fmt: Seq<char>) -> bool;

/// Whether `chrono` reads `s` as a time of day in the format `fmt`.
pub uninterp spec fn spec_time_parses(s: Seq<char>, fmt: Seq<char>) -> bool;

/// `NaiveDateTime::parse_from_str`: whether the text is a date with a time
/// of day in the format. The answer depends on the two texts alone.
#[verifier::external_body]
pub(crate) fn datetime_parses(s: &str, fmt: &str) -> (r: bool)
    ensures
        r == spec_datetime_parses(s@, fmt@),
{
    NaiveDateTime::parse_from_str(s, fmt).is_ok()
}

/// `NaiveDate::parse_from_str`: whether the text is a date in the format.
/// The answer depends on the two texts alone.
#[verifier::external_body]
pub(crate) fn date_parses(s: &str, fmt: &str) -> (r: bool)
    ensures
        r == spec_date_parses(s@, fmt@),
{
    NaiveDate::parse_from_str(s, fmt).is_ok()
}

/// `NaiveTime::parse_from_str`: whether the text is a time of day in the
/// format. The answer depends on the two texts alone.
#[verifier::external_body]
pub(crate) fn time_parses(s: &str, fmt: &str) -> (r: bool)
    ensures
        r == spec_time_parses(s@, fmt@),
{
    NaiveTime::parse_from_str(s, fmt).is_ok()
}

/// Whether a text is a timestamp of FIX with whole seconds or with
/// milliseconds.
pub open spec fn spec_is_timestamp(s: Seq<char>) -> bool {
    spec_datetime_parses(s, "%Y%m%d-%H:%M:%S"@) || spec_datetime_parses(s, "%Y%m%d-%H:%M:%S%.3f"@)
}

/// Whether a text is a date of FIX.
pub open spec fn spec_is_date(s: Seq<char>) -> bool {
    spec_date_parses(s, "%Y%m%d"@)
}

/// Whether a text is a time of day of FIX with whole seconds or with
/// milliseconds.
pub open spec fn spec_is_time(s: Seq<char>) -> bool {
    spec_time_parses(s, "%H:%M:%S"@) || spec_time_parses(s, "%H:%M:%S%.3f"@)
}

/// What `chrono` says of a text: whether it is a timestamp, a date, a
/// time of day.
#[derive(Debug, Clone, Copy, PartialEq, Eq, Structural)]
pub struct TimeProbes {
    pub timestamp: bool,
    pub date: bool,
    pub time: bool,
}

/// Asks `chrono` about a text.
pub fn probe_times(s: &str) -> (r: TimeProbes)
    ensures
        r == (TimeProbes {
            timestamp: spec_is_timestamp(s@),
            date: spec_is_date(s@),
            time: spec_is_time(s@),
        }),
{
    let timestamp: bool = datetime_parses(s, "%Y%m%d-%H:%M:%S") || datetime_parses(
        s,
        "%Y%m%d-%H:%M:%S%.3f",
    );
    let date: bool = date_parses(s, "%Y%m%d");
    let time: bool = time_parses(s, "%H:%M:%S") || time_parses(s, "%H:%M:%S%.3f");
    TimeProbes { timestamp, date, time }
}

} // verus!
