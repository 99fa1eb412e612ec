//! The moment a picture or a film was taken, and the ways to get one: from
//! its parts, from the text of a date tag, from seconds since 1970.
//!
//! Calendar arithmetic and the reading of date texts are chrono's. The
//! functions marked `external_body` call it; their contracts are believed,
//! not proved.

use vstd::prelude::*;
use chrono::{Datelike, Timelike};
use crate::text::{trim, trimmed};

verus! {

/// The first year that a timestamp can hold.
pub const MIN_YEAR: i32 = -262143;

/// The last year that a timestamp can hold.
pub const MAX_YEAR: i32 = 262142;

/// A date and a time of day, without a time zone. Only the year and the month
/// decide where a file goes; the rest is kept to show it.
#[derive(Clone, Copy, Debug, PartialEq, Eq, Structural)]
pub struct CaptureTimestamp {
    pub year: i32,
    pub month: u32,
    pub day: u32,
    pub hour: u32,
    pub minute: u32,
    pub second: u32,
}

/// Whether `year` has a 29th of February in the proleptic Gregorian calendar.
pub open spec fn is_leap_year(year: int) -> bool {
    year % 4 == 0 && (year % 100 != 0 || year % 400 == 0)
}

/// The number of days of a month, 0 for a number that is no month.
pub open spec fn days_in_month(year: int, month: int) -> int {
    if month == 4 || month == 6 || month == 9 || month == 11 {
        30
    } else if month == 2 {
        if is_leap_year(year) {
            29
        } else {
            28
        }
    } else if 1 <= month <= 12 {
        31
    } else {
        0
    }
}

/// Whether the six numbers are a day of the calendar, in a year that a
/// timestamp can hold, and a time of that day.
pub open spec fn is_calendar_date_time(
    year: int,
    month: int,
    day: int,
    hour: int,
    minute: int,
    second: int,
) -> bool {
    &&& MIN_YEAR <= year <= MAX_YEAR
    &&& 1 <= month <= 12
    &&& 1 <= day <= days_in_month(year, month)
    &&& 0 <= hour < 24
    &&& 0 <= minute < 60
    &&& 0 <= second < 60
}

impl CaptureTimestamp {
    /// The timestamp is a day of the calendar and a time of that day.
    pub open spec fn wf(&self) -> bool {
        is_calendar_date_time(
            self.year as int,
            self.month as int,
            self.day as int,
            self.hour as int,
            self.minute as int,
            self.second as int,
        )
    }

    /// The timestamp of the given date and time, if there is such a day and
    /// such a time.
    pub fn new(year: i32, month: u32, day: u32, hour: u32, minute: u32, second: u32) -> (made:
        Option<CaptureTimestamp>)
        ensures
            made == if is_calendar_date_time(
                year as int,
                month as int,
                day as int,
                hour as int,
                minute as int,
                second as int,
            ) {
                Some(CaptureTimestamp { year, month, day, hour, minute, second })
            } else {
                None
            },
    {
        calendar_date_time(year, month, day, hour, minute, second)
    }
}

/// Calls `chrono::NaiveDate::from_ymd_opt` and, on the date it made,
/// `NaiveDate::and_hms_opt`, and reads the six parts back. The first gives a
/// date exactly for a day that the proleptic Gregorian calendar has, in a
/// year from `MIN_YEAR` to `MAX_YEAR`; the second a time exactly below 24
/// hours, 60 minutes and 60 seconds.
#[verifier::external_body]
fn calendar_date_time(year: i32, month: u32, day: u32, hour: u32, minute: u32, second: u32) -> (made:
    Option<CaptureTimestamp>)
    ensures
        made == if is_calendar_date_time(
            year as int,
            month as int,
            day as int,
            hour as int,
            minute as int,
            second as int,
        ) {
            Some(CaptureTimestamp { year, month, day, hour, minute, second })
        } else {
            None
        },
{
    let date = chrono::NaiveDate::from_ymd_opt(year, month, day)?;
    let moment = date.and_hms_opt(hour, minute, second)?;
    Some(
        CaptureTimestamp {
            year: moment.year(),
            month: moment.month(),
            day: moment.day(),
            hour: moment.hour(),
            minute: moment.minute(),
            second: moment.second(),
        },
    )
}

/// The first day of a month, at midnight: what stands for a date of which
/// only the year and the month are known.
pub open spec fn first_of_month_of(year: int, month: int) -> Option<CaptureTimestamp> {
    if MIN_YEAR <= year <= MAX_YEAR && 1 <= month <= 12 {
        Some(
            CaptureTimestamp {
                year: year as i32,
                month: month as u32,
                day: 1,
                hour: 0,
                minute: 0,
                second: 0,
            },
        )
    } else {
        None
    }
}

/// The first day of the given month at midnight; `None` where the month is
/// none of the twelve or the year is outside `MIN_YEAR..=MAX_YEAR`.
pub fn first_of_month(year: i32, month: u32) -> (made: Option<CaptureTimestamp>)
    ensures
        made == first_of_month_of(year as int, month as int),
        made matches Some(stamp) ==> stamp.wf(),
{
    CaptureTimestamp::new(year, month, 1, 0, 0, 0)
}

/// What `chrono::NaiveDateTime::parse_from_str` reads from `text` under
/// `format`: the parts of the date and time, or `None` where it reports an
/// error.
pub uninterp spec fn naive_date_time_parse(text: Seq<char>, format: Seq<char>) -> Option<
    CaptureTimestamp,
>;

/// Calls `chrono::NaiveDateTime::parse_from_str` and reads the parts of its
/// result with `Datelike` and `Timelike`. The result depends on the two
/// texts alone. A `NaiveDateTime` holds only days that exist, in chrono's
/// range of years, and its parts are in their calendar ranges (a leap second
/// reads as second 59).
#[verifier::external_body]
fn parse_naive_date_time(text: &str, format: &str) -> (parsed: Option<CaptureTimestamp>)
    ensures
        parsed == naive_date_time_parse(text@, format@),
        parsed matches Some(stamp) ==> stamp.wf(),
{
    let moment = chrono::NaiveDateTime::parse_from_str(text, format).ok()?;
    Some(
        CaptureTimestamp {
            year: moment.year(),
            month: moment.month(),
            day: moment.day(),
            hour: moment.hour(),
            minute: moment.minute(),
            second: moment.second(),
        },
    )
}

/// The local date and time that `chrono::DateTime::parse_from_rfc3339` reads
/// from `text`, in the offset that the text itself names; `None` where it
/// reports an error.
pub uninterp spec fn rfc3339_local_time(text: Seq<char>) -> Option<CaptureTimestamp>;

/// Calls `chrono::DateTime::parse_from_rfc3339`, takes `naive_local` of what
/// it read and reads the parts of that. The result depends on the text
/// alone: the offset is the one written in it, not the machine's. The local
/// time of a text that was read has a four-digit year, so `naive_local` is
/// in range.
#[verifier::external_body]
fn parse_rfc3339_local(text: &str) -> (parsed: Option<CaptureTimestamp>)
    ensures
        parsed == rfc3339_local_time(text@),
        parsed matches Some(stamp) ==> stamp.wf(),
{
    let moment = chrono::DateTime::parse_from_rfc3339(text).ok()?.naive_local();
    Some(
        CaptureTimestamp {
            year: moment.year(),
            month: moment.month(),
            day: moment.day(),
            hour: moment.hour(),
            minute: moment.minute(),
            second: moment.second(),
        },
    )
}

/// The date and time in UTC that lies `seconds` and `nanoseconds` after the
/// beginning of 1970, as `chrono::DateTime::from_timestamp` computes it;
/// `None` where it is outside chrono's range.
pub uninterp spec fn utc_date_time(seconds: int, nanoseconds: int) -> Option<CaptureTimestamp>;

/// Calls `chrono::DateTime::from_timestamp`, takes `naive_utc` of the result
/// and reads the parts of that. The result depends on the two numbers alone.
#[verifier::external_body]
fn date_time_from_timestamp(seconds: i64, nanoseconds: u32) -> (made: Option<CaptureTimestamp>)
    ensures
        made == utc_date_time(seconds as int, nanoseconds as int),
        made matches Some(stamp) ==> stamp.wf(),
{
    let moment = chrono::DateTime::from_timestamp(seconds, nanoseconds)?.naive_utc();
    Some(
        CaptureTimestamp {
            year: moment.year(),
            month: moment.month(),
            day: moment.day(),
            hour: moment.hour(),
            minute: moment.minute(),
            second: moment.second(),
        },
    )
}

/// The form in which an image's date tags are written.
pub open spec fn image_date_format() -> Seq<char> {
    seq![
        '%', 'Y', '-', '%', 'm', '-', '%', 'd', ' ', '%', 'H', ':', '%', 'M', ':', '%', 'S',
    ]
}

/// The timestamp that the text of an image's date tag stands for: the text
/// without the whitespace around it, read as year, month, day, hour, minute
/// and second.
pub open spec fn image_date_of(text: Seq<char>) -> Option<CaptureTimestamp> {
    naive_date_time_parse(trimmed(text), image_date_format())
}

/// Reads the text of an image's date tag.
pub fn parse_image_date(text: &str) -> (parsed: Option<CaptureTimestamp>)
    ensures
        parsed == image_date_of(text@),
        parsed matches Some(stamp) ==> stamp.wf(),
{
    proof {
        reveal_strlit("%Y-%m-%d %H:%M:%S");
        assert("%Y-%m-%d %H:%M:%S"@ =~= image_date_format());
    }
    let inner = trim(text);
    parse_naive_date_time(inner.as_str(), "%Y-%m-%d %H:%M:%S")
}

/// The timestamp that a video's creation time stands for: the local time of
/// the RFC 3339 text, in the offset that the text names.
pub open spec fn video_date_of(text: Seq<char>) -> Option<CaptureTimestamp> {
    rfc3339_local_time(text)
}

/// Reads a video's creation time.
pub fn parse_video_creation_time(text: &str) -> (parsed: Option<CaptureTimestamp>)
    ensures
        parsed == video_date_of(text@),
        parsed matches Some(stamp) ==> stamp.wf(),
{
    parse_rfc3339_local(text)
}

/// The timestamp, in UTC, of a file time given in whole seconds since 1970.
pub open spec fn file_time_of(seconds: int) -> Option<CaptureTimestamp> {
    utc_date_time(seconds, 0)
}

/// Turns a file time, in seconds since the beginning of 1970, into a
/// timestamp in UTC.
pub fn from_unix_seconds(seconds: i64) -> (made: Option<CaptureTimestamp>)
    ensures
        made == file_time_of(seconds as int),
        made matches Some(stamp) ==> stamp.wf(),
{
    date_time_from_timestamp(seconds, 0)
}

} // verus!
