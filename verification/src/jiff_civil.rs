//! Calls into `jiff` for civil dates, times, datetimes and instants: parsing,
//! rendering, construction and `strftime`/`strptime`. Each item here is
//! trusted: its contract restates what `jiff`'s source and documentation
//! show, or names a result that is a function of the arguments alone.

use vstd::prelude::*;

use jiff::civil::{Date, DateTime, Time};
use jiff::fmt::temporal::DateTimeParser;
use jiff::Timestamp;

use crate::model::{
    valid_date, valid_time, weekday_of, CivilDate, CivilDateTime, CivilTime, Instant, Weekday,
    INSTANT_SECOND_MAX, INSTANT_SECOND_MIN,
};
use crate::text::{nine_digits, pad2, pad4, trim_trailing_zeros};

verus! {

/// The UTF-8 encoding of a string.
pub open spec fn utf8(s: Seq<char>) -> Seq<u8> {
    vstd::utf8::encode_utf8(s)
}

/// A result whose error is a message, with the message taken by its view.
pub open spec fn with_text_error<T>(r: Result<T, String>) -> Result<T, Seq<char>> {
    match r {
        Ok(v) => Ok(v),
        Err(e) => Err(e@),
    }
}

/// What `jiff`'s ISO 8601 parser makes of `input` as a date.
pub uninterp spec fn date_parse(input: Seq<u8>) -> Result<CivilDate, Seq<char>>;

/// What `jiff`'s ISO 8601 parser makes of `input` as a time of day.
pub uninterp spec fn time_parse(input: Seq<u8>) -> Result<CivilTime, Seq<char>>;

/// What `jiff`'s ISO 8601 parser makes of `input` as a datetime.
pub uninterp spec fn datetime_parse(input: Seq<u8>) -> Result<CivilDateTime, Seq<char>>;

/// What `jiff`'s RFC 3339 parser makes of `input` as an instant.
pub uninterp spec fn timestamp_parse(input: Seq<u8>) -> Result<Instant, Seq<char>>;

/// The RFC 3339 rendering (in UTC, with a `Z`) of an instant.
pub uninterp spec fn timestamp_display(t: Instant) -> Seq<char>;


/// The message `jiff` gives when a time of day cannot be built from these
/// components.
pub uninterp spec fn time_new_error(hour: i8, minute: i8, second: i8, nanos: i32) -> Seq<char>;

/// Whether `input` matches the `strptime` format `format`.
pub uninterp spec fn strtime_parses(format: Seq<u8>, input: Seq<u8>) -> bool;

/// The date `input` gives under the `strptime` format `format`, or the
/// error message when it gives none.
pub uninterp spec fn date_strptime_result(format: Seq<u8>, input: Seq<u8>) -> Result<
    CivilDate,
    Seq<char>,
>;

/// The time of day `input` gives under the `strptime` format `format`, or
/// the error message when it gives none.
pub uninterp spec fn time_strptime_result(format: Seq<u8>, input: Seq<u8>) -> Result<
    CivilTime,
    Seq<char>,
>;

/// The datetime `input` gives under the `strptime` format `format`, or the
/// error message when it gives none.
pub uninterp spec fn datetime_strptime_result(format: Seq<u8>, input: Seq<u8>) -> Result<
    CivilDateTime,
    Seq<char>,
>;

/// The instant `input` gives under the `strptime` format `format`, or the
/// error message when it gives none.
pub uninterp spec fn timestamp_strptime_result(format: Seq<u8>, input: Seq<u8>) -> Result<
    Instant,
    Seq<char>,
>;

/// The text of a date formatted with the `strftime` format `format`, or
/// `None` when the format cannot be applied.
pub uninterp spec fn date_strftime(format: Seq<u8>, d: CivilDate) -> Option<Seq<char>>;

/// The ISO 8601 rendering of a date: the year in four digits (a negative year
/// as `-00` and four digits of its magnitude), then the month and the day in
/// two digits each, separated by `-`.
pub open spec fn date_display(d: CivilDate) -> Seq<char> {
    let y = d.year as int;
    (if y < 0 { "-00"@ } else { Seq::empty() }) + pad4(if y < 0 { -y } else { y }) + "-"@ + pad2(
        d.month as int,
    ) + "-"@ + pad2(d.day as int)
}

/// The ISO 8601 rendering of a time of day: hours, minutes and seconds in two
/// digits each, separated by `:`, then, when the sub-second part is not zero,
/// a `.` and its nine digits without trailing zeros.
pub open spec fn time_display(t: CivilTime) -> Seq<char> {
    pad2(t.hour as int) + ":"@ + pad2(t.minute as int) + ":"@ + pad2(t.second as int) + (if t.subsec_nanosecond
        == 0 {
        Seq::empty()
    } else {
        "."@ + trim_trailing_zeros(nine_digits(t.subsec_nanosecond as int))
    })
}

/// The ISO 8601 rendering of a datetime: the date, `T`, the time.
pub open spec fn datetime_display(dt: CivilDateTime) -> Seq<char> {
    date_display(dt.date) + "T"@ + time_display(dt.time)
}

/// Parses a date with `DateTimeParser::parse_date` (the parser behind
/// `Date::from_str`). The result, converted field by field, is the named
/// `date_parse`, and every date `jiff` yields is a valid one.
#[verifier::external_body]
pub(crate) fn parse_date(input: &[u8]) -> (r: Result<CivilDate, String>)
    ensures
        with_text_error(r) == date_parse(input@),
        r matches Ok(d) ==> d.wf(),
{
    match DateTimeParser::new().parse_date(input) {
        Ok(d) => Ok(CivilDate { year: d.year(), month: d.month(), day: d.day() }),
        Err(e) => Err(e.to_string()),
    }
}

/// Parses a time of day with `DateTimeParser::parse_time` (the parser behind
/// `Time::from_str`). The result is the named `time_parse`, always valid.
#[verifier::external_body]
pub(crate) fn parse_time(input: &[u8]) -> (r: Result<CivilTime, String>)
    ensures
        with_text_error(r) == time_parse(input@),
        r matches Ok(t) ==> t.wf(),
{
    match DateTimeParser::new().parse_time(input) {
        Ok(t) => Ok(
            CivilTime {
                hour: t.hour(),
                minute: t.minute(),
                second: t.second(),
                subsec_nanosecond: t.subsec_nanosecond(),
            },
        ),
        Err(e) => Err(e.to_string()),
    }
}

/// Parses a datetime with `DateTimeParser::parse_datetime` (the parser behind
/// `DateTime::from_str`). The result is the named `datetime_parse`, always
/// valid.
#[verifier::external_body]
pub(crate) fn parse_datetime(input: &[u8]) -> (r: Result<CivilDateTime, String>)
    ensures
        with_text_error(r) == datetime_parse(input@),
        r matches Ok(dt) ==> dt.wf(),
{
    match DateTimeParser::new().parse_datetime(input) {
        Ok(x) => Ok(
            CivilDateTime {
                date: CivilDate { year: x.year(), month: x.month(), day: x.day() },
                time: CivilTime {
                    hour: x.hour(),
                    minute: x.minute(),
                    second: x.second(),
                    subsec_nanosecond: x.subsec_nanosecond(),
                },
            },
        ),
        Err(e) => Err(e.to_string()),
    }
}

/// Parses an instant with `DateTimeParser::parse_timestamp` (the parser
/// behind `Timestamp::from_str`). The result is the named `timestamp_parse`;
/// every instant `jiff` yields lies in its supported range.
#[verifier::external_body]
pub(crate) fn parse_timestamp(input: &[u8]) -> (r: Result<Instant, String>)
    ensures
        with_text_error(r) == timestamp_parse(input@),
        r matches Ok(t) ==> t.wf(),
{
    match DateTimeParser::new().parse_timestamp(input) {
        Ok(t) => Ok(Instant { second: t.as_second(), nanosecond: t.subsec_nanosecond() }),
        Err(e) => Err(e.to_string()),
    }
}

/// Renders a date with its `Display` implementation, which writes the year
/// (prefixed by `-00` when negative) in four digits and the month and day in
/// two, as `date_display` states.
#[verifier::external_body]
pub(crate) fn date_text(d: CivilDate) -> (r: String)
    requires
        d.wf(),
    ensures
        r@ == date_display(d),
{
    Date::constant(d.year, d.month, d.day).to_string()
}

/// Renders a time of day with its `Display` implementation, which writes the
/// fraction only when it is not zero, trimmed of trailing zeros, as
/// `time_display` states.
#[verifier::external_body]
pub(crate) fn time_text(t: CivilTime) -> (r: String)
    requires
        t.wf(),
    ensures
        r@ == time_display(t),
{
    Time::constant(t.hour, t.minute, t.second, t.subsec_nanosecond).to_string()
}

/// Renders a datetime with its `Display` implementation: the date, `T`, the
/// time.
#[verifier::external_body]
pub(crate) fn datetime_text(dt: CivilDateTime) -> (r: String)
    requires
        dt.wf(),
    ensures
        r@ == datetime_display(dt),
{
    let t = dt.time;
    DateTime::from_parts(
        Date::constant(dt.date.year, dt.date.month, dt.date.day),
        Time::constant(t.hour, t.minute, t.second, t.subsec_nanosecond),
    ).to_string()
}

/// Renders an instant with `Timestamp`'s `Display` implementation; the text
/// is the named `timestamp_display`.
#[verifier::external_body]
pub(crate) fn timestamp_text(t: Instant) -> (r: String)
    requires
        t.wf(),
    ensures
        r@ == timestamp_display(t),
{
    Timestamp::constant(t.second, t.nanosecond).to_string()
}

/// Calls `Date::weekday`: the weekday of the date in the proleptic
/// Gregorian calendar, as `weekday_of` computes it.
#[verifier::external_body]
pub(crate) fn date_weekday(d: CivilDate) -> (r: Weekday)
    requires
        d.wf(),
    ensures
        r == weekday_of(d),
{
    match Date::constant(d.year, d.month, d.day).weekday() {
        jiff::civil::Weekday::Monday => Weekday::Monday,
        jiff::civil::Weekday::Tuesday => Weekday::Tuesday,
        jiff::civil::Weekday::Wednesday => Weekday::Wednesday,
        jiff::civil::Weekday::Thursday => Weekday::Thursday,
        jiff::civil::Weekday::Friday => Weekday::Friday,
        jiff::civil::Weekday::Saturday => Weekday::Saturday,
        jiff::civil::Weekday::Sunday => Weekday::Sunday,
    }
}

/// Calls `Date::new`, which (as its documentation states) succeeds exactly
/// when the year is in `-9999..=9999`, the month in `1..=12` and the day
/// within the month, and then holds the given fields.
#[verifier::external_body]
pub(crate) fn date_new(year: i16, month: i8, day: i8) -> (r: Option<CivilDate>)
    ensures
        r == (if valid_date(year as int, month as int, day as int) {
            Some(CivilDate { year, month, day })
        } else {
            None
        }),
{
    match Date::new(year, month, day) {
        Ok(d) => Some(CivilDate { year: d.year(), month: d.month(), day: d.day() }),
        Err(_) => None,
    }
}

/// Calls `Time::new`, which (as its documentation states) succeeds exactly
/// when hour, minute, second and nanoseconds are in range, and then holds
/// them. Its error message is the named `time_new_error`.
#[verifier::external_body]
pub(crate) fn time_new(hour: i8, minute: i8, second: i8, nanos: i32) -> (r: Result<CivilTime, String>)
    ensures
        match r {
            Ok(t) => valid_time(hour as int, minute as int, second as int, nanos as int) && t
                == CivilTime { hour, minute, second, subsec_nanosecond: nanos },
            Err(e) => !valid_time(hour as int, minute as int, second as int, nanos as int) && e@
                == time_new_error(hour, minute, second, nanos),
        },
{
    match Time::new(hour, minute, second, nanos) {
        Ok(t) => Ok(
            CivilTime {
                hour: t.hour(),
                minute: t.minute(),
                second: t.second(),
                subsec_nanosecond: t.subsec_nanosecond(),
            },
        ),
        Err(e) => Err(e.to_string()),
    }
}

/// Milliseconds since the Unix epoch that an instant can carry.
pub open spec fn millis_in_range(ms: int) -> bool {
    INSTANT_SECOND_MIN * 1000 <= ms <= INSTANT_SECOND_MAX * 1000
}

/// The instant `ms` milliseconds after the Unix epoch: whole seconds by
/// truncating division, the remainder (of the same sign) in nanoseconds.
pub open spec fn instant_of_millis(ms: int) -> Instant {
    let q = if ms >= 0 { ms / 1000 } else { -((-ms) / 1000) };
    let rem = ms - q * 1000;
    Instant { second: q as i64, nanosecond: (rem * 1_000_000) as i32 }
}

/// Calls `Timestamp::from_millisecond`, which (per its source) fails only
/// outside the supported range and otherwise splits the milliseconds by
/// truncating division into seconds and nanoseconds.
#[verifier::external_body]
pub(crate) fn timestamp_from_millisecond(ms: i64) -> (r: Option<Instant>)
    ensures
        r == (if millis_in_range(ms as int) {
            Some(instant_of_millis(ms as int))
        } else {
            None
        }),
{
    match Timestamp::from_millisecond(ms) {
        Ok(t) => Some(Instant { second: t.as_second(), nanosecond: t.subsec_nanosecond() }),
        Err(_) => None,
    }
}

/// Calls `jiff::fmt::strtime::parse` and reports whether it succeeds: the
/// named `strtime_parses`.
#[verifier::external_body]
pub(crate) fn strtime_matches(format: &[u8], input: &[u8]) -> (r: bool)
    ensures
        r == strtime_parses(format@, input@),
{
    jiff::fmt::strtime::parse(format, input).is_ok()
}

/// Calls `Date::strptime` (`strtime::parse`, then `to_date`); the date, or
/// the error message, is the named `date_strptime_result`, and a date it
/// yields is valid.
#[verifier::external_body]
pub(crate) fn strptime_date(format: &[u8], input: &[u8]) -> (r: Result<CivilDate, String>)
    ensures
        with_text_error(r) == date_strptime_result(format@, input@),
        r matches Ok(d) ==> d.wf(),
{
    match Date::strptime(format, input) {
        Ok(d) => Ok(CivilDate { year: d.year(), month: d.month(), day: d.day() }),
        Err(e) => Err(e.to_string()),
    }
}

/// Calls `Time::strptime` (`strtime::parse`, then `to_time`); the time, or
/// the error message, is the named `time_strptime_result`, and a time it
/// yields is valid.
#[verifier::external_body]
pub(crate) fn strptime_time(format: &[u8], input: &[u8]) -> (r: Result<CivilTime, String>)
    ensures
        with_text_error(r) == time_strptime_result(format@, input@),
        r matches Ok(t) ==> t.wf(),
{
    match Time::strptime(format, input) {
        Ok(t) => Ok(
            CivilTime {
                hour: t.hour(),
                minute: t.minute(),
                second: t.second(),
                subsec_nanosecond: t.subsec_nanosecond(),
            },
        ),
        Err(e) => Err(e.to_string()),
    }
}

/// Calls `DateTime::strptime` (`strtime::parse`, then `to_datetime`); the
/// datetime, or the error message, is the named `datetime_strptime_result`,
/// and a datetime it yields is valid.
#[verifier::external_body]
pub(crate) fn strptime_datetime(format: &[u8], input: &[u8]) -> (r: Result<CivilDateTime, String>)
    ensures
        with_text_error(r) == datetime_strptime_result(format@, input@),
        r matches Ok(dt) ==> dt.wf(),
{
    match DateTime::strptime(format, input) {
        Ok(x) => Ok(
            CivilDateTime {
                date: CivilDate { year: x.year(), month: x.month(), day: x.day() },
                time: CivilTime {
                    hour: x.hour(),
                    minute: x.minute(),
                    second: x.second(),
                    subsec_nanosecond: x.subsec_nanosecond(),
                },
            },
        ),
        Err(e) => Err(e.to_string()),
    }
}

/// Calls `Timestamp::strptime` (`strtime::parse`, then `to_timestamp`); the
/// instant, or the error message, is the named `timestamp_strptime_result`,
/// and an instant it yields is in range.
#[verifier::external_body]
pub(crate) fn strptime_timestamp(format: &[u8], input: &[u8]) -> (r: Result<Instant, String>)
    ensures
        with_text_error(r) == timestamp_strptime_result(format@, input@),
        r matches Ok(t) ==> t.wf(),
{
    match Timestamp::strptime(format, input) {
        Ok(t) => Ok(Instant { second: t.as_second(), nanosecond: t.subsec_nanosecond() }),
        Err(e) => Err(e.to_string()),
    }
}

/// Calls `jiff::fmt::strtime::format` on a date; the text, or `None` when
/// formatting fails, is the named `date_strftime`.
#[verifier::external_body]
pub(crate) fn strftime_date(format: &[u8], d: CivilDate) -> (r: Option<String>)
    requires
        d.wf(),
    ensures
        match r {
            Some(s) => date_strftime(format@, d) == Some(s@),
            None => date_strftime(format@, d) is None,
        },
{
    match jiff::fmt::strtime::format(format, Date::constant(d.year, d.month, d.day)) {
        Ok(s) => Some(s),
        Err(_) => None,
    }
}

} // verus!
