//! The date functions: reading a date, its components, its weekday and era,
//! `strptime`/`strftime`, and the `jiff_date` constructor.

use vstd::prelude::*;

use crate::jiff_civil::{
    date_display, date_new, date_parse, date_strftime, date_strptime_result, date_text,
    date_weekday, parse_date, strftime_date, strptime_date, strtime_matches, strtime_parses, utf8,
};
use crate::model::{valid_date, weekday_of, CivilDate, Era};
use crate::names::{era_name, era_name_spec, weekday_name, weekday_name_spec};
use crate::sql::{agrees, arg_text, msg, read_text, Failure, FailureView, SqlArg};

verus! {

/// A parse result with its message turned into a failure.
pub open spec fn as_failure<T>(r: Result<T, Seq<char>>) -> Result<T, FailureView> {
    match r {
        Ok(v) => Ok(v),
        Err(m) => Err(msg(m)),
    }
}

/// What `strptime` yields: nothing (SQL `NULL`) when the input does not
/// match the format, else the value the match makes, or the failure of
/// making one.
pub open spec fn strptime_outcome<T>(parses: bool, made: Result<T, Seq<char>>) -> Result<
    Option<T>,
    FailureView,
> {
    if !parses {
        Ok(None)
    } else {
        match made {
            Ok(v) => Ok(Some(v)),
            Err(m) => Err(msg(m)),
        }
    }
}

/// The date a text names, or the parser's message as a failure.
pub open spec fn date_from_value_spec(text: Seq<char>) -> Result<CivilDate, FailureView> {
    as_failure(date_parse(utf8(text)))
}

/// Reads a date from its ISO 8601 text.
pub fn date_from_value(text: &str) -> (r: Result<CivilDate, Failure>)
    ensures
        agrees(r, date_from_value_spec(text@)),
        r matches Ok(d) ==> d.wf(),
{
    match parse_date(text.as_bytes()) {
        Ok(d) => Ok(d),
        Err(e) => Err(Failure::Message(e)),
    }
}

/// Reads a date from its ISO 8601 text (the same reading as
/// [`date_from_value`]).
pub fn jiff_date_from_value(text: &str) -> (r: Result<CivilDate, Failure>)
    ensures
        agrees(r, date_from_value_spec(text@)),
        r matches Ok(d) ==> d.wf(),
{
    date_from_value(text)
}

/// The text a date result carries: its ISO 8601 rendering.
pub fn result_date(d: CivilDate) -> (r: String)
    requires
        d.wf(),
    ensures
        r@ == date_display(d),
{
    date_text(d)
}

/// `jiff_date_valid` tells whether `jiff_date` reads a date from the same
/// text: the bytes of a text argument are a valid date exactly when
/// `jiff_date` of that argument is not `NULL`.
pub proof fn lemma_valid_iff_date(a: SqlArg)
    requires
        a.text is Some,
    ensures
        date_parse(utf8(a.text->Some_0@)) is Ok <==> jiff_date_spec(seq![a]) matches Ok(Some(_)),
{
}

/// The weekday name of the date a text names.
pub fn jiff_date_weekday(text: &str) -> (r: Result<&'static str, Failure>)
    ensures
        match (r, date_from_value_spec(text@)) {
            (Ok(name), Ok(d)) => name@ == weekday_name_spec(weekday_of(d)),
            (Err(e), Err(f)) => e@ == f,
            _ => false,
        },
{
    let d = date_from_value(text)?;
    Ok(weekday_name(date_weekday(d)))
}

/// Whether the bytes are a date in ISO 8601 form.
pub fn jiff_date_valid(input: &[u8]) -> (r: bool)
    ensures
        r == date_parse(input@) is Ok,
{
    parse_date(input).is_ok()
}

/// What `strptime` with a format yields for a date: nothing (SQL `NULL`) when
/// the input is `NULL` or does not match the format, the date's text when
/// the match makes a date, and otherwise the failure of making one.
pub fn jiff_date_strptime(format: &[u8], input: Option<&[u8]>) -> (r: Result<
    Option<String>,
    Failure,
>)
    ensures
        input is None ==> r matches Ok(None),
        input matches Some(i) ==> match (
            r,
            strptime_outcome(strtime_parses(format@, i@), date_strptime_result(format@, i@)),
        ) {
            (Ok(Some(t)), Ok(Some(d))) => t@ == date_display(d),
            (Ok(None), Ok(None)) => true,
            (Err(e), Err(f)) => e@ == f,
            _ => false,
        },
{
    match input {
        None => Ok(None),
        Some(i) => {
            if !strtime_matches(format, i) {
                return Ok(None);
            }
            match strptime_date(format, i) {
                Ok(d) => Ok(Some(date_text(d))),
                Err(e) => Err(Failure::Message(e)),
            }
        },
    }
}

/// The outcome of `jiff_date`: with one argument, the date its text names
/// (`NULL` when it names none); with three, the date of that year, month and
/// day, each of which must fit its integer type (else the failure `TODO`)
/// and together name a valid date (else the failure `asdf`).
pub open spec fn jiff_date_spec(args: Seq<SqlArg>) -> Result<Option<CivilDate>, FailureView> {
    if args.len() == 1 {
        match arg_text(args[0]) {
            Ok(t) => match date_from_value_spec(t) {
                Ok(d) => Ok(Some(d)),
                Err(_) => Ok(None),
            },
            Err(_) => Ok(None),
        }
    } else {
        let y = args[0].int64 as int;
        let m = args[1].int64 as int;
        let d = args[2].int64 as int;
        if !(-32768 <= y <= 32767) || !(-128 <= m <= 127) || !(-128 <= d <= 127) {
            Err(msg("TODO"@))
        } else if !valid_date(y, m, d) {
            Err(msg("asdf"@))
        } else {
            Ok(Some(CivilDate { year: y as i16, month: m as i8, day: d as i8 }))
        }
    }
}

/// The SQL function `jiff_date`, returning the text of the date (`None` for
/// SQL `NULL`).
pub fn jiff_date(args: &Vec<SqlArg>) -> (r: Result<Option<String>, Failure>)
    requires
        args.len() == 1 || args.len() == 3,
    ensures
        match (r, jiff_date_spec(args@)) {
            (Ok(Some(t)), Ok(Some(d))) => t@ == date_display(d),
            (Ok(None), Ok(None)) => true,
            (Err(e), Err(f)) => e@ == f,
            _ => false,
        },
{
    if args.len() == 1 {
        match read_text(&args[0]) {
            Ok(t) => match date_from_value(t) {
                Ok(d) => Ok(Some(result_date(d))),
                Err(_) => Ok(None),
            },
            Err(_) => Ok(None),
        }
    } else {
        let y = args[0].int64;
        let m = args[1].int64;
        let d = args[2].int64;
        if !(-32768 <= y && y <= 32767) || !(-128 <= m && m <= 127) || !(-128 <= d && d <= 127) {
            return Err(Failure::Message("TODO".to_owned()));
        }
        match date_new(y as i16, m as i8, d as i8) {
            Some(date) => Ok(Some(result_date(date))),
            None => Err(Failure::Message("asdf".to_owned())),
        }
    }
}

/// The year of the date a text names.
pub fn jiff_date_year(text: &str) -> (r: Result<i16, Failure>)
    ensures
        match (r, date_from_value_spec(text@)) {
            (Ok(v), Ok(d)) => v == d.year,
            (Err(e), Err(f)) => e@ == f,
            _ => false,
        },
{
    let d = date_from_value(text)?;
    Ok(d.year)
}

/// The month of the date a text names.
pub fn jiff_date_month(text: &str) -> (r: Result<i8, Failure>)
    ensures
        match (r, date_from_value_spec(text@)) {
            (Ok(v), Ok(d)) => v == d.month,
            (Err(e), Err(f)) => e@ == f,
            _ => false,
        },
{
    let d = date_from_value(text)?;
    Ok(d.month)
}

/// The day of the date a text names.
pub fn jiff_date_day(text: &str) -> (r: Result<i8, Failure>)
    ensures
        match (r, date_from_value_spec(text@)) {
            (Ok(v), Ok(d)) => v == d.day,
            (Err(e), Err(f)) => e@ == f,
            _ => false,
        },
{
    let d = date_from_value(text)?;
    Ok(d.day)
}

/// The year of a date counted within its era: years from 1 on are years of
/// the common era; year 0 is 1 BCE, year -1 is 2 BCE, and so on.
pub open spec fn era_year_spec(year: int) -> (int, Era) {
    if year >= 1 {
        (year, Era::CE)
    } else {
        (1 - year, Era::BCE)
    }
}

/// The era year is always at least 1, and the era and era year give back
/// the year: a year of the common era is itself, a year before it is one
/// minus its era year.
pub proof fn lemma_era_year_inverse(year: int)
    ensures
        era_year_spec(year).0 >= 1,
        era_year_spec(year).1 == Era::CE ==> year == era_year_spec(year).0,
        era_year_spec(year).1 == Era::BCE ==> year == 1 - era_year_spec(year).0,
{
}

/// The era year and era of a date (what `Date::era_year` computes).
pub fn era_year(d: CivilDate) -> (r: (i16, Era))
    requires
        d.wf(),
    ensures
        (r.0 as int, r.1) == era_year_spec(d.year as int),
{
    if d.year >= 1 {
        (d.year, Era::CE)
    } else {
        (1 - d.year, Era::BCE)
    }
}

/// The era (`BCE` or `CE`) of the date a text names.
pub fn jiff_date_era(text: &str) -> (r: Result<&'static str, Failure>)
    ensures
        match (r, date_from_value_spec(text@)) {
            (Ok(name), Ok(d)) => name@ == era_name_spec(era_year_spec(d.year as int).1),
            (Err(e), Err(f)) => e@ == f,
            _ => false,
        },
{
    let d = date_from_value(text)?;
    let (_, era) = era_year(d);
    Ok(era_name(era))
}

/// The year within its era of the date a text names.
pub fn jiff_date_era_year(text: &str) -> (r: Result<i16, Failure>)
    ensures
        match (r, date_from_value_spec(text@)) {
            (Ok(y), Ok(d)) => y as int == era_year_spec(d.year as int).0,
            (Err(e), Err(f)) => e@ == f,
            _ => false,
        },
{
    let d = date_from_value(text)?;
    let (year, _) = era_year(d);
    Ok(year)
}

/// The SQL function `jiff_date_strftime`: the date of `input` formatted with
/// `format`, or nothing (SQL `NULL`) when formatting fails. Input that is not
/// a date stops the call.
pub fn jiff_date_strftime(input: &[u8], format: &[u8]) -> (r: Result<Option<String>, Failure>)
    ensures
        match date_parse(input@) {
            Ok(d) => match (r, date_strftime(format@, d)) {
                (Ok(Some(t)), Some(s)) => t@ == s,
                (Ok(None), None) => true,
                _ => false,
            },
            Err(_) => r matches Err(Failure::Halt),
        },
{
    match parse_date(input) {
        Ok(d) => Ok(strftime_date(format, d)),
        Err(_) => Err(Failure::Halt),
    }
}

} // verus!
