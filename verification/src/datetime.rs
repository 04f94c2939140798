//! The datetime functions: reading a datetime, building one from a date and
//! a time, and `strptime`.

use vstd::prelude::*;

use crate::date::{as_failure, date_from_value, date_from_value_spec, strptime_outcome};
use crate::jiff_civil::{
    datetime_display, datetime_parse, datetime_strptime_result, datetime_text, parse_datetime,
    strptime_datetime, strtime_matches, strtime_parses, utf8,
};
use crate::model::{CivilDate, CivilDateTime, CivilTime};
use crate::sql::{agrees, arg_text, read_text, Failure, FailureView, SqlArg};
use crate::time::{time_from_value, time_from_value_spec};

verus! {

/// The datetime a text names, or the parser's message as a failure.
pub open spec fn datetime_from_value_spec(text: Seq<char>) -> Result<CivilDateTime, FailureView> {
    as_failure(datetime_parse(utf8(text)))
}

/// Reads a datetime from its ISO 8601 text (with a `T` or a space between
/// date and time).
pub fn datetime_from_value(text: &str) -> (r: Result<CivilDateTime, Failure>)
    ensures
        agrees(r, datetime_from_value_spec(text@)),
        r matches Ok(dt) ==> dt.wf(),
{
    match parse_datetime(text.as_bytes()) {
        Ok(dt) => Ok(dt),
        Err(e) => Err(Failure::Message(e)),
    }
}

/// The text a datetime result carries: its ISO 8601 rendering.
pub fn result_datetime(dt: CivilDateTime) -> (r: String)
    requires
        dt.wf(),
    ensures
        r@ == datetime_display(dt),
{
    datetime_text(dt)
}

/// The datetime of a date at a time of day (what `DateTime::from_parts`
/// builds).
pub fn datetime_from_parts(date: CivilDate, time: CivilTime) -> (r: CivilDateTime)
    ensures
        r == (CivilDateTime { date, time }),
{
    CivilDateTime { date, time }
}

/// The SQL function `jiff_datetime_strptime`: the datetime `input` gives
/// under `format`, as text; nothing (SQL `NULL`) when it does not match.
pub fn jiff_datetime_strptime(format: &[u8], input: &[u8]) -> (r: Result<
    Option<String>,
    Failure,
>)
    ensures
        match (
            r,
            strptime_outcome(
                strtime_parses(format@, input@),
                datetime_strptime_result(format@, input@),
            ),
        ) {
            (Ok(Some(t)), Ok(Some(x))) => t@ == datetime_display(x),
            (Ok(None), Ok(None)) => true,
            (Err(e), Err(f)) => e@ == f,
            _ => false,
        },
{
    if !strtime_matches(format, input) {
        return Ok(None);
    }
    match strptime_datetime(format, input) {
        Ok(dt) => Ok(Some(result_datetime(dt))),
        Err(e) => Err(Failure::Message(e)),
    }
}

/// The outcome of `jiff_datetime`. With one argument: the datetime its text
/// names, `NULL` when none. With two: the date the first names at the time
/// the second names (`midnight` included); the call stops when either does
/// not name one.
pub open spec fn jiff_datetime_spec(args: Seq<SqlArg>) -> Result<
    Option<CivilDateTime>,
    FailureView,
> {
    if args.len() == 1 {
        match arg_text(args[0]) {
            Ok(t) => match datetime_from_value_spec(t) {
                Ok(x) => Ok(Some(x)),
                Err(_) => Ok(None),
            },
            Err(_) => Ok(None),
        }
    } else {
        let d = match arg_text(args[0]) {
            Ok(t) => date_from_value_spec(t),
            Err(f) => Err(f),
        };
        let t = match arg_text(args[1]) {
            Ok(x) => time_from_value_spec(x),
            Err(f) => Err(f),
        };
        match (d, t) {
            (Ok(d), Ok(t)) => Ok(Some(CivilDateTime { date: d, time: t })),
            _ => Err(FailureView::Halt),
        }
    }
}

/// The SQL function `jiff_datetime`, returning the text of the datetime
/// (`None` for SQL `NULL`).
pub fn jiff_datetime(args: &Vec<SqlArg>) -> (r: Result<Option<String>, Failure>)
    requires
        args.len() == 1 || args.len() == 2,
    ensures
        match (r, jiff_datetime_spec(args@)) {
            (Ok(Some(t)), Ok(Some(x))) => t@ == datetime_display(x),
            (Ok(None), Ok(None)) => true,
            (Err(e), Err(f)) => e@ == f,
            _ => false,
        },
{
    if args.len() == 1 {
        match read_text(&args[0]) {
            Ok(t) => match datetime_from_value(t) {
                Ok(x) => Ok(Some(result_datetime(x))),
                Err(_) => Ok(None),
            },
            Err(_) => Ok(None),
        }
    } else {
        let d = match read_text(&args[0]) {
            Ok(t) => date_from_value(t),
            Err(f) => Err(f),
        };
        let t = match read_text(&args[1]) {
            Ok(x) => time_from_value(x),
            Err(f) => Err(f),
        };
        match (d, t) {
            (Ok(d), Ok(t)) => Ok(Some(result_datetime(datetime_from_parts(d, t)))),
            _ => Err(Failure::Halt),
        }
    }
}

} // verus!
