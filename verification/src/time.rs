//! The time-of-day functions: reading a time (with the word `midnight`),
//! building one from components, rounding it, `strptime`, and its hour.

use vstd::prelude::*;

use crate::date::{as_failure, strptime_outcome};
use crate::jiff_civil::{
    parse_time, strptime_time, strtime_matches, strtime_parses, time_display, time_new,
    time_new_error, time_parse, time_strptime_result, time_text, utf8,
};
use crate::jiff_span::{time_round, time_rounded};
use crate::model::{valid_time, CivilTime, RoundingMode, TimeUnit};
use crate::names::{roundmode_from_text, roundmode_named, unit_from_value, unit_from_value_spec};
use crate::sql::{agrees, arg_text, msg, read_text, Failure, FailureView, SqlArg};
use crate::text::{concat3, text_eq};

verus! {

/// The time of day at the start of a day.
pub open spec fn midnight_spec() -> CivilTime {
    CivilTime { hour: 0, minute: 0, second: 0, subsec_nanosecond: 0 }
}

/// The time of day at the start of a day (what `Time::midnight` gives).
pub fn midnight() -> (r: CivilTime)
    ensures
        r == midnight_spec(),
        r.wf(),
{
    CivilTime { hour: 0, minute: 0, second: 0, subsec_nanosecond: 0 }
}

/// The text a time result carries: its ISO 8601 rendering.
pub fn result_time(t: CivilTime) -> (r: String)
    requires
        t.wf(),
    ensures
        r@ == time_display(t),
{
    time_text(t)
}

/// The time a text names; the word `midnight`, which the parser does not
/// accept, names 00:00:00.
pub open spec fn time_from_value_spec(text: Seq<char>) -> Result<CivilTime, FailureView> {
    match time_parse(utf8(text)) {
        Ok(t) => Ok(t),
        Err(m) => if text == "midnight"@ {
            Ok(midnight_spec())
        } else {
            Err(msg(m))
        },
    }
}

/// Reads a time of day from its ISO 8601 text or the word `midnight`.
pub fn time_from_value(text: &str) -> (r: Result<CivilTime, Failure>)
    ensures
        agrees(r, time_from_value_spec(text@)),
        r matches Ok(t) ==> t.wf(),
{
    match parse_time(text.as_bytes()) {
        Ok(t) => Ok(t),
        Err(e) => {
            if text_eq(text, "midnight") {
                Ok(midnight())
            } else {
                Err(Failure::Message(e))
            }
        },
    }
}

/// The time a text names in ISO 8601 form, or the parser's message.
pub open spec fn jiff_time_from_value_spec(text: Seq<char>) -> Result<CivilTime, FailureView> {
    as_failure(time_parse(utf8(text)))
}

/// Reads a time of day from its ISO 8601 text only.
pub fn jiff_time_from_value(text: &str) -> (r: Result<CivilTime, Failure>)
    ensures
        agrees(r, jiff_time_from_value_spec(text@)),
        r matches Ok(t) ==> t.wf(),
{
    match parse_time(text.as_bytes()) {
        Ok(t) => Ok(t),
        Err(e) => Err(Failure::Message(e)),
    }
}

/// The hour of the time a text names.
pub fn jiff_time_hour(text: &str) -> (r: Result<i8, Failure>)
    ensures
        match (r, time_from_value_spec(text@)) {
            (Ok(h), Ok(t)) => h == t.hour,
            (Err(e), Err(f)) => e@ == f,
            _ => false,
        },
{
    let t = time_from_value(text)?;
    Ok(t.hour)
}

/// The outcome of `jiff_time`. With one argument: the time its text names,
/// `NULL` when none. With three or four: hour, minute and second (as 32-bit
/// integers) must each fit in 8 bits, else the failure naming the first that
/// does not; the fourth argument (0 when absent) gives the nanoseconds; and
/// the four must name a valid time, else `jiff`'s message.
pub open spec fn jiff_time_spec(args: Seq<SqlArg>) -> Result<Option<CivilTime>, FailureView> {
    if args.len() == 1 {
        match arg_text(args[0]) {
            Ok(t) => match time_from_value_spec(t) {
                Ok(x) => Ok(Some(x)),
                Err(_) => Ok(None),
            },
            Err(_) => Ok(None),
        }
    } else {
        let h = args[0].int as int;
        let m = args[1].int as int;
        let s = args[2].int as int;
        let ns: i32 = if args.len() >= 4 { args[3].int } else { 0 };
        if !(-128 <= h <= 127) {
            Err(msg("Invalid hour value"@))
        } else if !(-128 <= m <= 127) {
            Err(msg("Invalid minute value"@))
        } else if !(-128 <= s <= 127) {
            Err(msg("Invalid second value"@))
        } else if !valid_time(h, m, s, ns as int) {
            Err(msg(time_new_error(h as i8, m as i8, s as i8, ns)))
        } else {
            Ok(
                Some(
                    CivilTime {
                        hour: h as i8,
                        minute: m as i8,
                        second: s as i8,
                        subsec_nanosecond: ns,
                    },
                ),
            )
        }
    }
}

/// The SQL function `jiff_time`, returning the text of the time (`None` for
/// SQL `NULL`).
pub fn jiff_time(args: &Vec<SqlArg>) -> (r: Result<Option<String>, Failure>)
    requires
        1 <= args.len() <= 4 && args.len() != 2,
    ensures
        match (r, jiff_time_spec(args@)) {
            (Ok(Some(t)), Ok(Some(x))) => t@ == time_display(x),
            (Ok(None), Ok(None)) => true,
            (Err(e), Err(f)) => e@ == f,
            _ => false,
        },
{
    if args.len() == 1 {
        match read_text(&args[0]) {
            Ok(t) => match time_from_value(t) {
                Ok(x) => Ok(Some(result_time(x))),
                Err(_) => Ok(None),
            },
            Err(_) => Ok(None),
        }
    } else {
        let h = args[0].int;
        let m = args[1].int;
        let s = args[2].int;
        if !(-128 <= h && h <= 127) {
            return Err(Failure::Message("Invalid hour value".to_owned()));
        }
        if !(-128 <= m && m <= 127) {
            return Err(Failure::Message("Invalid minute value".to_owned()));
        }
        if !(-128 <= s && s <= 127) {
            return Err(Failure::Message("Invalid second value".to_owned()));
        }
        let ns: i32 = if args.len() >= 4 {
            args[3].int
        } else {
            0
        };
        match time_new(h as i8, m as i8, s as i8, ns) {
            Ok(t) => Ok(Some(result_time(t))),
            Err(e) => Err(Failure::Message(e)),
        }
    }
}

/// The options of a time rounding: the smallest unit kept, the increment and
/// the rounding mode, each unset until given.
#[derive(Clone, Copy, Debug, PartialEq, Eq, Structural)]
pub struct TimeRoundOptions {
    pub smallest: Option<TimeUnit>,
    pub increment: Option<i64>,
    pub mode: Option<RoundingMode>,
}

/// Time rounding options with nothing set.
pub open spec fn no_time_round_options() -> TimeRoundOptions {
    TimeRoundOptions { smallest: None, increment: None, mode: None }
}

/// One key/value pair of `jiff_time_round` applied to the options so far.
pub open spec fn time_round_step(key: SqlArg, value: SqlArg, o: TimeRoundOptions) -> Result<
    TimeRoundOptions,
    FailureView,
> {
    match arg_text(key) {
        Err(f) => Err(f),
        Ok(k) => if k == "smallest"@ {
            match arg_text(value) {
                Err(f) => Err(f),
                Ok(v) => match unit_from_value_spec(v) {
                    Ok(u) => Ok(TimeRoundOptions { smallest: Some(u), ..o }),
                    Err(f) => Err(f),
                },
            }
        } else if k == "increment"@ {
            Ok(TimeRoundOptions { increment: Some(value.int64), ..o })
        } else if k == "mode"@ {
            match arg_text(value) {
                Err(f) => Err(f),
                Ok(v) => match roundmode_named(v) {
                    Some(m) => Ok(TimeRoundOptions { mode: Some(m), ..o }),
                    None => Err(msg("Unknown round mode: '"@ + v + "'"@)),
                },
            }
        } else {
            Err(msg("Unknown key for jiff_span_round: '"@ + k + "'"@))
        },
    }
}

/// The key/value pairs of `args` from position `k` on, applied in order to
/// `o`; a key without a value stops the call.
pub open spec fn time_round_fold(args: Seq<SqlArg>, k: int, o: TimeRoundOptions) -> Result<
    TimeRoundOptions,
    FailureView,
>
    decreases args.len() - k,
{
    if k >= args.len() {
        Ok(o)
    } else if k + 1 >= args.len() {
        Err(FailureView::Halt)
    } else {
        match time_round_step(args[k], args[k + 1], o) {
            Ok(o2) => time_round_fold(args, k + 2, o2),
            Err(f) => Err(f),
        }
    }
}

/// The rounding options `jiff_time_round` reads from its arguments after the
/// time: a single unit name sets the smallest unit; otherwise key/value
/// pairs (`smallest`, `increment`, `mode`), later pairs overriding earlier.
pub open spec fn time_round_plan(args: Seq<SqlArg>) -> Result<TimeRoundOptions, FailureView> {
    if args.len() == 2 {
        match arg_text(args[1]) {
            Err(f) => Err(f),
            Ok(v) => match unit_from_value_spec(v) {
                Ok(u) => Ok(TimeRoundOptions { smallest: Some(u), ..no_time_round_options() }),
                Err(f) => Err(f),
            },
        }
    } else {
        time_round_fold(args, 1, no_time_round_options())
    }
}

/// Applies one key/value pair of `jiff_time_round` to the options so far.
fn time_round_apply(key: &SqlArg, value: &SqlArg, o: TimeRoundOptions) -> (r: Result<
    TimeRoundOptions,
    Failure,
>)
    ensures
        agrees(r, time_round_step(*key, *value, o)),
{
    let k = read_text(key)?;
    if text_eq(k, "smallest") {
        let v = read_text(value)?;
        let u = unit_from_value(v)?;
        Ok(TimeRoundOptions { smallest: Some(u), ..o })
    } else if text_eq(k, "increment") {
        Ok(TimeRoundOptions { increment: Some(value.int64), ..o })
    } else if text_eq(k, "mode") {
        let v = read_text(value)?;
        match roundmode_from_text(v) {
            Some(m) => Ok(TimeRoundOptions { mode: Some(m), ..o }),
            None => Err(Failure::Message(concat3("Unknown round mode: '", v, "'"))),
        }
    } else {
        Err(Failure::Message(concat3("Unknown key for jiff_span_round: '", k, "'")))
    }
}

/// Reads the rounding options of `jiff_time_round` from its arguments after
/// the time.
pub fn time_round_options(args: &Vec<SqlArg>) -> (r: Result<TimeRoundOptions, Failure>)
    requires
        args.len() >= 1,
    ensures
        agrees(r, time_round_plan(args@)),
{
    if args.len() == 2 {
        let v = read_text(&args[1])?;
        let u = unit_from_value(v)?;
        return Ok(TimeRoundOptions { smallest: Some(u), increment: None, mode: None });
    }
    let mut o = TimeRoundOptions { smallest: None, increment: None, mode: None };
    let mut k: usize = 1;
    while k < args.len()
        invariant
            1 <= k,
            k <= args.len() + 1,
            args.len() != 2,
            time_round_fold(args@, k as int, o) == time_round_plan(args@),
        decreases args.len() - k,
    {
        if k + 1 >= args.len() {
            return Err(Failure::Halt);
        }
        o = time_round_apply(&args[k], &args[k + 1], o)?;
        k = k + 2;
    }
    Ok(o)
}

/// The SQL function `jiff_time_round`: the time its first argument names,
/// rounded with the options the rest give, as text.
pub fn jiff_time_round(args: &Vec<SqlArg>) -> (r: Result<String, Failure>)
    ensures
        args.len() == 0 ==> r matches Err(Failure::Halt),
        args.len() >= 1 ==> match arg_text(args[0]) {
            Err(f) => r matches Err(e) && e@ == f,
            Ok(t) => match time_from_value_spec(t) {
                Err(f) => r matches Err(e) && e@ == f,
                Ok(_) => match time_round_plan(args@) {
                    Err(f) => r matches Err(e) && e@ == f,
                    Ok(o) => match time_rounded(time_from_value_spec(t)->Ok_0, o) {
                    Ok(x) => r matches Ok(s) && s@ == time_display(x),
                    Err(m) => r matches Err(e) && e@ == msg(m),
                },
                },
            },
        },
{
    if args.len() == 0 {
        return Err(Failure::Halt);
    }
    let text = read_text(&args[0])?;
    let t = time_from_value(text)?;
    let o = time_round_options(args)?;
    match time_round(t, o) {
        Ok(x) => Ok(result_time(x)),
        Err(e) => Err(Failure::Message(e)),
    }
}

/// The SQL function `jiff_time_strptime`: the time of day `input` gives under
/// `format`, as text; nothing (SQL `NULL`) when it does not match.
pub fn jiff_time_strptime(format: &[u8], input: &[u8]) -> (r: Result<Option<String>, Failure>)
    ensures
        match (
            r,
            strptime_outcome(strtime_parses(format@, input@), time_strptime_result(format@, input@)),
        ) {
            (Ok(Some(t)), Ok(Some(x))) => t@ == time_display(x),
            (Ok(None), Ok(None)) => true,
            (Err(e), Err(f)) => e@ == f,
            _ => false,
        },
{
    if !strtime_matches(format, input) {
        return Ok(None);
    }
    match strptime_time(format, input) {
        Ok(t) => Ok(Some(result_time(t))),
        Err(e) => Err(Failure::Message(e)),
    }
}

} // verus!
