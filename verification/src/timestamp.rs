//! The instant functions: reading an instant, the current instant, an
//! instant from Unix milliseconds, and `strptime`.

use vstd::prelude::*;

use crate::date::{as_failure, strptime_outcome};
use crate::jiff_civil::{
    instant_of_millis, millis_in_range, parse_timestamp, strptime_timestamp, strtime_matches,
    strtime_parses, timestamp_display, timestamp_from_millisecond, timestamp_parse,
    timestamp_strptime_result, timestamp_text,
    utf8,
};
use crate::jiff_zone::instant_now;
use crate::model::{Instant, INSTANT_SECOND_MAX, INSTANT_SECOND_MIN};
use crate::sql::{agrees, arg_text, read_text, Failure, FailureView, SqlArg};

verus! {

/// The instant a text names, or the parser's message as a failure.
pub open spec fn timestamp_from_value_spec(text: Seq<char>) -> Result<Instant, FailureView> {
    as_failure(timestamp_parse(utf8(text)))
}

/// Reads an instant from its RFC 3339 text.
pub fn timestamp_from_value(text: &str) -> (r: Result<Instant, Failure>)
    ensures
        agrees(r, timestamp_from_value_spec(text@)),
        r matches Ok(t) ==> t.wf(),
{
    match parse_timestamp(text.as_bytes()) {
        Ok(t) => Ok(t),
        Err(e) => Err(Failure::Message(e)),
    }
}

/// The text an instant result carries: its RFC 3339 rendering in UTC.
pub fn result_timestamp(t: Instant) -> (r: String)
    requires
        t.wf(),
    ensures
        r@ == timestamp_display(t),
{
    timestamp_text(t)
}

/// The SQL function `jiff_timestamp`: with no argument, the current instant
/// (the call stops when the system clock lies outside the supported range);
/// with one, the instant its text names (`None`, SQL `NULL`, when none).
pub fn jiff_timestamp(args: &Vec<SqlArg>) -> (r: Result<Option<String>, Failure>)
    ensures
        args.len() == 0 ==> match r {
            Ok(Some(t)) => exists|x: Instant| x.wf() && t@ == timestamp_display(x),
            Err(e) => e is Halt,
            Ok(None) => false,
        },
        args.len() > 0 ==> match arg_text(args@[0]) {
            Ok(s) => match timestamp_from_value_spec(s) {
                Ok(x) => (r matches Ok(Some(t)) && t@ == timestamp_display(x)),
                Err(_) => r matches Ok(None),
            },
            Err(_) => r matches Ok(None),
        },
{
    if args.len() == 0 {
        return match instant_now() {
            Some(t) => Ok(Some(result_timestamp(t))),
            None => Err(Failure::Halt),
        };
    }
    match read_text(&args[0]) {
        Ok(s) => match timestamp_from_value(s) {
            Ok(t) => Ok(Some(result_timestamp(t))),
            Err(_) => Ok(None),
        },
        Err(_) => Ok(None),
    }
}

/// The instant `ms` milliseconds after the Unix epoch carries exactly that
/// many nanoseconds and is a valid instant, for every `ms` in range.
pub proof fn lemma_instant_of_millis(ms: int)
    requires
        millis_in_range(ms),
    ensures
        instant_of_millis(ms).total_nanos() == ms * 1_000_000,
        instant_of_millis(ms).wf(),
{
    let q = if ms >= 0 { ms / 1000 } else { -((-ms) / 1000) };
    let rem = ms - q * 1000;
    assert(-999 <= rem <= 999);
    assert(ms >= 0 ==> rem >= 0);
    assert(ms < 0 ==> rem <= 0);
    assert(INSTANT_SECOND_MIN <= q <= INSTANT_SECOND_MAX);
}

/// The SQL function `jiff_timestamp_from_ms`: the instant `ms` milliseconds
/// after the Unix epoch, as text. Milliseconds outside the supported range
/// stop the call.
pub fn jiff_timestamp_from_ms(ms: i64) -> (r: Result<String, Failure>)
    ensures
        millis_in_range(ms as int) ==> (r matches Ok(t) && t@ == timestamp_display(
            instant_of_millis(ms as int),
        )),
        !millis_in_range(ms as int) ==> r matches Err(Failure::Halt),
{
    match timestamp_from_millisecond(ms) {
        Some(t) => {
            proof {
                lemma_instant_of_millis(ms as int);
            }
            Ok(result_timestamp(t))
        },
        None => Err(Failure::Halt),
    }
}

/// The SQL function `jiff_timestamp_strptime`: the instant `input` gives
/// under `format`, as text; nothing (SQL `NULL`) when it does not match.
pub fn jiff_timestamp_strptime(format: &[u8], input: &[u8]) -> (r: Result<
    Option<String>,
    Failure,
>)
    ensures
        match (
            r,
            strptime_outcome(
                strtime_parses(format@, input@),
                timestamp_strptime_result(format@, input@),
            ),
        ) {
            (Ok(Some(t)), Ok(Some(x))) => t@ == timestamp_display(x),
            (Ok(None), Ok(None)) => true,
            (Err(e), Err(f)) => e@ == f,
            _ => false,
        },
{
    if !strtime_matches(format, input) {
        return Ok(None);
    }
    match strptime_timestamp(format, input) {
        Ok(t) => Ok(Some(result_timestamp(t))),
        Err(e) => Err(Failure::Message(e)),
    }
}

} // verus!
