//! The span functions: reading a span, rendering it, rounding it, its total
//! in a unit, adding it to a value, and the span between two values.

use vstd::prelude::*;

use crate::date::{as_failure, date_from_value, date_from_value_spec};
use crate::datetime::{datetime_from_value, datetime_from_value_spec};
use crate::jiff_civil::{
    date_display, date_text, datetime_display, datetime_text, time_display, time_text,
};
use crate::jiff_span::{
    civil_date_since, civil_date_until, civil_datetime_since, civil_datetime_until,
    civil_time_since, civil_time_until, date_plus, date_saturating_add, date_until,
    calendar_sum_reached, datetime_plus, datetime_saturating_add, datetime_until, hours_span, instant_since, instant_until,
    negate_opt, parse_span, print_span, span_friendly, span_parse, span_round, span_rounded,
    time_plus, time_saturating_add, time_until, timestamp_until, zoned_saturating_add,
    zoned_since, zoned_until, SpanFormat, SpanValue,
};
use crate::jiff_zone::{zoned_display, ZonedValue, ZonedView};
use crate::zoned::{jiff_zoned_from_value, result_zoned};
use crate::model::{
    clamp_instant_nanos, CivilDate, CivilDateTime, RoundingMode, SpanDesignator, SpanDirection,
    SpanSpacing, SpanUnits, TimeUnit,
};
use crate::names::{
    designator_from_lowercase, designator_from_lowercase_spec, direction_from_lowercase,
    direction_from_lowercase_spec, roundmode_from_lowercase_spec, roundmode_from_value,
    spacing_from_lowercase, spacing_from_lowercase_spec, unit_from_value, unit_from_value_spec,
};
use crate::sql::{agrees, arg_text, msg, read_text, Failure, FailureView, SqlArg, SqlKind};
use crate::text::{concat3, lowercase, text_eq, to_lowercase};
use crate::time::{jiff_time_from_value, jiff_time_from_value_spec, time_from_value, time_from_value_spec};
use crate::timestamp::{timestamp_from_value, timestamp_from_value_spec};

verus! {

/// The units of the span a text names, or the parser's message.
pub open spec fn span_from_value_spec(text: Seq<char>) -> Result<SpanUnits, FailureView> {
    as_failure(span_parse(text))
}

/// An executable span result agrees with its specified units or failure.
pub open spec fn span_agrees(r: Result<SpanValue, Failure>, s: Result<SpanUnits, FailureView>) -> bool {
    match (r, s) {
        (Ok(v), Ok(u)) => v@ == u,
        (Err(e), Err(f)) => e@ == f,
        _ => false,
    }
}

/// Reads a span from its ISO 8601 or friendly text.
pub fn span_from_value(text: &str) -> (r: Result<SpanValue, Failure>)
    ensures
        span_agrees(r, span_from_value_spec(text@)),
{
    match parse_span(text) {
        Ok(s) => Ok(s),
        Err(e) => Err(Failure::Message(e)),
    }
}

/// The layout spans are rendered with as results: words for units, spaces
/// between units and words, commas after each word.
pub open spec fn verbose_format() -> SpanFormat {
    SpanFormat {
        spacing: SpanSpacing::BetweenUnitsAndDesignators,
        designator: SpanDesignator::Verbose,
        direction: SpanDirection::Auto,
        comma_after_designator: true,
    }
}

/// The layout `jiff`'s `SpanPrinter::new` starts from: compact unit letters,
/// a space between units, the sign shown as `jiff` chooses, no commas.
pub open spec fn default_format() -> SpanFormat {
    SpanFormat {
        spacing: SpanSpacing::BetweenUnits,
        designator: SpanDesignator::Compact,
        direction: SpanDirection::Auto,
        comma_after_designator: false,
    }
}

/// A result is the rendering of a span with the given units and layout.
pub open spec fn rendered(r: Result<String, Failure>, units: SpanUnits, f: SpanFormat) -> bool {
    r matches Ok(t) && t@ == span_friendly(units, f)
}

/// Renders a span with a layout.
fn render(s: &SpanValue, f: SpanFormat) -> (r: String)
    ensures
        r@ == span_friendly(s@, f),
{
    print_span(s, f)
}

/// The text a span result carries: its verbose friendly rendering (such as
/// `2 months, 10 days`).
pub fn result_span(s: &SpanValue) -> (r: String)
    ensures
        r@ == span_friendly(s@, verbose_format()),
{
    render(
        s,
        SpanFormat {
            spacing: SpanSpacing::BetweenUnitsAndDesignators,
            designator: SpanDesignator::Verbose,
            direction: SpanDirection::Auto,
            comma_after_designator: true,
        },
    )
}

/// The SQL function `jiff_span`: the span a text names, rendered verbosely.
pub fn jiff_span(text: &str) -> (r: Result<String, Failure>)
    ensures
        match span_from_value_spec(text@) {
            Ok(u) => rendered(r, u, verbose_format()),
            Err(f) => r matches Err(e) && e@ == f,
        },
{
    let s = span_from_value(text)?;
    Ok(result_span(&s))
}

/// One key/value pair of `jiff_span_format` applied to the layout so far.
/// Option values are read in any letter case.
pub open spec fn format_step(key: SqlArg, value: SqlArg, f: SpanFormat) -> Result<
    SpanFormat,
    FailureView,
> {
    match arg_text(key) {
        Err(e) => Err(e),
        Ok(k) => if k == "spacing"@ {
            match arg_text(value) {
                Err(e) => Err(e),
                Ok(v) => match spacing_from_lowercase_spec(lowercase(v)) {
                    Ok(x) => Ok(SpanFormat { spacing: x, ..f }),
                    Err(e) => Err(e),
                },
            }
        } else if k == "designator"@ {
            match arg_text(value) {
                Err(e) => Err(e),
                Ok(v) => match designator_from_lowercase_spec(lowercase(v)) {
                    Ok(x) => Ok(SpanFormat { designator: x, ..f }),
                    Err(e) => Err(e),
                },
            }
        } else if k == "direction"@ {
            match arg_text(value) {
                Err(e) => Err(e),
                Ok(v) => match direction_from_lowercase_spec(lowercase(v)) {
                    Ok(x) => Ok(SpanFormat { direction: x, ..f }),
                    Err(e) => Err(e),
                },
            }
        } else if k == "comma-after-designator"@ {
            Ok(SpanFormat { comma_after_designator: value.int == 1, ..f })
        } else {
            Err(msg("Unknown key for jiff_span_format: '"@ + k + "'"@))
        },
    }
}

/// The key/value pairs of `args` from position `k` on, applied in order to
/// the layout `f`; a key without a value stops the call.
pub open spec fn format_fold(args: Seq<SqlArg>, k: int, f: SpanFormat) -> Result<
    SpanFormat,
    FailureView,
>
    decreases args.len() - k,
{
    if k >= args.len() {
        Ok(f)
    } else if k + 1 >= args.len() {
        Err(FailureView::Halt)
    } else {
        match format_step(args[k], args[k + 1], f) {
            Ok(f2) => format_fold(args, k + 2, f2),
            Err(e) => Err(e),
        }
    }
}

/// Applies one key/value pair of `jiff_span_format` to the layout so far.
fn format_apply(key: &SqlArg, value: &SqlArg, f: SpanFormat) -> (r: Result<SpanFormat, Failure>)
    ensures
        agrees(r, format_step(*key, *value, f)),
{
    let k = read_text(key)?;
    if text_eq(k, "spacing") {
        let v = read_text(value)?;
        let lower = to_lowercase(v);
        let x = spacing_from_lowercase(lower.as_str())?;
        Ok(SpanFormat { spacing: x, ..f })
    } else if text_eq(k, "designator") {
        let v = read_text(value)?;
        let lower = to_lowercase(v);
        let x = designator_from_lowercase(lower.as_str())?;
        Ok(SpanFormat { designator: x, ..f })
    } else if text_eq(k, "direction") {
        let v = read_text(value)?;
        let lower = to_lowercase(v);
        let x = direction_from_lowercase(lower.as_str())?;
        Ok(SpanFormat { direction: x, ..f })
    } else if text_eq(k, "comma-after-designator") {
        Ok(SpanFormat { comma_after_designator: value.int == 1, ..f })
    } else {
        Err(Failure::Message(concat3("Unknown key for jiff_span_format: '", k, "'")))
    }
}

/// Reads the layout of `jiff_span_format` from its arguments after the span,
/// starting from `jiff`'s default layout.
pub fn span_format_options(args: &Vec<SqlArg>) -> (r: Result<SpanFormat, Failure>)
    requires
        args.len() >= 1,
    ensures
        agrees(r, format_fold(args@, 1, default_format())),
{
    let mut f = SpanFormat {
        spacing: SpanSpacing::BetweenUnits,
        designator: SpanDesignator::Compact,
        direction: SpanDirection::Auto,
        comma_after_designator: false,
    };
    let mut k: usize = 1;
    while k < args.len()
        invariant
            1 <= k <= args.len() + 1,
            format_fold(args@, k as int, f) == format_fold(args@, 1, default_format()),
        decreases args.len() - k,
    {
        if k + 1 >= args.len() {
            return Err(Failure::Halt);
        }
        f = format_apply(&args[k], &args[k + 1], f)?;
        k = k + 2;
    }
    Ok(f)
}

/// The SQL function `jiff_span_format`: the span of the first argument
/// rendered with the layout the key/value pairs after it give.
pub fn jiff_span_format(args: &Vec<SqlArg>) -> (r: Result<String, Failure>)
    requires
        args.len() >= 1,
    ensures
        match arg_text(args@[0]) {
            Err(f) => r matches Err(e) && e@ == f,
            Ok(t) => match span_from_value_spec(t) {
                Err(f) => r matches Err(e) && e@ == f,
                Ok(u) => match format_fold(args@, 1, default_format()) {
                    Err(f) => r matches Err(e) && e@ == f,
                    Ok(f) => rendered(r, u, f),
                },
            },
        },
{
    let text = read_text(&args[0])?;
    let s = span_from_value(text)?;
    let f = span_format_options(args)?;
    Ok(render(&s, f))
}

/// What a span is rounded relative to.
#[derive(Clone, Copy, Debug, PartialEq, Eq, Structural)]
pub enum Relative {
    DateTime(CivilDateTime),
    Date(CivilDate),
}

/// The options of a span rounding, each unset until given.
#[derive(Clone, Copy, Debug, PartialEq, Eq, Structural)]
pub struct SpanRoundOptions {
    pub largest: Option<TimeUnit>,
    pub smallest: Option<TimeUnit>,
    pub increment: Option<i64>,
    pub mode: Option<RoundingMode>,
    pub relative: Option<Relative>,
}

/// The datetime or date the options round relative to, if any, is valid.
pub open spec fn relative_wf(o: SpanRoundOptions) -> bool {
    match o.relative {
        Some(Relative::DateTime(dt)) => dt.wf(),
        Some(Relative::Date(d)) => d.wf(),
        None => true,
    }
}

/// Span rounding options with nothing set.
pub open spec fn no_span_round_options() -> SpanRoundOptions {
    SpanRoundOptions { largest: None, smallest: None, increment: None, mode: None, relative: None }
}

/// What the value of a `relative` option names: a datetime if it names one,
/// else a date, else the option is refused.
pub open spec fn relative_spec(value: SqlArg) -> Result<Relative, FailureView> {
    match arg_text(value) {
        Ok(t) => match datetime_from_value_spec(t) {
            Ok(dt) => Ok(Relative::DateTime(dt)),
            Err(_) => match date_from_value_spec(t) {
                Ok(d) => Ok(Relative::Date(d)),
                Err(_) => Err(msg("Invalid value for 'relative' option"@)),
            },
        },
        Err(_) => Err(msg("Invalid value for 'relative' option"@)),
    }
}

/// One key/value pair of `jiff_span_round` applied to the options so far.
pub open spec fn span_round_step(key: SqlArg, value: SqlArg, o: SpanRoundOptions) -> Result<
    SpanRoundOptions,
    FailureView,
> {
    match arg_text(key) {
        Err(e) => Err(e),
        Ok(k) => if k == "largest"@ || k == "smallest"@ {
            match arg_text(value) {
                Err(e) => Err(e),
                Ok(v) => match unit_from_value_spec(v) {
                    Ok(u) => if k == "largest"@ {
                        Ok(SpanRoundOptions { largest: Some(u), ..o })
                    } else {
                        Ok(SpanRoundOptions { smallest: Some(u), ..o })
                    },
                    Err(e) => Err(e),
                },
            }
        } else if k == "increment"@ {
            Ok(SpanRoundOptions { increment: Some(value.int64), ..o })
        } else if k == "mode"@ {
            match arg_text(value) {
                Err(e) => Err(e),
                Ok(v) => match roundmode_from_lowercase_spec(lowercase(v)) {
                    Ok(m) => Ok(SpanRoundOptions { mode: Some(m), ..o }),
                    Err(e) => Err(e),
                },
            }
        } else if k == "relative"@ {
            match relative_spec(value) {
                Ok(x) => Ok(SpanRoundOptions { relative: Some(x), ..o }),
                Err(e) => Err(e),
            }
        } else {
            Err(msg("Unknown key for jiff_span_round: '"@ + k + "'"@))
        },
    }
}

/// The key/value pairs of `args` from position `k` on, applied in order.
pub open spec fn span_round_fold(args: Seq<SqlArg>, k: int, o: SpanRoundOptions) -> Result<
    SpanRoundOptions,
    FailureView,
>
    decreases args.len() - k,
{
    if k >= args.len() {
        Ok(o)
    } else if k + 1 >= args.len() {
        Err(FailureView::Halt)
    } else {
        match span_round_step(args[k], args[k + 1], o) {
            Ok(o2) => span_round_fold(args, k + 2, o2),
            Err(e) => Err(e),
        }
    }
}

/// The rounding options `jiff_span_round` reads from its arguments after the
/// span: a unit name alone sets the smallest unit; an integer and a unit name
/// set the increment and the smallest unit; an even number of arguments is
/// refused; otherwise key/value pairs (`largest`, `smallest`, `increment`,
/// `mode`, `relative`), later pairs overriding earlier ones.
pub open spec fn span_round_plan(args: Seq<SqlArg>) -> Result<SpanRoundOptions, FailureView> {
    if args.len() == 2 {
        match arg_text(args[1]) {
            Err(e) => Err(e),
            Ok(v) => match unit_from_value_spec(v) {
                Ok(u) => Ok(SpanRoundOptions { smallest: Some(u), ..no_span_round_options() }),
                Err(e) => Err(e),
            },
        }
    } else if args.len() % 2 != 1 {
        Err(msg("jiff_span_round() requires an even number of arguments after the span"@))
    } else if args.len() == 3 && args[1].kind == SqlKind::Integer {
        match arg_text(args[2]) {
            Err(e) => Err(e),
            Ok(v) => match unit_from_value_spec(v) {
                Ok(u) => Ok(
                    SpanRoundOptions {
                        smallest: Some(u),
                        increment: Some(args[1].int64),
                        ..no_span_round_options()
                    },
                ),
                Err(e) => Err(e),
            },
        }
    } else {
        span_round_fold(args, 1, no_span_round_options())
    }
}

/// Reads the value of a `relative` option.
fn relative_from_value(value: &SqlArg) -> (r: Result<Relative, Failure>)
    ensures
        agrees(r, relative_spec(*value)),
        r matches Ok(Relative::DateTime(dt)) ==> dt.wf(),
        r matches Ok(Relative::Date(d)) ==> d.wf(),
{
    match read_text(value) {
        Ok(t) => match datetime_from_value(t) {
            Ok(dt) => Ok(Relative::DateTime(dt)),
            Err(_) => match date_from_value(t) {
                Ok(d) => Ok(Relative::Date(d)),
                Err(_) => Err(Failure::Message("Invalid value for 'relative' option".to_owned())),
            },
        },
        Err(_) => Err(Failure::Message("Invalid value for 'relative' option".to_owned())),
    }
}

/// Applies one key/value pair of `jiff_span_round` to the options so far.
fn span_round_apply(key: &SqlArg, value: &SqlArg, o: SpanRoundOptions) -> (r: Result<
    SpanRoundOptions,
    Failure,
>)
    requires
        relative_wf(o),
    ensures
        agrees(r, span_round_step(*key, *value, o)),
        r matches Ok(o2) ==> relative_wf(o2),
{
    let k = read_text(key)?;
    if text_eq(k, "largest") || text_eq(k, "smallest") {
        let v = read_text(value)?;
        let u = unit_from_value(v)?;
        if text_eq(k, "largest") {
            Ok(SpanRoundOptions { largest: Some(u), ..o })
        } else {
            Ok(SpanRoundOptions { smallest: Some(u), ..o })
        }
    } else if text_eq(k, "increment") {
        Ok(SpanRoundOptions { increment: Some(value.int64), ..o })
    } else if text_eq(k, "mode") {
        let v = read_text(value)?;
        let m = roundmode_from_value(v)?;
        Ok(SpanRoundOptions { mode: Some(m), ..o })
    } else if text_eq(k, "relative") {
        let x = relative_from_value(value)?;
        Ok(SpanRoundOptions { relative: Some(x), ..o })
    } else {
        Err(Failure::Message(concat3("Unknown key for jiff_span_round: '", k, "'")))
    }
}

/// Reads the rounding options of `jiff_span_round` from its arguments after
/// the span.
pub fn span_round_options(args: &Vec<SqlArg>) -> (r: Result<SpanRoundOptions, Failure>)
    requires
        args.len() >= 1,
    ensures
        agrees(r, span_round_plan(args@)),
        r matches Ok(o) ==> relative_wf(o),
{
    let none = SpanRoundOptions {
        largest: None,
        smallest: None,
        increment: None,
        mode: None,
        relative: None,
    };
    if args.len() == 2 {
        let v = read_text(&args[1])?;
        let u = unit_from_value(v)?;
        return Ok(SpanRoundOptions { smallest: Some(u), ..none });
    }
    if args.len() % 2 != 1 {
        return Err(
            Failure::Message(
                "jiff_span_round() requires an even number of arguments after the span".to_owned(),
            ),
        );
    }
    if args.len() == 3 && args[1].kind == SqlKind::Integer {
        let x = args[1].int64;
        let v = read_text(&args[2])?;
        let u = unit_from_value(v)?;
        return Ok(SpanRoundOptions { smallest: Some(u), increment: Some(x), ..none });
    }
    let mut o = none;
    let mut k: usize = 1;
    while k < args.len()
        invariant
            1 <= k <= args.len() + 1,
            args.len() != 2,
            args.len() % 2 == 1,
            !(args.len() == 3 && args@[1].kind == SqlKind::Integer),
            span_round_fold(args@, k as int, o) == span_round_plan(args@),
            relative_wf(o),
        decreases args.len() - k,
    {
        if k + 1 >= args.len() {
            return Err(Failure::Halt);
        }
        o = span_round_apply(&args[k], &args[k + 1], o)?;
        k = k + 2;
    }
    Ok(o)
}

/// What `jiff_span_round` settles before rounding: an empty argument list is
/// refused, then the span is read, then the options.
pub open spec fn jiff_span_round_plan(args: Seq<SqlArg>) -> Result<SpanRoundOptions, FailureView> {
    if args.len() == 0 {
        Err(msg("jiff_span_round requires at least one argument"@))
    } else {
        match arg_text(args[0]) {
            Err(e) => Err(e),
            Ok(t) => match span_from_value_spec(t) {
                Err(e) => Err(e),
                Ok(_) => span_round_plan(args),
            },
        }
    }
}

/// The SQL function `jiff_span_round`: the span of the first argument
/// rounded with the options the rest give, rendered verbosely. A failure of
/// the rounding itself, or of the printer, stops the call.
pub fn jiff_span_round(args: &Vec<SqlArg>) -> (r: Result<String, Failure>)
    ensures
        match jiff_span_round_plan(args@) {
            Err(f) => r matches Err(e) && e@ == f,
            Ok(o) => match span_rounded(span_from_value_spec(arg_text(args@[0])->Ok_0)->Ok_0, o) {
                Some(v) => rendered(r, v, verbose_format()),
                None => r matches Err(Failure::Halt),
            },
        },
{
    if args.len() == 0 {
        return Err(
            Failure::Message("jiff_span_round requires at least one argument".to_owned()),
        );
    }
    let text = read_text(&args[0])?;
    let s = span_from_value(text)?;
    let o = span_round_options(args)?;
    match span_round(&s, o) {
        Some(x) => Ok(result_span(&x)),
        None => Err(Failure::Halt),
    }
}

/// What `jiff_span_total` hands on to compute the total: the span, the unit
/// to total it in, and the date it is taken relative to, if any.
pub struct TotalPlan {
    pub span: SpanValue,
    pub unit: TimeUnit,
    pub relative: Option<CivilDate>,
}

/// What `jiff_span_total` reads from its arguments: the span (first), the
/// unit (second) and, with exactly three arguments, a relative date (third).
/// Fewer than two arguments stop the call.
pub open spec fn span_total_spec(args: Seq<SqlArg>) -> Result<
    (SpanUnits, TimeUnit, Option<CivilDate>),
    FailureView,
> {
    if args.len() == 0 {
        Err(FailureView::Halt)
    } else {
        match arg_text(args[0]) {
            Err(e) => Err(e),
            Ok(t) => match span_from_value_spec(t) {
                Err(e) => Err(e),
                Ok(s) => if args.len() == 1 {
                    Err(FailureView::Halt)
                } else {
                    match arg_text(args[1]) {
                        Err(e) => Err(e),
                        Ok(v) => match unit_from_value_spec(v) {
                            Err(e) => Err(e),
                            Ok(u) => if args.len() == 3 {
                                match arg_text(args[2]) {
                                    Err(e) => Err(e),
                                    Ok(w) => match date_from_value_spec(w) {
                                        Err(e) => Err(e),
                                        Ok(d) => Ok((s, u, Some(d))),
                                    },
                                }
                            } else {
                                Ok((s, u, None))
                            },
                        },
                    }
                },
            },
        }
    }
}

/// The SQL function `jiff_span_total`, up to the computation of the total
/// itself: reads the span, the unit and the optional relative date.
pub fn jiff_span_total(args: &Vec<SqlArg>) -> (r: Result<TotalPlan, Failure>)
    ensures
        match (r, span_total_spec(args@)) {
            (Ok(p), Ok((s, u, d))) => p.span@ == s && p.unit == u && p.relative == d,
            (Err(e), Err(f)) => e@ == f,
            _ => false,
        },
        r matches Ok(p) ==> (p.relative matches Some(d) ==> d.wf()),
{
    if args.len() == 0 {
        return Err(Failure::Halt);
    }
    let text = read_text(&args[0])?;
    let span = span_from_value(text)?;
    if args.len() == 1 {
        return Err(Failure::Halt);
    }
    let v = read_text(&args[1])?;
    let unit = unit_from_value(v)?;
    if args.len() == 3 {
        let w = read_text(&args[2])?;
        let d = date_from_value(w)?;
        Ok(TotalPlan { span, unit, relative: Some(d) })
    } else {
        Ok(TotalPlan { span, unit, relative: None })
    }
}

/// The text of a civil value plus a span: the value is read as a datetime,
/// else a date, else a time of day; `None` when it is none of these.
pub open spec fn civil_add_spec(text: Seq<char>, u: SpanUnits) -> Option<Seq<char>> {
    match datetime_from_value_spec(text) {
        Ok(dt) => Some(datetime_display(datetime_plus(dt, u))),
        Err(_) => match date_from_value_spec(text) {
            Ok(d) => Some(date_display(date_plus(d, u))),
            Err(_) => match jiff_time_from_value_spec(text) {
                Ok(t) => Some(time_display(time_plus(t, u))),
                Err(_) => None,
            },
        },
    }
}

/// Adds a span to the datetime, date or time of day a text names, and
/// renders the sum.
pub fn add_span_to_civil(text: &str, s: &SpanValue) -> (r: Option<String>)
    ensures
        match (r, civil_add_spec(text@, s@)) {
            (Some(t), Some(x)) => t@ == x,
            (None, None) => true,
            _ => false,
        },
{
    if let Ok(dt) = datetime_from_value(text) {
        return Some(datetime_text(datetime_saturating_add(dt, s)));
    }
    if let Ok(d) = date_from_value(text) {
        return Some(date_text(date_saturating_add(d, s)));
    }
    if let Ok(t) = jiff_time_from_value(text) {
        return Some(time_text(time_saturating_add(t, s)));
    }
    None
}

/// A text is the rendering of the zoned datetime `z` plus a span with units
/// `u`: the zone is kept; a span without calendar units moves the instant by
/// its length, held to the supported range; a span with calendar units is
/// added to the civil datetime once, as `calendar_sum_reached` says.
pub open spec fn zoned_sum_text(t: Seq<char>, z: ZonedView, u: SpanUnits) -> bool {
    exists|w: ZonedView|
        {
            &&& w.wf()
            &&& w.zone_name == z.zone_name
            &&& w.unknown == z.unknown
            &&& !u.has_calendar_units() ==> w.instant.total_nanos() == clamp_instant_nanos(
                z.instant.total_nanos() + u.time_nanos(),
            )
            &&& u.has_calendar_units() ==> calendar_sum_reached(z, u, w)
            &&& t == zoned_display(w)
        }
}

/// The outcome of `jiff_add` once it is known whether the first text reads
/// as a zoned datetime: that zoned datetime plus the span, rendered; else
/// the civil value the text names plus the span, or nothing.
pub fn add_to_reading(zoned: Option<ZonedValue>, text: &str, s: &SpanValue) -> (r: Option<String>)
    ensures
        match zoned {
            Some(z) => r matches Some(t) && zoned_sum_text(t@, z@, s@),
            None => match (r, civil_add_spec(text@, s@)) {
                (Some(t), Some(x)) => t@ == x,
                (None, None) => true,
                _ => false,
            },
        },
{
    match zoned {
        Some(z) => {
            let w = zoned_saturating_add(&z, s);
            let t = result_zoned(&w);
            assert(t@ == zoned_display(w@));
            Some(t)
        },
        None => add_span_to_civil(text, s),
    }
}

/// The SQL function `jiff_add`: the first argument (a zoned datetime, else a
/// datetime, a date or a time of day) plus the span the second names, as
/// text; nothing (SQL `NULL`) when the first is none of these. Which zoned
/// datetimes parse depends on the host's time zone database.
pub fn jiff_add(args: &Vec<SqlArg>) -> (r: Result<Option<String>, Failure>)
    requires
        args.len() == 2,
    ensures
        match arg_text(args@[1]) {
            Err(f) => r matches Err(e) && e@ == f,
            Ok(t) => match span_from_value_spec(t) {
                Err(f) => r matches Err(e) && e@ == f,
                Ok(u) => match arg_text(args@[0]) {
                    Err(_) => r matches Ok(None),
                    Ok(v) => {
                        &&& r is Ok
                        &&& (!v.contains('[') ==> match civil_add_spec(v, u) {
                            Some(x) => r matches Ok(Some(t)) && t@ == x,
                            None => r matches Ok(None),
                        })
                        &&& (r matches Ok(None) ==> civil_add_spec(v, u) is None)
                        &&& (civil_add_spec(v, u) is Some ==> r matches Ok(Some(_)))
                        &&& (r matches Ok(Some(t)) ==> (civil_add_spec(v, u) == Some(t@) || (
                        v.contains('[') && exists|z: ZonedView| z.wf() && zoned_sum_text(t@, z, u))))
                    },
                },
            },
        },
{
    let text = read_text(&args[1])?;
    let s = span_from_value(text)?;
    let v = match read_text(&args[0]) {
        Ok(v) => v,
        Err(_) => return Ok(None),
    };
    let zoned = match jiff_zoned_from_value(v) {
        Ok(z) => Some(z),
        Err(_) => None,
    };
    let ghost g = zoned;
    let r = add_to_reading(zoned, v, &s);
    proof {
        if let Some(z) = g {
            assert(z@.wf());
        }
    }
    Ok(r)
}

/// Which way a span between two values is measured.
#[derive(Clone, Copy, Debug, PartialEq, Eq, Structural)]
pub enum Measure {
    /// From the first value until the second.
    Until,
    /// From the second value since the first.
    Since,
}

/// The kinds of civil value a span can be measured between.
#[derive(Clone, Copy, Debug, PartialEq, Eq, Structural)]
pub enum CivilKind {
    Timestamp,
    DateTime,
    Date,
    Time,
}

/// A text that may be absent (an argument that is not UTF-8) read with a
/// reader that may fail.
pub open spec fn reads<T>(t: Option<Seq<char>>, f: spec_fn(Seq<char>) -> Result<T, FailureView>) -> bool {
    match t {
        Some(x) => f(x) is Ok,
        None => false,
    }
}

/// The kind of values two texts are compared as: the first kind both read
/// as, trying instants, then datetimes, dates and times of day (`midnight`
/// included). `None` when, at some kind, exactly one of them reads as it, or
/// when neither reads as any kind.
pub open spec fn civil_kind(a: Option<Seq<char>>, b: Option<Seq<char>>) -> Option<CivilKind> {
    let ts = |x: Seq<char>| timestamp_from_value_spec(x);
    let dt = |x: Seq<char>| datetime_from_value_spec(x);
    let d = |x: Seq<char>| date_from_value_spec(x);
    let t = |x: Seq<char>| time_from_value_spec(x);
    if reads(a, ts) && reads(b, ts) {
        Some(CivilKind::Timestamp)
    } else if reads(a, ts) || reads(b, ts) {
        None
    } else if reads(a, dt) && reads(b, dt) {
        Some(CivilKind::DateTime)
    } else if reads(a, dt) || reads(b, dt) {
        None
    } else if reads(a, d) && reads(b, d) {
        Some(CivilKind::Date)
    } else if reads(a, d) || reads(b, d) {
        None
    } else if reads(a, t) && reads(b, t) {
        Some(CivilKind::Time)
    } else {
        None
    }
}

/// The span between two texts read as the kind `civil_kind` picks, measured
/// as `m` asks (the named results of `jiff`); `None` when there is no kind
/// or `jiff` yields no span.
pub open spec fn civil_between_spec(a: Seq<char>, b: Seq<char>, m: Measure) -> Option<SpanUnits> {
    match civil_kind(Some(a), Some(b)) {
        Some(CivilKind::Timestamp) => {
            let (x, y) = (timestamp_from_value_spec(a)->Ok_0, timestamp_from_value_spec(b)->Ok_0);
            if m == Measure::Until {
                timestamp_until(x, y)
            } else {
                negate_opt(timestamp_until(x, y))
            }
        },
        Some(CivilKind::DateTime) => {
            let (x, y) = (datetime_from_value_spec(a)->Ok_0, datetime_from_value_spec(b)->Ok_0);
            if m == Measure::Until {
                datetime_until(x, y)
            } else {
                negate_opt(datetime_until(x, y))
            }
        },
        Some(CivilKind::Date) => {
            let (x, y) = (date_from_value_spec(a)->Ok_0, date_from_value_spec(b)->Ok_0);
            if m == Measure::Until {
                date_until(x, y)
            } else {
                negate_opt(date_until(x, y))
            }
        },
        Some(CivilKind::Time) => {
            let (x, y) = (time_from_value_spec(a)->Ok_0, time_from_value_spec(b)->Ok_0);
            if m == Measure::Until {
                time_until(x, y)
            } else {
                negate_opt(time_until(x, y))
            }
        },
        None => None,
    }
}

/// The text of an optional argument.
pub open spec fn opt_text(a: SqlArg) -> Option<Seq<char>> {
    match a.text {
        Some(t) => Some(t@),
        None => None,
    }
}

/// What `jiff_until` and `jiff_since` owe whatever the time zone database
/// holds: an argument that is not text stops the call, and two texts with no
/// bracketed time zone annotation (which no zoned datetime lacks) are read as
/// civil values, giving the rendering of the span `civil_between_spec`
/// measures between them, or stopping where there is none.
pub open spec fn civil_span_owed(args: Seq<SqlArg>, m: Measure, r: Result<String, Failure>) -> bool {
    match (opt_text(args[0]), opt_text(args[1])) {
        (Some(x), Some(y)) => (!x.contains('[') && !y.contains('[')) ==> match civil_between_spec(
            x,
            y,
            m,
        ) {
            Some(u) => rendered(r, u, verbose_format()),
            None => r matches Err(Failure::Halt),
        },
        _ => r matches Err(Failure::Halt),
    }
}

/// Measures the span between two civil values given as texts (an absent
/// text is one that is not UTF-8), as `civil_kind` picks their kind.
pub fn civil_between(a: Option<&str>, b: Option<&str>, m: Measure) -> (r: Option<SpanValue>)
    ensures
        match (a, b) {
            (Some(x), Some(y)) => {
                &&& units_of_opt(r) == civil_between_spec(x@, y@, m)
                &&& m == Measure::Since ==> units_of_opt(r) == civil_between_spec(
                    y@,
                    x@,
                    Measure::Until,
                )
            },
            _ => r is None,
        },
{
    proof {
        lemma_civil_kind_symmetric(opt_view(a), opt_view(b));
    }
    let (x, y) = match (a, b) {
        (Some(x), Some(y)) => (x, y),
        _ => return None,
    };
    let ta = timestamp_from_value(x);
    let tb = timestamp_from_value(y);
    match (ta, tb) {
        (Ok(p), Ok(q)) => {
            return match m {
                Measure::Until => instant_until(p, q),
                Measure::Since => instant_since(p, q),
            };
        },
        (Err(_), Err(_)) => {},
        _ => return None,
    }
    let da = datetime_from_value(x);
    let db = datetime_from_value(y);
    match (da, db) {
        (Ok(p), Ok(q)) => {
            return match m {
                Measure::Until => civil_datetime_until(p, q),
                Measure::Since => civil_datetime_since(p, q),
            };
        },
        (Err(_), Err(_)) => {},
        _ => return None,
    }
    let ea = date_from_value(x);
    let eb = date_from_value(y);
    match (ea, eb) {
        (Ok(p), Ok(q)) => {
            return match m {
                Measure::Until => civil_date_until(p, q),
                Measure::Since => civil_date_since(p, q),
            };
        },
        (Err(_), Err(_)) => {},
        _ => return None,
    }
    let fa = time_from_value(x);
    let fb = time_from_value(y);
    match (fa, fb) {
        (Ok(p), Ok(q)) => match m {
            Measure::Until => civil_time_until(p, q),
            Measure::Since => civil_time_since(p, q),
        },
        _ => None,
    }
}

/// The text of an optional string.
pub open spec fn opt_view(a: Option<&str>) -> Option<Seq<char>> {
    match a {
        Some(x) => Some(x@),
        None => None,
    }
}

/// The units of an optional span.
pub open spec fn units_of_opt(r: Option<SpanValue>) -> Option<SpanUnits> {
    match r {
        Some(s) => Some(s@),
        None => None,
    }
}

/// How the two values of `jiff_until` and `jiff_since` read as zoned
/// datetimes: both (the two zoned datetimes), exactly one, or neither.
pub enum ZonedPair {
    Both(ZonedValue, ZonedValue),
    One,
    Neither,
}

/// The span between two zoned datetimes, measured as `m` asks: `jiff`
/// measures their instants with hours as the largest unit, from the first
/// until the second, or (since) from the second to the first.
pub open spec fn zoned_between_spec(p: ZonedView, q: ZonedView, m: Measure) -> SpanUnits {
    if m == Measure::Until {
        hours_span(q.instant.total_nanos() - p.instant.total_nanos())
    } else {
        hours_span(p.instant.total_nanos() - q.instant.total_nanos())
    }
}

/// The outcome of `jiff_until` and `jiff_since` once it is known how the two
/// texts (`None` for one that is not UTF-8) read as zoned datetimes: when
/// both do, the span between their instants; when neither does, the span
/// `civil_between` measures; the call stops wherever no span results. The
/// span is rendered verbosely. Measured since, the outcome is the one
/// measured until with the two values swapped.
pub fn span_of_readings(pair: ZonedPair, a: Option<&str>, b: Option<&str>, m: Measure) -> (r: Result<
    String,
    Failure,
>)
    ensures
        match pair {
            ZonedPair::Both(p, q) => {
                &&& rendered(r, zoned_between_spec(p@, q@, m), verbose_format())
                &&& m == Measure::Since ==> rendered(
                    r,
                    zoned_between_spec(q@, p@, Measure::Until),
                    verbose_format(),
                )
            },
            ZonedPair::One => r matches Err(Failure::Halt),
            ZonedPair::Neither => match (a, b) {
                (Some(x), Some(y)) => {
                    &&& match civil_between_spec(x@, y@, m) {
                        Some(u) => rendered(r, u, verbose_format()),
                        None => r matches Err(Failure::Halt),
                    }
                    &&& m == Measure::Since ==> match civil_between_spec(y@, x@, Measure::Until) {
                        Some(u) => rendered(r, u, verbose_format()),
                        None => r matches Err(Failure::Halt),
                    }
                },
                _ => r matches Err(Failure::Halt),
            },
        },
{
    let found = match pair {
        ZonedPair::Both(p, q) => match m {
            Measure::Until => zoned_until(&p, &q),
            Measure::Since => zoned_since(&p, &q),
        },
        ZonedPair::One => None,
        ZonedPair::Neither => civil_between(a, b, m),
    };
    match found {
        Some(s) => Ok(result_span(&s)),
        None => Err(Failure::Halt),
    }
}

/// A text is the verbose rendering of the span between two well-formed
/// zoned datetimes, measured as `m` asks.
pub open spec fn zoned_span_text(t: Seq<char>, m: Measure) -> bool {
    exists|p: ZonedView, q: ZonedView|
        p.wf() && q.wf() && t == span_friendly(zoned_between_spec(p, q, m), verbose_format())
}

/// What a result of `jiff_until` or `jiff_since` can be, whatever the time
/// zone database holds: the rendering of the span between the civil values
/// of the two texts, or, when both texts carry a time zone annotation, of
/// the span between two zoned datetimes.
pub open spec fn between_text(args: Seq<SqlArg>, m: Measure, t: Seq<char>) -> bool {
    match (opt_text(args[0]), opt_text(args[1])) {
        (Some(x), Some(y)) => (civil_between_spec(x, y, m) matches Some(u) && t == span_friendly(
            u,
            verbose_format(),
        )) || (x.contains('[') && y.contains('[') && zoned_span_text(t, m)),
        _ => false,
    }
}

/// The SQL functions `jiff_until` and `jiff_since`: the span between the two
/// arguments, measured as `m` asks, as [`span_of_readings`] settles it once
/// the texts are read as zoned datetimes (which of them parse depends on the
/// host's time zone database). Whatever the database holds, a result is the
/// span between two civil values of the texts, or between two zoned
/// datetimes when both texts carry a time zone annotation.
pub fn span_between(args: &Vec<SqlArg>, m: Measure) -> (r: Result<String, Failure>)
    requires
        args.len() == 2,
    ensures
        r matches Err(e) ==> e is Halt,
        r matches Ok(t) ==> between_text(args@, m, t@),
        civil_span_owed(args@, m, r),
        m == Measure::Since ==> civil_span_owed(seq![args@[1], args@[0]], Measure::Until, r),
{
    let a = match &args[0].text {
        Some(t) => Some(t.as_str()),
        None => None,
    };
    let b = match &args[1].text {
        Some(t) => Some(t.as_str()),
        None => None,
    };
    let za = match a {
        Some(x) => jiff_zoned_from_value(x),
        None => Err(Failure::Halt),
    };
    let zb = match b {
        Some(x) => jiff_zoned_from_value(x),
        None => Err(Failure::Halt),
    };
    let pair = match (za, zb) {
        (Ok(p), Ok(q)) => ZonedPair::Both(p, q),
        (Err(_), Err(_)) => ZonedPair::Neither,
        _ => ZonedPair::One,
    };
    let ghost g = pair;
    let r = span_of_readings(pair, a, b, m);
    proof {
        match g {
            ZonedPair::Both(p, q) => {
                assert(p@.wf() && q@.wf());
                assert(r matches Ok(t) ==> zoned_span_text(t@, m));
            },
            _ => {},
        }
    }
    r
}

/// The SQL function `jiff_until`: the span from the first value until the
/// second.
pub fn jiff_until(args: &Vec<SqlArg>) -> (r: Result<String, Failure>)
    requires
        args.len() == 2,
    ensures
        r matches Err(e) ==> e is Halt,
        r matches Ok(t) ==> between_text(args@, Measure::Until, t@),
        civil_span_owed(args@, Measure::Until, r),
{
    span_between(args, Measure::Until)
}

/// The SQL function `jiff_since`: the span from the second value since the
/// first, the inverse of `jiff_until`. On civil values it owes exactly what
/// `jiff_until` owes with its two arguments swapped.
pub fn jiff_since(args: &Vec<SqlArg>) -> (r: Result<String, Failure>)
    requires
        args.len() == 2,
    ensures
        r matches Err(e) ==> e is Halt,
        r matches Ok(t) ==> between_text(args@, Measure::Since, t@),
        civil_span_owed(args@, Measure::Since, r),
        civil_span_owed(seq![args@[1], args@[0]], Measure::Until, r),
{
    span_between(args, Measure::Since)
}

/// `jiff_since` is the inverse of `jiff_until`: between the same two civil
/// values, the span measured since is the span measured until with every
/// unit negated, and one exists exactly when the other does.
pub proof fn lemma_since_negates_until(a: Seq<char>, b: Seq<char>)
    ensures
        civil_between_spec(a, b, Measure::Since) == negate_opt(
            civil_between_spec(a, b, Measure::Until),
        ),
{
}

/// Swapping the two values does not change the kind they are compared as:
/// both orders read both texts as the same kind, or both stop.
pub proof fn lemma_civil_kind_symmetric(a: Option<Seq<char>>, b: Option<Seq<char>>)
    ensures
        civil_kind(a, b) == civil_kind(b, a),
{
}

/// Two texts that both read as instants are measured as instants
/// (`Timestamp::until`), from the first until the second.
pub proof fn lemma_instants_measured_as_instants(a: Seq<char>, b: Seq<char>)
    requires
        timestamp_from_value_spec(a) is Ok,
        timestamp_from_value_spec(b) is Ok,
    ensures
        civil_between_spec(a, b, Measure::Until) == timestamp_until(
            timestamp_from_value_spec(a)->Ok_0,
            timestamp_from_value_spec(b)->Ok_0,
        ),
{
}

/// Two texts that both read as civil datetimes, neither as an instant, are
/// measured as datetimes (`DateTime::until`), from the first until the
/// second: their times of day count, though a date reader would also accept
/// such texts and drop the time.
pub proof fn lemma_datetimes_measured_as_datetimes(a: Seq<char>, b: Seq<char>)
    requires
        timestamp_from_value_spec(a) is Err,
        timestamp_from_value_spec(b) is Err,
        datetime_from_value_spec(a) is Ok,
        datetime_from_value_spec(b) is Ok,
    ensures
        civil_between_spec(a, b, Measure::Until) == datetime_until(
            datetime_from_value_spec(a)->Ok_0,
            datetime_from_value_spec(b)->Ok_0,
        ),
{
}

/// Two texts that both read as dates, and neither as an instant or a
/// datetime, are measured as dates (`Date::until`).
pub proof fn lemma_dates_measured_as_dates(a: Seq<char>, b: Seq<char>)
    requires
        timestamp_from_value_spec(a) is Err,
        timestamp_from_value_spec(b) is Err,
        datetime_from_value_spec(a) is Err,
        datetime_from_value_spec(b) is Err,
        date_from_value_spec(a) is Ok,
        date_from_value_spec(b) is Ok,
    ensures
        civil_between_spec(a, b, Measure::Until) == date_until(
            date_from_value_spec(a)->Ok_0,
            date_from_value_spec(b)->Ok_0,
        ),
{
}

/// Two texts that both read as times of day, and neither as an instant, a
/// datetime or a date, are measured as times (`Time::until`).
pub proof fn lemma_times_measured_as_times(a: Seq<char>, b: Seq<char>)
    requires
        timestamp_from_value_spec(a) is Err,
        timestamp_from_value_spec(b) is Err,
        datetime_from_value_spec(a) is Err,
        datetime_from_value_spec(b) is Err,
        date_from_value_spec(a) is Err,
        date_from_value_spec(b) is Err,
        time_from_value_spec(a) is Ok,
        time_from_value_spec(b) is Ok,
    ensures
        civil_between_spec(a, b, Measure::Until) == time_until(
            time_from_value_spec(a)->Ok_0,
            time_from_value_spec(b)->Ok_0,
        ),
{
}

} // verus!
