//! Calls into `jiff` for spans of time: parsing, friendly rendering,
//! rounding, adding a span to a value, the span between two values, and
//! series that step by a span. Each item here is trusted.

use vstd::prelude::*;

use jiff::civil::{Date, DateSeries, DateTime, DateTimeSeries, Time, TimeRound};
use jiff::fmt::friendly as fr;
use jiff::{RoundMode, Span, SpanRound, Timestamp, Unit, Zoned};

use crate::jiff_civil::with_text_error;
use crate::jiff_zone::{zoned_value, ZonedValue, ZonedView};
use crate::span::{relative_wf, Relative, SpanRoundOptions};
use crate::time::TimeRoundOptions;
use crate::model::{
    clamp_instant_nanos, div_toward_zero, instant_nanos_max, instant_nanos_min, CivilDate, CivilDateTime, CivilTime, Instant,
    RoundingMode, SpanDesignator, SpanDirection, SpanSpacing, SpanUnits, TimeUnit,
};

verus! {

#[verifier::external_type_specification]
#[verifier::external_body]
pub struct ExSpan(jiff::Span);

#[verifier::external_type_specification]
#[verifier::external_body]
pub struct ExSpanRound<'a>(jiff::SpanRound<'a>);

#[verifier::external_type_specification]
#[verifier::external_body]
pub struct ExTimeRound(jiff::civil::TimeRound);

#[verifier::external_type_specification]
#[verifier::external_body]
pub struct ExZoned(jiff::Zoned);

#[verifier::external_type_specification]
#[verifier::external_body]
pub struct ExDateTimeSeries(jiff::civil::DateTimeSeries);

#[verifier::external_type_specification]
#[verifier::external_body]
pub struct ExDateSeries(jiff::civil::DateSeries);

#[verifier::external_type_specification]
#[verifier::external_body]
pub struct ExUnit(jiff::Unit);

#[verifier::external_type_specification]
#[verifier::external_body]
pub struct ExRoundMode(jiff::RoundMode);

#[verifier::external_type_specification]
#[verifier::external_body]
pub struct ExCivilDateTime(jiff::civil::DateTime);

#[verifier::external_type_specification]
#[verifier::external_body]
pub struct ExCivilTime(jiff::civil::Time);

#[verifier::external_type_specification]
#[verifier::external_body]
pub struct ExFriendlySpacing(jiff::fmt::friendly::Spacing);

#[verifier::external_type_specification]
#[verifier::external_body]
pub struct ExFriendlyDesignator(jiff::fmt::friendly::Designator);

#[verifier::external_type_specification]
#[verifier::external_body]
pub struct ExFriendlyDirection(jiff::fmt::friendly::Direction);

/// A span of time: the `jiff` value together with the values of its ten
/// units, read from it when it was made.
pub struct SpanValue {
    units: SpanUnits,
    inner: Span,
}

impl View for SpanValue {
    type V = SpanUnits;

    closed spec fn view(&self) -> SpanUnits {
        self.units
    }
}

impl SpanValue {
    /// The values of the span's units.
    pub fn units(&self) -> (r: SpanUnits)
        ensures
            r == self@,
    {
        self.units
    }

    /// The `jiff` span, for callers that hand it on to `jiff` themselves.
    pub fn into_jiff(self) -> Span {
        self.inner
    }

    /// Whether every unit of the span is zero (what `Span::is_zero` reports).
    pub fn is_zero(&self) -> (r: bool)
        ensures
            r == self@.all_zero(),
    {
        self.units.is_zero()
    }
}

/// How a friendly span rendering is laid out.
#[derive(Clone, Copy, Debug, PartialEq, Eq, Structural)]
pub struct SpanFormat {
    pub spacing: SpanSpacing,
    pub designator: SpanDesignator,
    pub direction: SpanDirection,
    pub comma_after_designator: bool,
}

/// What `Span::from_str` (ISO 8601 or friendly format) makes of `text`: the
/// values of the span's units, or the error message.
pub uninterp spec fn span_parse(text: Seq<char>) -> Result<SpanUnits, Seq<char>>;

/// The friendly rendering of a span with the given layout.
pub uninterp spec fn span_friendly(units: SpanUnits, format: SpanFormat) -> Seq<char>;

/// A datetime plus a span, saturating at the supported bounds.
pub uninterp spec fn datetime_plus(dt: CivilDateTime, s: SpanUnits) -> CivilDateTime;

/// A date plus a span, saturating at the supported bounds.
pub uninterp spec fn date_plus(d: CivilDate, s: SpanUnits) -> CivilDate;

/// A time of day plus a span, saturating at the start and end of the day.
pub uninterp spec fn time_plus(t: CivilTime, s: SpanUnits) -> CivilTime;

/// The span from the first instant until the second, if `jiff` yields one.
pub uninterp spec fn timestamp_until(a: Instant, b: Instant) -> Option<SpanUnits>;

/// The span from the first datetime until the second, if `jiff` yields one.
pub uninterp spec fn datetime_until(a: CivilDateTime, b: CivilDateTime) -> Option<SpanUnits>;

/// The span from the first date until the second, if `jiff` yields one.
pub uninterp spec fn date_until(a: CivilDate, b: CivilDate) -> Option<SpanUnits>;

/// The span from the first time of day until the second, if `jiff` yields one.
pub uninterp spec fn time_until(a: CivilTime, b: CivilTime) -> Option<SpanUnits>;

/// The span `jiff` makes of a signed number of nanoseconds with hours as
/// its largest unit (`Span::from_invariant_duration`): whole hours, then the
/// minutes, seconds, milliseconds, microseconds and nanoseconds of what
/// remains, each taken by division that rounds toward zero, so that every
/// unit carries the sign of the whole.
pub open spec fn hours_span(n: int) -> SpanUnits {
    let h = div_toward_zero(n, 3_600_000_000_000);
    let r1 = n - h * 3_600_000_000_000;
    let mi = div_toward_zero(r1, 60_000_000_000);
    let r2 = r1 - mi * 60_000_000_000;
    let s = div_toward_zero(r2, 1_000_000_000);
    let r3 = r2 - s * 1_000_000_000;
    let ms = div_toward_zero(r3, 1_000_000);
    let r4 = r3 - ms * 1_000_000;
    let us = div_toward_zero(r4, 1_000);
    SpanUnits {
        years: 0,
        months: 0,
        weeks: 0,
        days: 0,
        hours: h as i32,
        minutes: mi as i64,
        seconds: s as i64,
        milliseconds: ms as i64,
        microseconds: us as i64,
        nanoseconds: (r4 - us * 1_000) as i64,
    }
}

/// An optional span with its units negated.
pub open spec fn negate_opt(s: Option<SpanUnits>) -> Option<SpanUnits> {
    match s {
        Some(u) => Some(u.negated()),
        None => None,
    }
}

/// The units of an optional span.
pub open spec fn units_of(r: Option<SpanValue>) -> Option<SpanUnits> {
    match r {
        Some(s) => Some(s@),
        None => None,
    }
}

/// The units of a parsed span, or the message of its error.
pub open spec fn span_outcome(r: Result<SpanValue, String>) -> Result<SpanUnits, Seq<char>> {
    match r {
        Ok(v) => Ok(v@),
        Err(e) => Err(e@),
    }
}

/// Parses a span with `Span::from_str`; the units read from it (or the
/// error message) are the named `span_parse`.
#[verifier::external_body]
pub(crate) fn parse_span(text: &str) -> (r: Result<SpanValue, String>)
    ensures
        span_outcome(r) == span_parse(text@),
{
    match text.parse::<Span>() {
        Ok(s) => Ok(SpanValue { units: units_of_span(&s), inner: s }),
        Err(e) => Err(e.to_string()),
    }
}

/// Reads the ten unit values of a span with its `get_*` accessors.
#[verifier::external_body]
fn units_of_span(s: &Span) -> SpanUnits {
    SpanUnits {
        years: s.get_years(),
        months: s.get_months(),
        weeks: s.get_weeks(),
        days: s.get_days(),
        hours: s.get_hours(),
        minutes: s.get_minutes(),
        seconds: s.get_seconds(),
        milliseconds: s.get_milliseconds(),
        microseconds: s.get_microseconds(),
        nanoseconds: s.get_nanoseconds(),
    }
}

/// Renders a span with a `SpanPrinter` laid out as `format` asks; the text
/// is the named `span_friendly`. `print_span` fails only when the writer
/// does, and writing into a `String` never fails (as `jiff` documents).
#[verifier::external_body]
pub(crate) fn print_span(s: &SpanValue, format: SpanFormat) -> (r: String)
    ensures
        r@ == span_friendly(s@, format),
{
    let p = fr::SpanPrinter::new()
        .spacing(jiff_spacing(format.spacing))
        .designator(jiff_designator(format.designator))
        .direction(jiff_direction(format.direction))
        .comma_after_designator(format.comma_after_designator);
    let mut buf = String::new();
    let _ = p.print_span(&s.inner, &mut buf);
    buf
}

/// The `jiff` spacing for a spacing.
#[verifier::external_body]
fn jiff_spacing(x: SpanSpacing) -> fr::Spacing {
    match x {
        SpanSpacing::NoSpace => fr::Spacing::None,
        SpanSpacing::BetweenUnits => fr::Spacing::BetweenUnits,
        SpanSpacing::BetweenUnitsAndDesignators => fr::Spacing::BetweenUnitsAndDesignators,
    }
}

/// The `jiff` designator for a designator.
#[verifier::external_body]
fn jiff_designator(x: SpanDesignator) -> fr::Designator {
    match x {
        SpanDesignator::Verbose => fr::Designator::Verbose,
        SpanDesignator::Short => fr::Designator::Short,
        SpanDesignator::Compact => fr::Designator::Compact,
    }
}

/// The `jiff` direction for a direction.
#[verifier::external_body]
fn jiff_direction(x: SpanDirection) -> fr::Direction {
    match x {
        SpanDirection::Auto => fr::Direction::Auto,
        SpanDirection::Sign => fr::Direction::Sign,
        SpanDirection::ForceSign => fr::Direction::ForceSign,
        SpanDirection::Suffix => fr::Direction::Suffix,
    }
}

/// The `jiff` unit for a unit.
#[verifier::external_body]
fn jiff_unit(u: TimeUnit) -> Unit {
    match u {
        TimeUnit::Year => Unit::Year,
        TimeUnit::Month => Unit::Month,
        TimeUnit::Week => Unit::Week,
        TimeUnit::Day => Unit::Day,
        TimeUnit::Hour => Unit::Hour,
        TimeUnit::Minute => Unit::Minute,
        TimeUnit::Second => Unit::Second,
        TimeUnit::Millisecond => Unit::Millisecond,
        TimeUnit::Microsecond => Unit::Microsecond,
        TimeUnit::Nanosecond => Unit::Nanosecond,
    }
}

/// The `jiff` rounding mode for a rounding mode.
#[verifier::external_body]
fn jiff_mode(m: RoundingMode) -> RoundMode {
    match m {
        RoundingMode::Ceil => RoundMode::Ceil,
        RoundingMode::Floor => RoundMode::Floor,
        RoundingMode::Expand => RoundMode::Expand,
        RoundingMode::Trunc => RoundMode::Trunc,
        RoundingMode::HalfCeil => RoundMode::HalfCeil,
        RoundingMode::HalfFloor => RoundMode::HalfFloor,
        RoundingMode::HalfExpand => RoundMode::HalfExpand,
        RoundingMode::HalfTrunc => RoundMode::HalfTrunc,
        RoundingMode::HalfEven => RoundMode::HalfEven,
    }
}

/// What `Span::round` gives for a span with these units, rounded with the
/// options given in `o` (the others keep `jiff`'s defaults): the units of the
/// rounded span, or `None` for `jiff`'s error.
pub uninterp spec fn span_rounded(units: SpanUnits, o: SpanRoundOptions) -> Option<SpanUnits>;

/// What `Time::round` gives for a time of day, rounded with the options
/// given in `o` (the others keep `jiff`'s defaults): the rounded time, or
/// `jiff`'s error message.
pub uninterp spec fn time_rounded(t: CivilTime, o: TimeRoundOptions) -> Result<CivilTime, Seq<char>>;

/// The `SpanRound` the options describe: each option given is set with the
/// builder method of its name.
#[verifier::external_body]
fn jiff_span_round(o: SpanRoundOptions) -> SpanRound<'static>
    requires
        relative_wf(o),
{
    let mut x = SpanRound::new();
    if let Some(u) = o.largest { x = x.largest(jiff_unit(u)); }
    if let Some(u) = o.smallest { x = x.smallest(jiff_unit(u)); }
    if let Some(n) = o.increment { x = x.increment(n); }
    if let Some(m) = o.mode { x = x.mode(jiff_mode(m)); }
    match o.relative {
        Some(Relative::DateTime(dt)) => x.relative(jiff_datetime(dt)),
        Some(Relative::Date(d)) => x.relative(Date::constant(d.year, d.month, d.day)),
        None => x,
    }
}

/// Calls `Span::round` with the options `o` gives; the rounded span (or
/// `None` for `jiff`'s error) is the named `span_rounded`.
#[verifier::external_body]
pub(crate) fn span_round(s: &SpanValue, o: SpanRoundOptions) -> (r: Option<SpanValue>)
    requires
        relative_wf(o),
    ensures
        units_of(r) == span_rounded(s@, o),
{
    match s.inner.round(jiff_span_round(o)) {
        Ok(x) => Some(SpanValue { units: units_of_span(&x), inner: x }),
        Err(_) => None,
    }
}

/// Calls `Time::round` with the options `o` gives (each set with the
/// `TimeRound` builder method of its name); the outcome is the named
/// `time_rounded`, and a time it yields is valid.
#[verifier::external_body]
pub(crate) fn time_round(t: CivilTime, o: TimeRoundOptions) -> (r: Result<CivilTime, String>)
    requires
        t.wf(),
    ensures
        with_text_error(r) == time_rounded(t, o),
        r matches Ok(x) ==> x.wf(),
{
    let mut x = TimeRound::new();
    if let Some(u) = o.smallest { x = x.smallest(jiff_unit(u)); }
    if let Some(n) = o.increment { x = x.increment(n); }
    if let Some(m) = o.mode { x = x.mode(jiff_mode(m)); }
    match jiff_time(t).round(x) {
        Ok(v) => Ok(CivilTime { hour: v.hour(), minute: v.minute(), second: v.second(), subsec_nanosecond: v.subsec_nanosecond() }),
        Err(e) => Err(e.to_string()),
    }
}

/// What adding a span with calendar units to the zoned datetime `z` may
/// give, `w`: the earliest or latest supported instant (where the sum
/// saturates), or else the civil sum of `z`'s datetime and the span's
/// calendar units placed in the zone (a zoned datetime `p` of the zone whose
/// datetime is not earlier, as the `compatible` disambiguation gives), then
/// moved on by the span's hours and smaller units.
pub open spec fn calendar_sum_reached(z: ZonedView, u: SpanUnits, w: ZonedView) -> bool {
    ||| w.instant.total_nanos() == instant_nanos_min()
    ||| w.instant.total_nanos() == instant_nanos_max()
    ||| exists|p: ZonedView|
        {
            &&& p.wf()
            &&& p.zone_name == z.zone_name
            &&& datetime_plus(z.datetime, u.calendar_part()).local_nanos()
                <= p.datetime.local_nanos()
            &&& w.instant.total_nanos() == p.instant.total_nanos() + u.time_nanos()
        }
}

/// Calls `Zoned::saturating_add`. The result keeps the zone (every path of
/// `jiff` converts back with the same `TimeZone`). A span without calendar
/// units is added to the instant (`Timestamp::checked_add`), and on overflow
/// the result is the earliest or latest supported instant, as the span is
/// negative or not: the instant is the sum held to the supported range.
/// A span with calendar units (`checked_add_span`) is added to the civil
/// datetime first (`DateTime::checked_add` of the calendar units), the sum
/// placed in the zone with the `compatible` disambiguation, and the rest of
/// the span added to that instant; any failure saturates as above. Where
/// the sum lands in the zone follows the zone's rules, which are not visible
/// here: `calendar_sum_reached` states what holds of every outcome.
#[verifier::external_body]
pub(crate) fn zoned_saturating_add(z: &ZonedValue, s: &SpanValue) -> (r: ZonedValue)
    ensures
        r@.wf(),
        r@.zone_name == z@.zone_name,
        r@.unknown == z@.unknown,
        !s@.has_calendar_units() ==> r@.instant.total_nanos() == clamp_instant_nanos(
            z@.instant.total_nanos() + s@.time_nanos(),
        ),
        s@.has_calendar_units() ==> calendar_sum_reached(z@, s@, r@),
{
    zoned_value(z.as_jiff().saturating_add(s.inner))
}

/// Calls `DateTime::saturating_add`; the sum is the named `datetime_plus`.
#[verifier::external_body]
pub(crate) fn datetime_saturating_add(dt: CivilDateTime, s: &SpanValue) -> (r: CivilDateTime)
    requires
        dt.wf(),
    ensures
        r == datetime_plus(dt, s@),
        r.wf(),
{
    let t = dt.time;
    let x = DateTime::from_parts(
        Date::constant(dt.date.year, dt.date.month, dt.date.day),
        Time::constant(t.hour, t.minute, t.second, t.subsec_nanosecond),
    ).saturating_add(s.inner);
    CivilDateTime {
        date: CivilDate { year: x.year(), month: x.month(), day: x.day() },
        time: CivilTime {
            hour: x.hour(),
            minute: x.minute(),
            second: x.second(),
            subsec_nanosecond: x.subsec_nanosecond(),
        },
    }
}

/// Calls `Date::saturating_add`; the sum is the named `date_plus`.
#[verifier::external_body]
pub(crate) fn date_saturating_add(d: CivilDate, s: &SpanValue) -> (r: CivilDate)
    requires
        d.wf(),
    ensures
        r == date_plus(d, s@),
        r.wf(),
{
    let x = Date::constant(d.year, d.month, d.day).saturating_add(s.inner);
    CivilDate { year: x.year(), month: x.month(), day: x.day() }
}

/// Calls `Time::saturating_add`; the sum is the named `time_plus`.
#[verifier::external_body]
pub(crate) fn time_saturating_add(t: CivilTime, s: &SpanValue) -> (r: CivilTime)
    requires
        t.wf(),
    ensures
        r == time_plus(t, s@),
        r.wf(),
{
    let x = Time::constant(t.hour, t.minute, t.second, t.subsec_nanosecond).saturating_add(
        s.inner,
    );
    CivilTime {
        hour: x.hour(),
        minute: x.minute(),
        second: x.second(),
        subsec_nanosecond: x.subsec_nanosecond(),
    }
}

/// Calls `Zoned::until`. With the default settings used here the largest
/// unit is the hour, so `jiff` measures the two instants
/// (`Timestamp::until` with `Unit::Hour`, which never fails within the
/// supported range) and does not consult the zones: the span is
/// `hours_span` of the difference of the instants.
#[verifier::external_body]
pub(crate) fn zoned_until(a: &ZonedValue, b: &ZonedValue) -> (r: Option<SpanValue>)
    ensures
        units_of(r) == Some(hours_span(b@.instant.total_nanos() - a@.instant.total_nanos())),
{
    match a.as_jiff().until(b.as_jiff()) {
        Ok(x) => Some(SpanValue { units: units_of_span(&x), inner: x }),
        Err(_) => None,
    }
}

/// Calls `Zoned::since`, which `jiff` computes as the negation of the same
/// measurement `Zoned::until` makes: since the parts are taken by division
/// that rounds toward zero, the span is `hours_span` of the first instant
/// minus the second, which is what `Zoned::until` gives with the two values
/// swapped.
#[verifier::external_body]
pub(crate) fn zoned_since(a: &ZonedValue, b: &ZonedValue) -> (r: Option<SpanValue>)
    ensures
        units_of(r) == Some(hours_span(a@.instant.total_nanos() - b@.instant.total_nanos())),
{
    match a.as_jiff().since(b.as_jiff()) {
        Ok(x) => Some(SpanValue { units: units_of_span(&x), inner: x }),
        Err(_) => None,
    }
}

/// Calls `Timestamp::until`; the span (or `None` for its error) is the named
/// `timestamp_until`.
#[verifier::external_body]
pub(crate) fn instant_until(a: Instant, b: Instant) -> (r: Option<SpanValue>)
    requires
        a.wf(),
        b.wf(),
    ensures
        units_of(r) == timestamp_until(a, b),
{
    let x = Timestamp::constant(a.second, a.nanosecond);
    match x.until(Timestamp::constant(b.second, b.nanosecond)) {
        Ok(x) => Some(SpanValue { units: units_of_span(&x), inner: x }),
        Err(_) => None,
    }
}

/// Calls `Timestamp::since`, which `jiff` computes as the negation of what
/// `Timestamp::until` gives for the same two values (and fails where it
/// fails): the span is the named `timestamp_until` with its units negated. With
/// the default settings used here `jiff` measures the signed difference of
/// the two values (`Span::from_invariant_duration`, or a count of days for
/// dates), split into units by division that rounds toward zero, so it is
/// also what `Timestamp::until` gives with the two values swapped.
#[verifier::external_body]
pub(crate) fn instant_since(a: Instant, b: Instant) -> (r: Option<SpanValue>)
    requires
        a.wf(),
        b.wf(),
    ensures
        units_of(r) == negate_opt(timestamp_until(a, b)),
        units_of(r) == timestamp_until(b, a),
{
    let x = Timestamp::constant(a.second, a.nanosecond);
    match x.since(Timestamp::constant(b.second, b.nanosecond)) {
        Ok(x) => Some(SpanValue { units: units_of_span(&x), inner: x }),
        Err(_) => None,
    }
}

/// The `jiff` datetime of a datetime.
#[verifier::external_body]
fn jiff_datetime(dt: CivilDateTime) -> DateTime
    requires
        dt.wf(),
{
    let t = dt.time;
    DateTime::from_parts(
        Date::constant(dt.date.year, dt.date.month, dt.date.day),
        Time::constant(t.hour, t.minute, t.second, t.subsec_nanosecond),
    )
}

/// Calls `DateTime::until`; the span (or `None` for its error) is the named
/// `datetime_until`.
#[verifier::external_body]
pub(crate) fn civil_datetime_until(a: CivilDateTime, b: CivilDateTime) -> (r: Option<SpanValue>)
    requires
        a.wf(),
        b.wf(),
    ensures
        units_of(r) == datetime_until(a, b),
{
    match jiff_datetime(a).until(jiff_datetime(b)) {
        Ok(x) => Some(SpanValue { units: units_of_span(&x), inner: x }),
        Err(_) => None,
    }
}

/// Calls `DateTime::since`, which `jiff` computes as the negation of what
/// `DateTime::until` gives for the same two values (and fails where it
/// fails): the span is the named `datetime_until` with its units negated. With
/// the default settings used here `jiff` measures the signed difference of
/// the two values (`Span::from_invariant_duration`, or a count of days for
/// dates), split into units by division that rounds toward zero, so it is
/// also what `DateTime::until` gives with the two values swapped.
#[verifier::external_body]
pub(crate) fn civil_datetime_since(a: CivilDateTime, b: CivilDateTime) -> (r: Option<SpanValue>)
    requires
        a.wf(),
        b.wf(),
    ensures
        units_of(r) == negate_opt(datetime_until(a, b)),
        units_of(r) == datetime_until(b, a),
{
    match jiff_datetime(a).since(jiff_datetime(b)) {
        Ok(x) => Some(SpanValue { units: units_of_span(&x), inner: x }),
        Err(_) => None,
    }
}

/// Calls `Date::until`; the span (or `None` for its error) is the named
/// `date_until`.
#[verifier::external_body]
pub(crate) fn civil_date_until(a: CivilDate, b: CivilDate) -> (r: Option<SpanValue>)
    requires
        a.wf(),
        b.wf(),
    ensures
        units_of(r) == date_until(a, b),
{
    let x = Date::constant(a.year, a.month, a.day);
    match x.until(Date::constant(b.year, b.month, b.day)) {
        Ok(x) => Some(SpanValue { units: units_of_span(&x), inner: x }),
        Err(_) => None,
    }
}

/// Calls `Date::since`, which `jiff` computes as the negation of what
/// `Date::until` gives for the same two values (and fails where it
/// fails): the span is the named `date_until` with its units negated. With
/// the default settings used here `jiff` measures the signed difference of
/// the two values (`Span::from_invariant_duration`, or a count of days for
/// dates), split into units by division that rounds toward zero, so it is
/// also what `Date::until` gives with the two values swapped.
#[verifier::external_body]
pub(crate) fn civil_date_since(a: CivilDate, b: CivilDate) -> (r: Option<SpanValue>)
    requires
        a.wf(),
        b.wf(),
    ensures
        units_of(r) == negate_opt(date_until(a, b)),
        units_of(r) == date_until(b, a),
{
    let x = Date::constant(a.year, a.month, a.day);
    match x.since(Date::constant(b.year, b.month, b.day)) {
        Ok(x) => Some(SpanValue { units: units_of_span(&x), inner: x }),
        Err(_) => None,
    }
}

/// The `jiff` time of a time of day.
#[verifier::external_body]
fn jiff_time(t: CivilTime) -> Time
    requires
        t.wf(),
{
    Time::constant(t.hour, t.minute, t.second, t.subsec_nanosecond)
}

/// Calls `Time::until`; the span (or `None` for its error) is the named
/// `time_until`.
#[verifier::external_body]
pub(crate) fn civil_time_until(a: CivilTime, b: CivilTime) -> (r: Option<SpanValue>)
    requires
        a.wf(),
        b.wf(),
    ensures
        units_of(r) == time_until(a, b),
{
    match jiff_time(a).until(jiff_time(b)) {
        Ok(x) => Some(SpanValue { units: units_of_span(&x), inner: x }),
        Err(_) => None,
    }
}

/// Calls `Time::since`, which `jiff` computes as the negation of what
/// `Time::until` gives for the same two values (and fails where it
/// fails): the span is the named `time_until` with its units negated. With
/// the default settings used here `jiff` measures the signed difference of
/// the two values (`Span::from_invariant_duration`, or a count of days for
/// dates), split into units by division that rounds toward zero, so it is
/// also what `Time::until` gives with the two values swapped.
#[verifier::external_body]
pub(crate) fn civil_time_since(a: CivilTime, b: CivilTime) -> (r: Option<SpanValue>)
    requires
        a.wf(),
        b.wf(),
    ensures
        units_of(r) == negate_opt(time_until(a, b)),
        units_of(r) == time_until(b, a),
{
    match jiff_time(a).since(jiff_time(b)) {
        Ok(x) => Some(SpanValue { units: units_of_span(&x), inner: x }),
        Err(_) => None,
    }
}

/// The datetimes `DateTime::series` yields from `start`, stepping by a span
/// with these units: `start`, then `start` plus the span once, twice, and so
/// on, up to the first that cannot be reached within the supported range.
pub uninterp spec fn datetime_series_items(start: CivilDateTime, span: SpanUnits) -> Seq<
    CivilDateTime,
>;

/// The datetimes a datetime series has yet to yield, in order.
pub uninterp spec fn datetime_series_rest(it: DateTimeSeries) -> Seq<CivilDateTime>;

/// The dates `Date::series` yields from `start`, stepping by a span with
/// these units, as [`datetime_series_items`] does for datetimes.
pub uninterp spec fn date_series_items(start: CivilDate, span: SpanUnits) -> Seq<CivilDate>;

/// The dates a date series has yet to yield, in order.
pub uninterp spec fn date_series_rest(it: DateSeries) -> Seq<CivilDate>;

/// Calls `DateTime::series`: the series yet to yield all of
/// `datetime_series_items(start, span)`. Its first item is `start` itself
/// (the span taken zero times), and each item is a valid datetime.
#[verifier::external_body]
pub(crate) fn datetime_series(start: CivilDateTime, s: &SpanValue) -> (r: DateTimeSeries)
    requires
        start.wf(),
    ensures
        datetime_series_rest(r) == datetime_series_items(start, s@),
        datetime_series_rest(r).len() > 0,
        datetime_series_rest(r)[0] == start,
        forall|i: int|
            0 <= i < datetime_series_rest(r).len() ==> (#[trigger] datetime_series_rest(r)[i]).wf(),
{
    jiff_datetime(start).series(s.inner)
}

/// Calls `Iterator::next` on a datetime series: the first datetime it has
/// yet to yield, which it then drops; `None` once it has none left (the
/// series is a fused iterator).
#[verifier::external_body]
pub(crate) fn datetime_series_next(it: &mut DateTimeSeries) -> (r: Option<CivilDateTime>)
    ensures
        datetime_series_rest(*old(it)).len() == 0 ==> r is None && datetime_series_rest(*final(it))
            == datetime_series_rest(*old(it)),
        datetime_series_rest(*old(it)).len() > 0 ==> r == Some(datetime_series_rest(*old(it))[0])
            && datetime_series_rest(*final(it)) == datetime_series_rest(*old(it)).drop_first(),
{
    match it.next() {
        Some(x) => Some(
            CivilDateTime {
                date: CivilDate { year: x.year(), month: x.month(), day: x.day() },
                time: CivilTime {
                    hour: x.hour(),
                    minute: x.minute(),
                    second: x.second(),
                    subsec_nanosecond: x.subsec_nanosecond(),
                },
            },
        ),
        None => None,
    }
}

/// Calls `Date::series`: the series yet to yield all of
/// `date_series_items(start, span)`. Its first item is `start` itself, and
/// each item is a valid date.
#[verifier::external_body]
pub(crate) fn date_series(start: CivilDate, s: &SpanValue) -> (r: DateSeries)
    requires
        start.wf(),
    ensures
        date_series_rest(r) == date_series_items(start, s@),
        date_series_rest(r).len() > 0,
        date_series_rest(r)[0] == start,
        forall|i: int|
            0 <= i < date_series_rest(r).len() ==> (#[trigger] date_series_rest(r)[i]).wf(),
{
    Date::constant(start.year, start.month, start.day).series(s.inner)
}

/// Calls `Iterator::next` on a date series: the first date it has yet to
/// yield, which it then drops; `None` once it has none left (the series is a
/// fused iterator).
#[verifier::external_body]
pub(crate) fn date_series_next(it: &mut DateSeries) -> (r: Option<CivilDate>)
    ensures
        date_series_rest(*old(it)).len() == 0 ==> r is None && date_series_rest(*final(it))
            == date_series_rest(*old(it)),
        date_series_rest(*old(it)).len() > 0 ==> r == Some(date_series_rest(*old(it))[0])
            && date_series_rest(*final(it)) == date_series_rest(*old(it)).drop_first(),
{
    match it.next() {
        Some(x) => Some(CivilDate { year: x.year(), month: x.month(), day: x.day() }),
        None => None,
    }
}

} // verus!
