//! The names the SQL functions accept for units, rounding modes, rendering
//! options and time zones, and the names they print for weekdays and eras.

use vstd::prelude::*;

use crate::model::{SpanDesignator, SpanDirection, Era, RoundingMode, SpanSpacing, TimeUnit, Weekday};
use crate::sql::{agrees, msg, Failure, FailureView};
use crate::text::{concat, concat3, lowercase, text_eq, to_lowercase};

verus! {

/// The unit a lowercase name stands for.
pub open spec fn unit_named(s: Seq<char>) -> Option<TimeUnit> {
    if s == "nanosecond"@ || s == "nanoseconds"@ || s == "ns"@ {
        Some(TimeUnit::Nanosecond)
    } else if s == "microsecond"@ || s == "microseconds"@ || s == "μs"@ || s == "us"@ {
        Some(TimeUnit::Microsecond)
    } else if s == "millisecond"@ || s == "milliseconds"@ || s == "ms"@ {
        Some(TimeUnit::Millisecond)
    } else if s == "second"@ || s == "seconds"@ || s == "s"@ {
        Some(TimeUnit::Second)
    } else if s == "minute"@ || s == "minutes"@ {
        Some(TimeUnit::Minute)
    } else if s == "hour"@ || s == "hours"@ || s == "hr"@ {
        Some(TimeUnit::Hour)
    } else if s == "day"@ || s == "days"@ {
        Some(TimeUnit::Day)
    } else if s == "week"@ || s == "weeks"@ {
        Some(TimeUnit::Week)
    } else if s == "month"@ || s == "months"@ {
        Some(TimeUnit::Month)
    } else if s == "year"@ || s == "years"@ {
        Some(TimeUnit::Year)
    } else {
        None
    }
}

/// The unit named by already-lowercased text, or the unknown-unit error.
pub open spec fn unit_from_lowercase_spec(lower: Seq<char>) -> Result<TimeUnit, FailureView> {
    match unit_named(lower) {
        Some(u) => Ok(u),
        None => Err(msg("Unknown unit "@ + lower)),
    }
}

/// The unit named by `text` in any letter case.
pub open spec fn unit_from_value_spec(text: Seq<char>) -> Result<TimeUnit, FailureView> {
    unit_from_lowercase_spec(lowercase(text))
}

/// Looks up a unit by its lowercase name.
pub fn unit_from_lowercase(lower: &str) -> (r: Result<TimeUnit, Failure>)
    ensures
        agrees(r, unit_from_lowercase_spec(lower@)),
{
    if text_eq(lower, "nanosecond") || text_eq(lower, "nanoseconds") || text_eq(lower, "ns") {
        Ok(TimeUnit::Nanosecond)
    } else if text_eq(lower, "microsecond") || text_eq(lower, "microseconds") || text_eq(
        lower,
        "μs",
    ) || text_eq(lower, "us") {
        Ok(TimeUnit::Microsecond)
    } else if text_eq(lower, "millisecond") || text_eq(lower, "milliseconds") || text_eq(
        lower,
        "ms",
    ) {
        Ok(TimeUnit::Millisecond)
    } else if text_eq(lower, "second") || text_eq(lower, "seconds") || text_eq(lower, "s") {
        Ok(TimeUnit::Second)
    } else if text_eq(lower, "minute") || text_eq(lower, "minutes") {
        Ok(TimeUnit::Minute)
    } else if text_eq(lower, "hour") || text_eq(lower, "hours") || text_eq(lower, "hr") {
        Ok(TimeUnit::Hour)
    } else if text_eq(lower, "day") || text_eq(lower, "days") {
        Ok(TimeUnit::Day)
    } else if text_eq(lower, "week") || text_eq(lower, "weeks") {
        Ok(TimeUnit::Week)
    } else if text_eq(lower, "month") || text_eq(lower, "months") {
        Ok(TimeUnit::Month)
    } else if text_eq(lower, "year") || text_eq(lower, "years") {
        Ok(TimeUnit::Year)
    } else {
        Err(Failure::Message(concat("Unknown unit ", lower)))
    }
}

/// Reads a unit name in any letter case: the text is lowercased, then looked
/// up among the singular, plural and abbreviated names of the ten units.
pub fn unit_from_value(text: &str) -> (r: Result<TimeUnit, Failure>)
    ensures
        agrees(r, unit_from_value_spec(text@)),
{
    let lower = to_lowercase(text);
    unit_from_lowercase(lower.as_str())
}

/// The rounding mode a name stands for, matched exactly.
pub open spec fn roundmode_named(s: Seq<char>) -> Option<RoundingMode> {
    if s == "ceil"@ {
        Some(RoundingMode::Ceil)
    } else if s == "floor"@ {
        Some(RoundingMode::Floor)
    } else if s == "expand"@ {
        Some(RoundingMode::Expand)
    } else if s == "trunc"@ {
        Some(RoundingMode::Trunc)
    } else if s == "half-ceil"@ {
        Some(RoundingMode::HalfCeil)
    } else if s == "half-floor"@ {
        Some(RoundingMode::HalfFloor)
    } else if s == "half-expand"@ {
        Some(RoundingMode::HalfExpand)
    } else if s == "half-trunc"@ {
        Some(RoundingMode::HalfTrunc)
    } else if s == "half-even"@ {
        Some(RoundingMode::HalfEven)
    } else {
        None
    }
}

/// Looks up a rounding mode by its exact name (letter case matters).
pub fn roundmode_from_text(text: &str) -> (r: Option<RoundingMode>)
    ensures
        r == roundmode_named(text@),
{
    if text_eq(text, "ceil") {
        Some(RoundingMode::Ceil)
    } else if text_eq(text, "floor") {
        Some(RoundingMode::Floor)
    } else if text_eq(text, "expand") {
        Some(RoundingMode::Expand)
    } else if text_eq(text, "trunc") {
        Some(RoundingMode::Trunc)
    } else if text_eq(text, "half-ceil") {
        Some(RoundingMode::HalfCeil)
    } else if text_eq(text, "half-floor") {
        Some(RoundingMode::HalfFloor)
    } else if text_eq(text, "half-expand") {
        Some(RoundingMode::HalfExpand)
    } else if text_eq(text, "half-trunc") {
        Some(RoundingMode::HalfTrunc)
    } else if text_eq(text, "half-even") {
        Some(RoundingMode::HalfEven)
    } else {
        None
    }
}

/// The rounding mode named by already-lowercased text, or its error.
pub open spec fn roundmode_from_lowercase_spec(lower: Seq<char>) -> Result<
    RoundingMode,
    FailureView,
> {
    match roundmode_named(lower) {
        Some(m) => Ok(m),
        None => Err(msg("Unknown round mode "@ + lower)),
    }
}

/// Looks up a rounding mode by its lowercase name.
pub fn roundmode_from_lowercase(lower: &str) -> (r: Result<RoundingMode, Failure>)
    ensures
        agrees(r, roundmode_from_lowercase_spec(lower@)),
{
    match roundmode_from_text(lower) {
        Some(m) => Ok(m),
        None => Err(Failure::Message(concat("Unknown round mode ", lower))),
    }
}

/// Reads a rounding mode name in any letter case.
pub fn roundmode_from_value(text: &str) -> (r: Result<RoundingMode, Failure>)
    ensures
        agrees(r, roundmode_from_lowercase_spec(lowercase(text@))),
{
    let lower = to_lowercase(text);
    roundmode_from_lowercase(lower.as_str())
}

/// The spacing a lowercase name stands for, or its error.
pub open spec fn spacing_from_lowercase_spec(lower: Seq<char>) -> Result<SpanSpacing, FailureView> {
    if lower == "none"@ {
        Ok(SpanSpacing::NoSpace)
    } else if lower == "between-units"@ {
        Ok(SpanSpacing::BetweenUnits)
    } else if lower == "between-units-and-designators"@ {
        Ok(SpanSpacing::BetweenUnitsAndDesignators)
    } else {
        Err(msg("Unknown spacing '"@ + lower + "'"@))
    }
}

/// Looks up a spacing by its lowercase name.
pub fn spacing_from_lowercase(lower: &str) -> (r: Result<SpanSpacing, Failure>)
    ensures
        agrees(r, spacing_from_lowercase_spec(lower@)),
{
    if text_eq(lower, "none") {
        Ok(SpanSpacing::NoSpace)
    } else if text_eq(lower, "between-units") {
        Ok(SpanSpacing::BetweenUnits)
    } else if text_eq(lower, "between-units-and-designators") {
        Ok(SpanSpacing::BetweenUnitsAndDesignators)
    } else {
        Err(Failure::Message(concat3("Unknown spacing '", lower, "'")))
    }
}

/// The designator a lowercase name stands for, or its error.
pub open spec fn designator_from_lowercase_spec(lower: Seq<char>) -> Result<
    SpanDesignator,
    FailureView,
> {
    if lower == "verbose"@ {
        Ok(SpanDesignator::Verbose)
    } else if lower == "short"@ {
        Ok(SpanDesignator::Short)
    } else if lower == "compact"@ {
        Ok(SpanDesignator::Compact)
    } else {
        Err(msg("Unknown designator "@ + lower))
    }
}

/// Looks up a designator by its lowercase name.
pub fn designator_from_lowercase(lower: &str) -> (r: Result<SpanDesignator, Failure>)
    ensures
        agrees(r, designator_from_lowercase_spec(lower@)),
{
    if text_eq(lower, "verbose") {
        Ok(SpanDesignator::Verbose)
    } else if text_eq(lower, "short") {
        Ok(SpanDesignator::Short)
    } else if text_eq(lower, "compact") {
        Ok(SpanDesignator::Compact)
    } else {
        Err(Failure::Message(concat("Unknown designator ", lower)))
    }
}

/// The direction a lowercase name stands for, or its error.
pub open spec fn direction_from_lowercase_spec(lower: Seq<char>) -> Result<
    SpanDirection,
    FailureView,
> {
    if lower == "auto"@ {
        Ok(SpanDirection::Auto)
    } else if lower == "sign"@ {
        Ok(SpanDirection::Sign)
    } else if lower == "force-sign"@ {
        Ok(SpanDirection::ForceSign)
    } else if lower == "suffix"@ {
        Ok(SpanDirection::Suffix)
    } else {
        Err(msg("Unknown direction "@ + lower))
    }
}

/// Looks up a direction by its lowercase name.
pub fn direction_from_lowercase(lower: &str) -> (r: Result<SpanDirection, Failure>)
    ensures
        agrees(r, direction_from_lowercase_spec(lower@)),
{
    if text_eq(lower, "auto") {
        Ok(SpanDirection::Auto)
    } else if text_eq(lower, "sign") {
        Ok(SpanDirection::Sign)
    } else if text_eq(lower, "force-sign") {
        Ok(SpanDirection::ForceSign)
    } else if text_eq(lower, "suffix") {
        Ok(SpanDirection::Suffix)
    } else {
        Err(Failure::Message(concat("Unknown direction ", lower)))
    }
}

/// The English name of a weekday.
pub open spec fn weekday_name_spec(w: Weekday) -> Seq<char> {
    match w {
        Weekday::Monday => "Monday"@,
        Weekday::Tuesday => "Tuesday"@,
        Weekday::Wednesday => "Wednesday"@,
        Weekday::Thursday => "Thursday"@,
        Weekday::Friday => "Friday"@,
        Weekday::Saturday => "Saturday"@,
        Weekday::Sunday => "Sunday"@,
    }
}

/// The English name of a weekday.
pub fn weekday_name(w: Weekday) -> (r: &'static str)
    ensures
        r@ == weekday_name_spec(w),
{
    match w {
        Weekday::Monday => "Monday",
        Weekday::Tuesday => "Tuesday",
        Weekday::Wednesday => "Wednesday",
        Weekday::Thursday => "Thursday",
        Weekday::Friday => "Friday",
        Weekday::Saturday => "Saturday",
        Weekday::Sunday => "Sunday",
    }
}

/// The abbreviation of an era.
pub open spec fn era_name_spec(e: Era) -> Seq<char> {
    match e {
        Era::BCE => "BCE"@,
        Era::CE => "CE"@,
    }
}

/// The abbreviation of an era.
pub fn era_name(e: Era) -> (r: &'static str)
    ensures
        r@ == era_name_spec(e),
{
    match e {
        Era::BCE => "BCE",
        Era::CE => "CE",
    }
}

/// Which time zone a lowercase time zone name selects.
#[derive(Debug)]
pub enum ZoneChoice {
    /// Coordinated Universal Time.
    Utc,
    /// The zone the host system is configured with.
    System,
    /// The zone of this name in the time zone database.
    Named(String),
}

/// Which zone a lowercase name selects: `utc` and `z` select UTC, `system`
/// and `local` the host's zone, and any other name is looked up as given.
pub open spec fn zone_choice_spec(lower: Seq<char>) -> int {
    if lower == "utc"@ || lower == "z"@ {
        0
    } else if lower == "system"@ || lower == "local"@ {
        1
    } else {
        2
    }
}

/// Chooses the zone a lowercase time zone name selects.
pub fn zone_choice(lower: &str) -> (r: ZoneChoice)
    ensures
        zone_choice_spec(lower@) == 0 <==> r is Utc,
        zone_choice_spec(lower@) == 1 <==> r is System,
        zone_choice_spec(lower@) == 2 <==> r is Named,
        r matches ZoneChoice::Named(n) ==> n@ == lower@,
{
    if text_eq(lower, "utc") || text_eq(lower, "z") {
        ZoneChoice::Utc
    } else if text_eq(lower, "system") || text_eq(lower, "local") {
        ZoneChoice::System
    } else {
        ZoneChoice::Named(lower.to_owned())
    }
}

/// The names of a unit: its singular, its plural and its abbreviations.
pub open spec fn unit_names(u: TimeUnit) -> Seq<Seq<char>> {
    match u {
        TimeUnit::Nanosecond => seq!["nanosecond"@, "nanoseconds"@, "ns"@],
        TimeUnit::Microsecond => seq!["microsecond"@, "microseconds"@, "μs"@, "us"@],
        TimeUnit::Millisecond => seq!["millisecond"@, "milliseconds"@, "ms"@],
        TimeUnit::Second => seq!["second"@, "seconds"@, "s"@],
        TimeUnit::Minute => seq!["minute"@, "minutes"@],
        TimeUnit::Hour => seq!["hour"@, "hours"@, "hr"@],
        TimeUnit::Day => seq!["day"@, "days"@],
        TimeUnit::Week => seq!["week"@, "weeks"@],
        TimeUnit::Month => seq!["month"@, "months"@],
        TimeUnit::Year => seq!["year"@, "years"@],
    }
}

/// Every name of a unit names that unit, and a name stands for a unit only
/// when it is one of that unit's names: `hour`, `hours` and `hr` all read as
/// hours, and so on for the ten units.
pub proof fn lemma_unit_names(u: TimeUnit, s: Seq<char>)
    ensures
        unit_names(u).contains(s) ==> unit_named(s) == Some(u),
        unit_named(s) == Some(u) ==> unit_names(u).contains(s),
{
    reveal_strlit("nanosecond");
    assert("nanosecond"@.len() == 10);
    reveal_strlit("nanoseconds");
    assert("nanoseconds"@.len() == 11);
    reveal_strlit("ns");
    assert("ns"@.len() == 2);
    reveal_strlit("microsecond");
    assert("microsecond"@.len() == 11);
    reveal_strlit("microseconds");
    assert("microseconds"@.len() == 12);
    reveal_strlit("μs");
    assert("μs"@.len() == 2);
    reveal_strlit("us");
    assert("us"@.len() == 2);
    reveal_strlit("millisecond");
    assert("millisecond"@.len() == 11);
    reveal_strlit("milliseconds");
    assert("milliseconds"@.len() == 12);
    reveal_strlit("ms");
    assert("ms"@.len() == 2);
    reveal_strlit("second");
    assert("second"@.len() == 6);
    reveal_strlit("seconds");
    assert("seconds"@.len() == 7);
    reveal_strlit("s");
    assert("s"@.len() == 1);
    reveal_strlit("minute");
    assert("minute"@.len() == 6);
    reveal_strlit("minutes");
    assert("minutes"@.len() == 7);
    reveal_strlit("hour");
    assert("hour"@.len() == 4);
    reveal_strlit("hours");
    assert("hours"@.len() == 5);
    reveal_strlit("hr");
    assert("hr"@.len() == 2);
    reveal_strlit("day");
    assert("day"@.len() == 3);
    reveal_strlit("days");
    assert("days"@.len() == 4);
    reveal_strlit("week");
    assert("week"@.len() == 4);
    reveal_strlit("weeks");
    assert("weeks"@.len() == 5);
    reveal_strlit("month");
    assert("month"@.len() == 5);
    reveal_strlit("months");
    assert("months"@.len() == 6);
    reveal_strlit("year");
    assert("year"@.len() == 4);
    reveal_strlit("years");
    assert("years"@.len() == 5);
    assert(unit_named("nanosecond"@) == Some(TimeUnit::Nanosecond));
    assert(unit_named("nanoseconds"@) == Some(TimeUnit::Nanosecond));
    assert(unit_named("ns"@) == Some(TimeUnit::Nanosecond));
    assert("microsecond"@[0] != "nanoseconds"@[0]);
    assert(unit_named("microsecond"@) == Some(TimeUnit::Microsecond));
    assert(unit_named("microseconds"@) == Some(TimeUnit::Microsecond));
    assert("μs"@[0] != "ns"@[0]);
    assert(unit_named("μs"@) == Some(TimeUnit::Microsecond));
    assert("us"@[0] != "ns"@[0]);
    assert("us"@[0] != "μs"@[0]);
    assert(unit_named("us"@) == Some(TimeUnit::Microsecond));
    assert("millisecond"@[0] != "nanoseconds"@[0]);
    assert("millisecond"@[2] != "microsecond"@[2]);
    assert(unit_named("millisecond"@) == Some(TimeUnit::Millisecond));
    assert("milliseconds"@[2] != "microseconds"@[2]);
    assert(unit_named("milliseconds"@) == Some(TimeUnit::Millisecond));
    assert("ms"@[0] != "ns"@[0]);
    assert("ms"@[0] != "μs"@[0]);
    assert("ms"@[0] != "us"@[0]);
    assert(unit_named("ms"@) == Some(TimeUnit::Millisecond));
    assert(unit_named("second"@) == Some(TimeUnit::Second));
    assert(unit_named("seconds"@) == Some(TimeUnit::Second));
    assert(unit_named("s"@) == Some(TimeUnit::Second));
    assert("minute"@[0] != "second"@[0]);
    assert(unit_named("minute"@) == Some(TimeUnit::Minute));
    assert("minutes"@[0] != "seconds"@[0]);
    assert(unit_named("minutes"@) == Some(TimeUnit::Minute));
    assert(unit_named("hour"@) == Some(TimeUnit::Hour));
    assert(unit_named("hours"@) == Some(TimeUnit::Hour));
    assert("hr"@[0] != "ns"@[0]);
    assert("hr"@[0] != "μs"@[0]);
    assert("hr"@[0] != "us"@[0]);
    assert("hr"@[0] != "ms"@[0]);
    assert(unit_named("hr"@) == Some(TimeUnit::Hour));
    assert(unit_named("day"@) == Some(TimeUnit::Day));
    assert("days"@[0] != "hour"@[0]);
    assert(unit_named("days"@) == Some(TimeUnit::Day));
    assert("week"@[0] != "hour"@[0]);
    assert("week"@[0] != "days"@[0]);
    assert(unit_named("week"@) == Some(TimeUnit::Week));
    assert("weeks"@[0] != "hours"@[0]);
    assert(unit_named("weeks"@) == Some(TimeUnit::Week));
    assert("month"@[0] != "hours"@[0]);
    assert("month"@[0] != "weeks"@[0]);
    assert(unit_named("month"@) == Some(TimeUnit::Month));
    assert("months"@[0] != "second"@[0]);
    assert("months"@[1] != "minute"@[1]);
    assert(unit_named("months"@) == Some(TimeUnit::Month));
    assert("year"@[0] != "hour"@[0]);
    assert("year"@[0] != "days"@[0]);
    assert("year"@[0] != "week"@[0]);
    assert(unit_named("year"@) == Some(TimeUnit::Year));
    assert("years"@[0] != "hours"@[0]);
    assert("years"@[0] != "weeks"@[0]);
    assert("years"@[0] != "month"@[0]);
    assert(unit_named("years"@) == Some(TimeUnit::Year));
    if unit_names(u).contains(s) {
        let i = choose|i: int| 0 <= i < unit_names(u).len() && unit_names(u)[i] == s;
        assert(0 <= i < 4);
        if i == 0 {
        } else if i == 1 {
        } else if i == 2 {
        } else {
        }
    }
    if unit_named(s) == Some(u) {
        assert(unit_names(u).contains(s));
    }
}

/// The name of a rounding mode, as `jiff` spells it.
pub open spec fn roundmode_name(m: RoundingMode) -> Seq<char> {
    match m {
        RoundingMode::Ceil => "ceil"@,
        RoundingMode::Floor => "floor"@,
        RoundingMode::Expand => "expand"@,
        RoundingMode::Trunc => "trunc"@,
        RoundingMode::HalfCeil => "half-ceil"@,
        RoundingMode::HalfFloor => "half-floor"@,
        RoundingMode::HalfExpand => "half-expand"@,
        RoundingMode::HalfTrunc => "half-trunc"@,
        RoundingMode::HalfEven => "half-even"@,
    }
}

/// Every rounding mode is read back from its own name, and a name stands for
/// a mode only when it is that mode's name: `floor` reads as floor, `ceil`
/// as ceil, and so on for the nine modes.
pub proof fn lemma_roundmode_names(m: RoundingMode, s: Seq<char>)
    ensures
        roundmode_named(roundmode_name(m)) == Some(m),
        roundmode_named(s) == Some(m) ==> s == roundmode_name(m),
{
    reveal_strlit("ceil");
    assert("ceil"@.len() == 4);
    reveal_strlit("floor");
    assert("floor"@.len() == 5);
    reveal_strlit("expand");
    assert("expand"@.len() == 6);
    reveal_strlit("trunc");
    assert("trunc"@.len() == 5);
    reveal_strlit("half-ceil");
    assert("half-ceil"@.len() == 9);
    reveal_strlit("half-floor");
    assert("half-floor"@.len() == 10);
    reveal_strlit("half-expand");
    assert("half-expand"@.len() == 11);
    reveal_strlit("half-trunc");
    assert("half-trunc"@.len() == 10);
    reveal_strlit("half-even");
    assert("half-even"@.len() == 9);
    assert(roundmode_named("ceil"@) == Some(RoundingMode::Ceil));
    assert(roundmode_named("floor"@) == Some(RoundingMode::Floor));
    assert(roundmode_named("expand"@) == Some(RoundingMode::Expand));
    assert("trunc"@[0] != "floor"@[0]);
    assert(roundmode_named("trunc"@) == Some(RoundingMode::Trunc));
    assert(roundmode_named("half-ceil"@) == Some(RoundingMode::HalfCeil));
    assert(roundmode_named("half-floor"@) == Some(RoundingMode::HalfFloor));
    assert(roundmode_named("half-expand"@) == Some(RoundingMode::HalfExpand));
    assert("half-trunc"@[5] != "half-floor"@[5]);
    assert(roundmode_named("half-trunc"@) == Some(RoundingMode::HalfTrunc));
    assert("half-even"@[5] != "half-ceil"@[5]);
    assert(roundmode_named("half-even"@) == Some(RoundingMode::HalfEven));
}

} // verus!
