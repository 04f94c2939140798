//! Plain-value models of the calendar and clock values that the extension
//! works with, together with their validity rules.

use vstd::prelude::*;

verus! {

/// Smallest year a civil date can carry.
pub const YEAR_MIN: i16 = -9999;

/// Largest year a civil date can carry.
pub const YEAR_MAX: i16 = 9999;

/// Smallest number of seconds since the Unix epoch that an instant can carry.
pub const INSTANT_SECOND_MIN: i64 = -377705023201;

/// Largest number of seconds since the Unix epoch that an instant can carry.
pub const INSTANT_SECOND_MAX: i64 = 253402207200;

/// Gregorian leap-year rule.
pub open spec fn is_leap_year(year: int) -> bool {
    (year % 4 == 0 && year % 100 != 0) || year % 400 == 0
}

/// Number of days in `month` of `year` (for a month in `1..=12`).
pub open spec fn days_in_month(year: int, month: int) -> int {
    if month == 2 {
        if is_leap_year(year) { 29 } else { 28 }
    } else if month == 4 || month == 6 || month == 9 || month == 11 {
        30
    } else {
        31
    }
}

/// A year-month-day triple names a date of the proleptic Gregorian calendar
/// within the supported years.
pub open spec fn valid_date(year: int, month: int, day: int) -> bool {
    &&& YEAR_MIN <= year <= YEAR_MAX
    &&& 1 <= month <= 12
    &&& 1 <= day <= days_in_month(year, month)
}

/// An hour-minute-second-nanosecond quadruple names a wall-clock time.
pub open spec fn valid_time(hour: int, minute: int, second: int, subsec_nanosecond: int) -> bool {
    &&& 0 <= hour <= 23
    &&& 0 <= minute <= 59
    &&& 0 <= second <= 59
    &&& 0 <= subsec_nanosecond <= 999_999_999
}

/// A calendar date: year, month and day.
#[derive(Clone, Copy, Debug, PartialEq, Eq, Structural)]
pub struct CivilDate {
    pub year: i16,
    pub month: i8,
    pub day: i8,
}

impl CivilDate {
    pub open spec fn wf(self) -> bool {
        valid_date(self.year as int, self.month as int, self.day as int)
    }

    /// Days from 1970-01-01 to this date in the proleptic Gregorian calendar
    /// (negative before it): the year is counted from March, so that the
    /// leap day falls last, in whole 400-year eras of 146097 days.
    pub open spec fn days_since_epoch(self) -> int {
        let y = if self.month <= 2 { self.year - 1 } else { self.year as int };
        let era = y / 400;
        let yoe = y - era * 400;
        let mp = if self.month > 2 { self.month - 3 } else { self.month + 9 };
        let doy = (153 * mp + 2) / 5 + self.day - 1;
        let doe = yoe * 365 + yoe / 4 - yoe / 100 + doy;
        era * 146097 + doe - 719468
    }
}

/// A wall-clock time of day.
#[derive(Clone, Copy, Debug, PartialEq, Eq, Structural)]
pub struct CivilTime {
    pub hour: i8,
    pub minute: i8,
    pub second: i8,
    pub subsec_nanosecond: i32,
}

impl CivilTime {
    pub open spec fn wf(self) -> bool {
        valid_time(
            self.hour as int,
            self.minute as int,
            self.second as int,
            self.subsec_nanosecond as int,
        )
    }
}

/// A date paired with a time of day, with no time zone.
#[derive(Clone, Copy, Debug, PartialEq, Eq, Structural)]
pub struct CivilDateTime {
    pub date: CivilDate,
    pub time: CivilTime,
}

impl CivilDateTime {
    pub open spec fn wf(self) -> bool {
        self.date.wf() && self.time.wf()
    }

    /// Nanoseconds from 1970-01-01T00:00:00 to this datetime, every day
    /// counted as 24 hours.
    pub open spec fn local_nanos(self) -> int {
        let t = self.time;
        let secs = self.date.days_since_epoch() * 86400 + t.hour * 3600 + t.minute * 60 + t.second;
        secs * 1_000_000_000 + t.subsec_nanosecond
    }
}

/// An instant: whole seconds since the Unix epoch and a signed sub-second
/// part in nanoseconds.
#[derive(Clone, Copy, Debug, PartialEq, Eq, Structural)]
pub struct Instant {
    pub second: i64,
    pub nanosecond: i32,
}

impl Instant {
    /// The seconds lie in the supported range, the nanoseconds have at most
    /// nine digits, and both parts carry the same sign.
    pub open spec fn wf(self) -> bool {
        &&& INSTANT_SECOND_MIN <= self.second <= INSTANT_SECOND_MAX
        &&& -999_999_999 <= self.nanosecond <= 999_999_999
        &&& self.second == INSTANT_SECOND_MIN ==> self.nanosecond >= 0
        &&& (self.second > 0 ==> self.nanosecond >= 0)
        &&& (self.second < 0 ==> self.nanosecond <= 0)
    }

    /// Total nanoseconds since the Unix epoch.
    pub open spec fn total_nanos(self) -> int {
        self.second * 1_000_000_000 + self.nanosecond
    }
}

/// Division that rounds toward zero, as Rust's `/` on integers does.
pub open spec fn div_toward_zero(a: int, b: int) -> int {
    if a >= 0 {
        a / b
    } else {
        -((-a) / b)
    }
}

/// The earliest supported instant, in nanoseconds since the Unix epoch.
pub open spec fn instant_nanos_min() -> int {
    INSTANT_SECOND_MIN * 1_000_000_000
}

/// The latest supported instant, in nanoseconds since the Unix epoch.
pub open spec fn instant_nanos_max() -> int {
    INSTANT_SECOND_MAX * 1_000_000_000 + 999_999_999
}

/// A count of nanoseconds since the Unix epoch held to the supported range.
pub open spec fn clamp_instant_nanos(n: int) -> int {
    if n < instant_nanos_min() {
        instant_nanos_min()
    } else if n > instant_nanos_max() {
        instant_nanos_max()
    } else {
        n
    }
}

/// The values of the ten units of a span of time.
#[derive(Clone, Copy, Debug, PartialEq, Eq, Structural)]
pub struct SpanUnits {
    pub years: i16,
    pub months: i32,
    pub weeks: i32,
    pub days: i32,
    pub hours: i32,
    pub minutes: i64,
    pub seconds: i64,
    pub milliseconds: i64,
    pub microseconds: i64,
    pub nanoseconds: i64,
}

impl SpanUnits {
    /// Every unit is zero.
    pub open spec fn all_zero(self) -> bool {
        &&& self.years == 0
        &&& self.months == 0
        &&& self.weeks == 0
        &&& self.days == 0
        &&& self.hours == 0
        &&& self.minutes == 0
        &&& self.seconds == 0
        &&& self.milliseconds == 0
        &&& self.microseconds == 0
        &&& self.nanoseconds == 0
    }

    /// Whether a calendar unit (years, months, weeks or days) is not zero.
    pub open spec fn has_calendar_units(self) -> bool {
        self.years != 0 || self.months != 0 || self.weeks != 0 || self.days != 0
    }

    /// The span's calendar units alone (years, months, weeks and days).
    pub open spec fn calendar_part(self) -> SpanUnits {
        SpanUnits {
            years: self.years,
            months: self.months,
            weeks: self.weeks,
            days: self.days,
            hours: 0,
            minutes: 0,
            seconds: 0,
            milliseconds: 0,
            microseconds: 0,
            nanoseconds: 0,
        }
    }

    /// The length of the span's hours, minutes, seconds and fractions, in
    /// nanoseconds.
    pub open spec fn time_nanos(self) -> int {
        ((self.hours * 60 + self.minutes) * 60 + self.seconds) * 1_000_000_000 + self.milliseconds
            * 1_000_000 + self.microseconds * 1_000 + self.nanoseconds
    }

    /// The span with every unit negated (what `-span` gives).
    pub open spec fn negated(self) -> SpanUnits {
        SpanUnits {
            years: (-self.years) as i16,
            months: (-self.months) as i32,
            weeks: (-self.weeks) as i32,
            days: (-self.days) as i32,
            hours: (-self.hours) as i32,
            minutes: (-self.minutes) as i64,
            seconds: (-self.seconds) as i64,
            milliseconds: (-self.milliseconds) as i64,
            microseconds: (-self.microseconds) as i64,
            nanoseconds: (-self.nanoseconds) as i64,
        }
    }

    /// Whether every unit is zero.
    pub fn is_zero(&self) -> (r: bool)
        ensures
            r == self.all_zero(),
    {
        self.years == 0 && self.months == 0 && self.weeks == 0 && self.days == 0 && self.hours
            == 0 && self.minutes == 0 && self.seconds == 0 && self.milliseconds == 0
            && self.microseconds == 0 && self.nanoseconds == 0
    }
}

/// A unit of time, from years down to nanoseconds.
#[derive(Clone, Copy, Debug, PartialEq, Eq, Structural)]
pub enum TimeUnit {
    Year,
    Month,
    Week,
    Day,
    Hour,
    Minute,
    Second,
    Millisecond,
    Microsecond,
    Nanosecond,
}

/// How a value that falls between two increments is rounded.
#[derive(Clone, Copy, Debug, PartialEq, Eq, Structural)]
pub enum RoundingMode {
    Ceil,
    Floor,
    Expand,
    Trunc,
    HalfCeil,
    HalfFloor,
    HalfExpand,
    HalfTrunc,
    HalfEven,
}

/// Where a friendly span rendering puts spaces.
#[derive(Clone, Copy, Debug, PartialEq, Eq, Structural)]
pub enum SpanSpacing {
    NoSpace,
    BetweenUnits,
    BetweenUnitsAndDesignators,
}

/// How the unit labels of a friendly span rendering are spelled.
#[derive(Clone, Copy, Debug, PartialEq, Eq, Structural)]
pub enum SpanDesignator {
    Verbose,
    Short,
    Compact,
}

/// How the sign of a friendly span rendering is shown.
#[derive(Clone, Copy, Debug, PartialEq, Eq, Structural)]
pub enum SpanDirection {
    Auto,
    Sign,
    ForceSign,
    Suffix,
}

/// The era of a year: before or in the common era.
#[derive(Clone, Copy, Debug, PartialEq, Eq, Structural)]
pub enum Era {
    BCE,
    CE,
}

/// A day of the week.
#[derive(Clone, Copy, Debug, PartialEq, Eq, Structural)]
pub enum Weekday {
    Monday,
    Tuesday,
    Wednesday,
    Thursday,
    Friday,
    Saturday,
    Sunday,
}

/// The weekday of a date: 1970-01-01 was a Thursday, and the days repeat
/// every seven.
pub open spec fn weekday_of(d: CivilDate) -> Weekday {
    weekday_from_index((d.days_since_epoch() + 3) % 7)
}

/// The weekday whose Monday-based index (Monday is 0, Sunday is 6) is `index`.
pub open spec fn weekday_from_index(index: int) -> Weekday {
    if index == 0 {
        Weekday::Monday
    } else if index == 1 {
        Weekday::Tuesday
    } else if index == 2 {
        Weekday::Wednesday
    } else if index == 3 {
        Weekday::Thursday
    } else if index == 4 {
        Weekday::Friday
    } else if index == 5 {
        Weekday::Saturday
    } else {
        Weekday::Sunday
    }
}

} // verus!
