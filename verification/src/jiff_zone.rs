//! Calls into `jiff` for time zones and zoned datetimes. What these return
//! depends on the host's time zone database or clock, so most contracts here
//! state only what holds of every outcome. Each item here is trusted.

use vstd::prelude::*;

use jiff::civil::{Date, DateTime, Time};
use jiff::fmt::temporal::DateTimeParser;
use jiff::tz::{Offset, TimeZone};
use jiff::{Timestamp, Zoned};

use crate::model::{CivilDate, CivilDateTime, CivilTime, Instant};
use crate::jiff_civil::datetime_display;
use crate::text::pad2;

verus! {

#[verifier::external_type_specification]
#[verifier::external_body]
pub struct ExTimeZone(jiff::tz::TimeZone);

/// One offset change of a time zone.
#[derive(Debug)]
pub struct Transition {
    /// The instant at which the new offset starts.
    pub at: Instant,
    /// The new offset from UTC, in seconds.
    pub offset_seconds: i32,
    /// The abbreviation of the new offset (such as `PST`).
    pub abbreviation: String,
    /// Whether the new offset is daylight saving time.
    pub dst: bool,
}

/// A transition of a zone as a scan finds it, together with the instant of
/// the zone's latest transition before it (if any). Only a query of the
/// zone makes one, so the two always belong together.
#[derive(Debug)]
pub struct FoundTransition {
    transition: Transition,
    preceding: Option<Instant>,
}

impl FoundTransition {
    /// The transition found.
    pub closed spec fn found(&self) -> Transition {
        self.transition
    }

    /// The instant of the zone's latest transition before the one found.
    pub closed spec fn preceding(&self) -> Option<Instant> {
        self.preceding
    }

    /// The transition found.
    pub fn transition(&self) -> (r: &Transition)
        ensures
            *r == self.found(),
    {
        &self.transition
    }
}

/// Largest magnitude, in seconds, of a UTC offset.
pub open spec fn offset_limit() -> int {
    93599
}

/// The rendering of a UTC offset of `secs` seconds: a sign, then hours, then
/// (when not zero) minutes and seconds, two digits each, separated by `:`;
/// a zero offset is `+00`.
pub open spec fn offset_display(secs: int) -> Seq<char> {
    let sign = if secs < 0 { "-"@ } else { "+"@ };
    let a = if secs < 0 { -secs } else { secs };
    let h = a / 3600;
    let m = (a / 60) % 60;
    let s = a % 60;
    if h == 0 && m == 0 && s == 0 {
        "+00"@
    } else if h != 0 && m == 0 && s == 0 {
        sign + pad2(h)
    } else if m != 0 && s == 0 {
        sign + pad2(h) + ":"@ + pad2(m)
    } else {
        sign + pad2(h) + ":"@ + pad2(m) + ":"@ + pad2(s)
    }
}

/// The rendering of a UTC offset in a zoned datetime: a sign, then hours
/// and minutes, two digits each, separated by `:`, the seconds rounded to
/// the nearest minute (half a minute up), except that rounding never goes
/// beyond 25:59.
pub open spec fn rfc_offset(secs: int) -> Seq<char> {
    let sign = if secs < 0 { "-"@ } else { "+"@ };
    let a = if secs < 0 { -secs } else { secs };
    let h = a / 3600;
    let m = (a / 60) % 60;
    let s = a % 60;
    let hm: (int, int) = if s < 30 {
        (h, m)
    } else if m < 59 {
        (h, m + 1)
    } else if h + 1 > 25 {
        (25, 59)
    } else {
        (h + 1, 0)
    };
    sign + pad2(hm.0) + ":"@ + pad2(hm.1)
}

/// What the rendering of a zoned datetime reads from it: its civil
/// datetime, its instant, its offset from UTC in seconds, the IANA name of
/// its time zone (if the zone has one), and whether the zone is the unknown
/// zone.
pub struct ZonedView {
    pub datetime: CivilDateTime,
    pub instant: Instant,
    pub offset_seconds: int,
    pub zone_name: Option<Seq<char>>,
    pub unknown: bool,
}

impl ZonedView {
    /// The datetime and the instant are valid, the offset within bounds, and
    /// the datetime is the instant shifted by the offset.
    pub open spec fn wf(self) -> bool {
        &&& self.datetime.wf()
        &&& self.instant.wf()
        &&& -offset_limit() <= self.offset_seconds <= offset_limit()
        &&& self.datetime.local_nanos() == self.instant.total_nanos() + self.offset_seconds
            * 1_000_000_000
    }
}

/// The RFC 9557 rendering of a zoned datetime: the datetime, then the
/// offset and, in brackets, the zone's IANA name (or, for a zone without
/// one, the offset again); `Z[Etc/Unknown]` in place of both for the unknown
/// zone.
pub open spec fn zoned_display(z: ZonedView) -> Seq<char> {
    datetime_display(z.datetime) + if z.unknown {
        "Z[Etc/Unknown]"@
    } else {
        rfc_offset(z.offset_seconds) + "["@ + match z.zone_name {
            Some(n) => n,
            None => rfc_offset(z.offset_seconds),
        } + "]"@
    }
}

/// A zoned datetime: the `jiff` value together with what its rendering
/// reads from it, read when it was made.
pub struct ZonedValue {
    inner: Zoned,
    datetime: CivilDateTime,
    instant: Instant,
    offset_seconds: i32,
    zone_name: Option<String>,
    unknown: bool,
}

impl View for ZonedValue {
    type V = ZonedView;

    closed spec fn view(&self) -> ZonedView {
        ZonedView {
            datetime: self.datetime,
            instant: self.instant,
            offset_seconds: self.offset_seconds as int,
            zone_name: match self.zone_name {
                Some(n) => Some(n@),
                None => None,
            },
            unknown: self.unknown,
        }
    }
}

impl ZonedValue {
    /// The instant of the zoned datetime.
    pub fn instant(&self) -> (r: Instant)
        ensures
            r == self@.instant,
    {
        self.instant
    }

    /// The `jiff` value, for calls that hand it on to `jiff`.
    pub fn as_jiff(&self) -> &Zoned {
        &self.inner
    }
}

/// Reads what a rendering reads from a `jiff` zoned datetime (`datetime`,
/// `timestamp`, `offset` and its zone's `iana_name` and `is_unknown`).
#[verifier::external_body]
pub(crate) fn zoned_value(z: Zoned) -> ZonedValue {
    let (t, x) = (z.timestamp(), z.datetime());
    let date = CivilDate { year: x.year(), month: x.month(), day: x.day() };
    let (hour, minute, second) = (x.hour(), x.minute(), x.second());
    let time = CivilTime { hour, minute, second, subsec_nanosecond: x.subsec_nanosecond() };
    ZonedValue {
        datetime: CivilDateTime { date, time },
        instant: Instant { second: t.as_second(), nanosecond: t.subsec_nanosecond() },
        offset_seconds: z.offset().seconds(),
        zone_name: z.time_zone().iana_name().map(|n| n.to_string()),
        unknown: z.time_zone().is_unknown(),
        inner: z,
    }
}

/// The message `TimeZone::tzif` gives for this name and data, or `None` when
/// the data is accepted.
pub uninterp spec fn tzif_error(name: Seq<char>, data: Seq<u8>) -> Option<Seq<char>>;

/// Parses a zoned datetime with `DateTimeParser::parse_zoned`. Which texts
/// parse depends on the host's time zone database, so only what holds of
/// every outcome is stated: a zoned datetime `jiff` yields is well formed,
/// and (as `jiff` documents) input without a bracketed time zone annotation
/// never parses, so input without a `[` byte fails.
#[verifier::external_body]
pub(crate) fn parse_zoned(input: &[u8]) -> (r: Result<ZonedValue, String>)
    ensures
        r matches Ok(z) ==> z@.wf(),
        !input@.contains(91u8) ==> r is Err,
{
    match DateTimeParser::new().parse_zoned(input) {
        Ok(z) => Ok(zoned_value(z)),
        Err(e) => Err(e.to_string()),
    }
}

/// Parses a zoned datetime with `Zoned::from_str` (the same parser). As for
/// `parse_zoned`: a zoned datetime it yields is well formed, and a text
/// without a `[` (no bracketed time zone annotation) fails.
#[verifier::external_body]
pub(crate) fn zoned_from_str(text: &str) -> (r: Result<ZonedValue, String>)
    ensures
        r matches Ok(z) ==> z@.wf(),
        !text@.contains('[') ==> r is Err,
{
    match text.parse::<Zoned>() {
        Ok(z) => Ok(zoned_value(z)),
        Err(e) => Err(e.to_string()),
    }
}

/// Renders a zoned datetime with its `Display` implementation, which prints
/// the datetime as `DateTime` does, then the offset rounded to the minute
/// and the zone annotation, as `zoned_display` states.
#[verifier::external_body]
pub(crate) fn zoned_text(z: &ZonedValue) -> (r: String)
    ensures
        r@ == zoned_display(z@),
{
    z.as_jiff().to_string()
}

/// Which time zone a zone value is: UTC, the host's configured zone, the
/// zone the host's database gives for a name (the name as asked for), or the
/// zone read from TZif data under a name.
pub enum ZoneId {
    Utc,
    System,
    Named(Seq<char>),
    Tzif(Seq<char>),
}

/// How a time zone value was obtained: the executable form of [`ZoneId`].
#[derive(Clone, Debug)]
pub enum ZoneKind {
    Utc,
    System,
    Named(String),
    Tzif(String),
}

/// A time zone: the `jiff` value together with which zone it is.
pub struct ZoneValue {
    inner: TimeZone,
    kind: ZoneKind,
}

impl View for ZoneValue {
    type V = ZoneId;

    closed spec fn view(&self) -> ZoneId {
        match self.kind {
            ZoneKind::Utc => ZoneId::Utc,
            ZoneKind::System => ZoneId::System,
            ZoneKind::Named(n) => ZoneId::Named(n@),
            ZoneKind::Tzif(n) => ZoneId::Tzif(n@),
        }
    }
}

impl ZoneValue {
    /// The `jiff` value, for calls that hand it on to `jiff`.
    pub fn as_jiff(&self) -> &TimeZone {
        &self.inner
    }
}

/// The civil datetimes a UTC zoned datetime can carry: from
/// `-9999-01-02T01:59:59` to `9999-12-30T22:00:00.999999999`, the range of
/// `Timestamp` seen at offset zero.
pub open spec fn utc_in_range(dt: CivilDateTime) -> bool {
    let key = |x: CivilDateTime|
        seq![
            x.date.year as int,
            x.date.month as int,
            x.date.day as int,
            x.time.hour as int,
            x.time.minute as int,
            x.time.second as int,
            x.time.subsec_nanosecond as int,
        ];
    lex_le(seq![-9999, 1, 2, 1, 59, 59, 0], key(dt)) && lex_le(
        key(dt),
        seq![9999, 12, 30, 22, 0, 0, 999_999_999],
    )
}

/// Lexicographic order of integer sequences of the same length.
pub open spec fn lex_le(a: Seq<int>, b: Seq<int>) -> bool
    decreases a.len(),
{
    if a.len() == 0 || b.len() == 0 {
        true
    } else if a[0] != b[0] {
        a[0] < b[0]
    } else {
        lex_le(a.drop_first(), b.drop_first())
    }
}

/// Clones a time zone value (`TimeZone::clone`): the same zone.
#[verifier::external_body]
pub(crate) fn clone_zone(z: &ZoneValue) -> (r: ZoneValue)
    ensures
        r@ == z@,
{
    ZoneValue { inner: z.inner.clone(), kind: z.kind.clone() }
}

/// Calls `TimeZone::get`, which looks the name up in the host's time zone
/// database: whether it finds one is not stated; a zone it finds is the one
/// the database gives for that name.
#[verifier::external_body]
pub(crate) fn tz_get(name: &str) -> (r: Result<ZoneValue, String>)
    ensures
        r matches Ok(z) ==> z@ == ZoneId::Named(name@),
{
    match TimeZone::get(name) {
        Ok(tz) => Ok(ZoneValue { inner: tz, kind: ZoneKind::Named(name.to_string()) }),
        Err(e) => Err(e.to_string()),
    }
}

/// Calls `TimeZone::system`, the host's configured zone.
#[verifier::external_body]
pub(crate) fn tz_system() -> (r: ZoneValue)
    ensures
        r@ == ZoneId::System,
{
    ZoneValue { inner: TimeZone::system(), kind: ZoneKind::System }
}

/// The constant `TimeZone::UTC`.
#[verifier::external_body]
pub(crate) fn tz_utc() -> (r: ZoneValue)
    ensures
        r@ == ZoneId::Utc,
{
    ZoneValue { inner: TimeZone::UTC, kind: ZoneKind::Utc }
}

/// Calls `TimeZone::tzif`, which reads a TZif blob and names the zone with
/// the name given; whether it is accepted, and the error message when not,
/// is the named `tzif_error`.
#[verifier::external_body]
pub(crate) fn tz_tzif(name: &str, data: &[u8]) -> (r: Result<ZoneValue, String>)
    ensures
        match r {
            Ok(z) => tzif_error(name@, data@) is None && z@ == ZoneId::Tzif(name@),
            Err(e) => tzif_error(name@, data@) == Some(e@),
        },
{
    match TimeZone::tzif(name, data) {
        Ok(tz) => Ok(ZoneValue { inner: tz, kind: ZoneKind::Tzif(name.to_string()) }),
        Err(e) => Err(e.to_string()),
    }
}

/// Calls `DateTime::to_zoned`. In general the outcome depends on the zone's
/// rules, which are not visible here; a zoned datetime it yields is well
/// formed, and (by the `compatible` disambiguation `to_zoned` applies, which
/// keeps a datetime that falls in a fold and moves one that falls in a gap
/// forward) its datetime is not earlier than the one given. In UTC (a single offset of zero, named `UTC`) it succeeds exactly
/// when the datetime lies in `utc_in_range`, keeping the datetime. A TZif
/// zone's zoned datetimes carry the zone's name.
#[verifier::external_body]
pub(crate) fn datetime_to_zoned(dt: CivilDateTime, tz: ZoneValue) -> (r: Result<
    ZonedValue,
    String,
>)
    requires
        dt.wf(),
    ensures
        r matches Ok(z) ==> z@.wf(),
        r matches Ok(z) ==> dt.local_nanos() <= z@.datetime.local_nanos(),
        tz@ == ZoneId::Utc ==> (r is Ok <==> utc_in_range(dt)),
        tz@ == ZoneId::Utc ==> (r matches Ok(z) ==> z@.datetime == dt && z@.offset_seconds == 0
            && z@.zone_name == Some("UTC"@) && !z@.unknown),
        tz@ matches ZoneId::Tzif(n) ==> (r matches Ok(z) ==> z@.zone_name == Some(n)
            && !z@.unknown),
{
    let t = dt.time;
    let x = DateTime::from_parts(
        Date::constant(dt.date.year, dt.date.month, dt.date.day),
        Time::constant(t.hour, t.minute, t.second, t.subsec_nanosecond),
    );
    match x.to_zoned(tz.inner) {
        Ok(z) => Ok(zoned_value(z)),
        Err(e) => Err(e.to_string()),
    }
}

/// Calls `Timestamp::to_zoned`, which never fails and keeps the instant. In
/// UTC the offset is zero and the zone is named `UTC`; a TZif zone's zoned
/// datetimes carry the zone's name.
#[verifier::external_body]
pub(crate) fn instant_to_zoned(t: Instant, tz: ZoneValue) -> (r: ZonedValue)
    requires
        t.wf(),
    ensures
        r@.wf(),
        r@.instant == t,
        tz@ == ZoneId::Utc ==> r@.offset_seconds == 0 && r@.zone_name == Some("UTC"@)
            && !r@.unknown,
        tz@ matches ZoneId::Tzif(n) ==> r@.zone_name == Some(n) && !r@.unknown,
{
    zoned_value(Timestamp::constant(t.second, t.nanosecond).to_zoned(tz.inner))
}

/// Calls `Zoned::in_tz`, which looks the name up in the host's time zone
/// database (the outcome is not stated) and keeps the instant.
#[verifier::external_body]
pub(crate) fn zoned_in_tz(z: &ZonedValue, name: &str) -> (r: Result<ZonedValue, String>)
    ensures
        r matches Ok(x) ==> x@.wf() && x@.instant == z@.instant,
{
    match z.as_jiff().in_tz(name) {
        Ok(x) => Ok(zoned_value(x)),
        Err(e) => Err(e.to_string()),
    }
}

/// Calls `Zoned::strptime` (`strtime::parse`, then `to_zoned`), which may
/// consult the host's time zone database; the outcome is not stated, but a
/// zoned datetime it yields is well formed.
#[verifier::external_body]
pub(crate) fn strptime_zoned(format: &[u8], input: &[u8]) -> (r: Result<ZonedValue, String>)
    ensures
        r matches Ok(z) ==> z@.wf(),
{
    match Zoned::strptime(format, input) {
        Ok(z) => Ok(zoned_value(z)),
        Err(e) => Err(e.to_string()),
    }
}

/// Reads the system clock (`SystemTime::now`) and converts it with
/// `Timestamp::try_from`, which fails (here `None`) when the clock lies
/// outside the range `jiff` supports; an instant it yields is in range.
/// Which instant is the clock's, and is not stated.
#[verifier::external_body]
pub(crate) fn instant_now() -> (r: Option<Instant>)
    ensures
        r matches Some(t) ==> t.wf(),
{
    match Timestamp::try_from(std::time::SystemTime::now()) {
        Ok(t) => Some(Instant { second: t.as_second(), nanosecond: t.subsec_nanosecond() }),
        Err(_) => None,
    }
}

/// Calls `TimeZone::following(after).next()`: the first offset change of
/// the zone after `after`, if any; and, for that change, calls
/// `TimeZone::preceding(..).next()` at its instant: the zone's latest change
/// strictly before it, if any. Which changes they are depends on the zone's
/// rules, which are not visible here. As `jiff` documents, the first lies
/// strictly later than `after` (and in range), and its offset lies within
/// the bounds of `Offset` (25:59:59 either way). Both walks read the same
/// table of transitions (and, past its end, the same POSIX rule), and the
/// change found is the first one after `after`, so the change preceding it
/// lies at or before `after`: no change of the zone lies strictly between
/// `after` and the one returned.
#[verifier::external_body]
pub(crate) fn next_transition(tz: &ZoneValue, after: Instant) -> (r: Option<FoundTransition>)
    requires
        after.wf(),
    ensures
        r matches Some(f) ==> f.found().at.wf() && f.found().at.total_nanos() > after.total_nanos()
            && -offset_limit() <= f.found().offset_seconds <= offset_limit() && (
        f.preceding() matches Some(q) ==> q.wf() && q.total_nanos() <= after.total_nanos()),
{
    let jz = tz.as_jiff();
    let t = jz.following(Timestamp::constant(after.second, after.nanosecond)).next()?;
    let (ts, q) = (t.timestamp(), jz.preceding(t.timestamp()).next());
    let p = match q {
        Some(q) => Some(Instant { second: q.timestamp().as_second(), nanosecond: q.timestamp().subsec_nanosecond() }),
        None => None,
    };
    let at = Instant { second: ts.as_second(), nanosecond: ts.subsec_nanosecond() };
    let (abbreviation, dst) = (t.abbreviation().to_string(), t.dst().is_dst());
    let transition = Transition { at, offset_seconds: t.offset().seconds(), abbreviation, dst };
    Some(FoundTransition { transition, preceding: p })
}

/// Renders a UTC offset of `secs` seconds with `Offset`'s `Display`
/// implementation, as `offset_display` states; `Offset::from_seconds` fails
/// (here `None`) beyond 25:59:59 either way.
#[verifier::external_body]
pub(crate) fn offset_text(secs: i32) -> (r: Option<String>)
    ensures
        match r {
            Some(t) => -offset_limit() <= secs <= offset_limit() && t@ == offset_display(
                secs as int,
            ),
            None => !(-offset_limit() <= secs <= offset_limit()),
        },
{
    match Offset::from_seconds(secs) {
        Ok(o) => Some(o.to_string()),
        Err(_) => None,
    }
}

} // verus!
