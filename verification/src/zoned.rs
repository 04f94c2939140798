//! The zoned-datetime and time zone functions: reading a zoned datetime,
//! `strptime`, time zone lookup, building a zoned datetime, converting it to
//! another zone, and the collation that orders zoned datetimes.

use vstd::prelude::*;

use crate::date::{date_from_value_spec, jiff_date_from_value};
use crate::datetime::{datetime_from_parts, datetime_from_value, datetime_from_value_spec};
use crate::jiff_civil::{datetime_display, strtime_matches, strtime_parses};
use crate::jiff_zone::{
    datetime_to_zoned, instant_to_zoned, parse_zoned, zoned_from_str, tz_get, tz_system,
    tz_tzif, tz_utc, tzif_error, strptime_zoned, utc_in_range, rfc_offset, zoned_display,
    zoned_in_tz, zoned_text, clone_zone, ZoneId, ZoneValue, ZonedValue, ZonedView,
};
use crate::model::{CivilDate, CivilDateTime, CivilTime, Instant};
use crate::names::{zone_choice, zone_choice_spec, ZoneChoice};
use crate::sql::{arg_text, msg, read_text, Failure, FailureView, SqlArg, SqlKind};
use crate::text::{concat, concat3, lowercase, to_lowercase};
use crate::time::{jiff_time_from_value, jiff_time_from_value_spec};
use crate::timestamp::{timestamp_from_value, timestamp_from_value_spec};


verus! {

/// Reads a zoned datetime from its RFC 9557 text (such as
/// `2024-01-01T00:00:00-05:00[America/New_York]`). Which texts are accepted
/// depends on the host's time zone database.
pub fn jiff_zoned_from_value(text: &str) -> (r: Result<ZonedValue, Failure>)
    ensures
        r matches Ok(z) ==> z@.wf(),
        r matches Err(e) ==> e is Message,
        !text@.contains('[') ==> r is Err,
{
    match zoned_from_str(text) {
        Ok(z) => Ok(z),
        Err(e) => Err(Failure::Message(e)),
    }
}

/// The text a zoned datetime result carries: its RFC 9557 rendering.
pub fn result_zoned(z: &ZonedValue) -> (r: String)
    ensures
        r@ == zoned_display(z@),
{
    zoned_text(z)
}

/// The SQL function `jiff_zoned_strptime`: the zoned datetime `input` gives
/// under `format`, as text; nothing (SQL `NULL`) when it does not match.
pub fn jiff_zoned_strptime(format: &[u8], input: &[u8]) -> (r: Result<Option<String>, Failure>)
    ensures
        !strtime_parses(format@, input@) <==> r matches Ok(None),
        r matches Ok(Some(t)) ==> exists|x: ZonedView| x.wf() && t@ == zoned_display(x),
        r matches Err(e) ==> e is Message,
{
    if !strtime_matches(format, input) {
        return Ok(None);
    }
    match strptime_zoned(format, input) {
        Ok(z) => {
            let t = result_zoned(&z);
            assert(z@.wf() && t@ == zoned_display(z@));
            Ok(Some(t))
        },
        Err(e) => Err(Failure::Message(e)),
    }
}

/// The SQL function `jiff_timezone_is_available`: whether the host's time
/// zone database knows the name.
pub fn jiff_timezone_is_available(name: &str) -> bool {
    tz_get(name).is_ok()
}

/// The SQL function `tzif`: the time zone a TZif blob describes, under the
/// given name; refused, with `jiff`'s message, when the blob is not valid.
pub fn tzif(name: &str, data: &[u8]) -> (r: Result<ZoneValue, Failure>)
    ensures
        match tzif_error(name@, data@) {
            None => r matches Ok(z) && z@ == ZoneId::Tzif(name@),
            Some(m) => r matches Err(e) && e@ == msg(m),
        },
{
    match tz_tzif(name, data) {
        Ok(tz) => Ok(tz),
        Err(e) => Err(Failure::Message(e)),
    }
}

/// The message a failed time zone lookup gives starts with this text.
pub open spec fn unresolved_prefix(lower: Seq<char>) -> Seq<char> {
    "Could not resolve timezone '"@ + lower + "': "@
}

/// The zone a time zone name selects: `utc` and `z` select UTC, `system`
/// and `local` the host's zone, and any other (lowercase) name the zone the
/// host's database gives for it.
pub open spec fn zone_of_name(lower: Seq<char>) -> ZoneId {
    if zone_choice_spec(lower) == 0 {
        ZoneId::Utc
    } else if zone_choice_spec(lower) == 1 {
        ZoneId::System
    } else {
        ZoneId::Named(lower)
    }
}

/// Which zone an optional zone value is.
pub open spec fn zone_ids(z: Option<&ZoneValue>) -> Option<ZoneId> {
    match z {
        Some(v) => Some(v@),
        None => None,
    }
}

/// The zone a time zone argument selects, where it selects one: the zone of
/// its text read in any letter case, or for `NULL` the zone attached to it.
pub open spec fn zone_arg_id(arg: SqlArg, attached: Option<ZoneId>) -> Option<ZoneId> {
    if arg.kind == SqlKind::Text {
        match arg_text(arg) {
            Ok(t) => Some(zone_of_name(lowercase(t))),
            Err(_) => None,
        }
    } else if arg.kind == SqlKind::Null {
        attached
    } else {
        None
    }
}

/// Reads the time zone an argument gives. A text names a zone in any letter
/// case (`utc` and `z` for UTC, `system` and `local` for the host's zone,
/// others looked up); a `NULL` passes on the zone a `tzif` call attached to
/// it (`attached`); other kinds of value stop the call.
pub fn timezone_from_value(arg: &SqlArg, attached: Option<&ZoneValue>) -> (r: Result<
    ZoneValue,
    Failure,
>)
    ensures
        r matches Ok(z) ==> zone_arg_id(*arg, zone_ids(attached)) == Some(z@),
        arg.kind == SqlKind::Null ==> (attached is Some <==> r is Ok),
        arg.kind == SqlKind::Null && attached is None ==> (r matches Err(e) && e@ == msg(
            "no timezone found"@,
        )),
        arg.kind == SqlKind::Text ==> match arg_text(*arg) {
            Err(f) => r matches Err(e) && e@ == f,
            Ok(t) => (zone_choice_spec(lowercase(t)) != 2 ==> r is Ok) && match r {
                Ok(_) => true,
                Err(Failure::Message(m)) => exists|e: Seq<char>|
                    m@ == unresolved_prefix(lowercase(t)) + e,
                Err(_) => false,
            },
        },
        arg.kind != SqlKind::Null && arg.kind != SqlKind::Text ==> r matches Err(Failure::Halt),
{
    match arg.kind {
        SqlKind::Text => {
            let t = read_text(arg)?;
            let lower = to_lowercase(t);
            match zone_choice(lower.as_str()) {
                ZoneChoice::Utc => Ok(tz_utc()),
                ZoneChoice::System => Ok(tz_system()),
                ZoneChoice::Named(zone) => match tz_get(zone.as_str()) {
                    Ok(tz) => Ok(tz),
                    Err(e) => {
                        let head = concat3("Could not resolve timezone '", zone.as_str(), "': ");
                        let m = concat(head.as_str(), e.as_str());
                        assert(m@ == unresolved_prefix(lower@) + e@);
                        Err(Failure::Message(m))
                    },
                },
            }
        },
        SqlKind::Null => match attached {
            Some(tz) => Ok(clone_zone(tz)),
            None => Err(Failure::Message("no timezone found".to_owned())),
        },
        _ => Err(Failure::Halt),
    }
}

/// Whether a time zone argument certainly resolves: it names UTC or the
/// host's zone, or it is `NULL` and a zone is attached to it.
pub open spec fn zone_arg_resolves(arg: SqlArg, attached: bool) -> bool {
    ||| arg.kind == SqlKind::Null && attached
    ||| arg.kind == SqlKind::Text && (arg_text(arg) matches Ok(t) && zone_choice_spec(lowercase(t))
        != 2)
}

/// How reading a time zone argument fails, where the failure does not depend
/// on the host's time zone database.
pub open spec fn zone_arg_failure(arg: SqlArg, attached: bool) -> Option<FailureView> {
    if arg.kind == SqlKind::Null {
        if attached {
            None
        } else {
            Some(msg("no timezone found"@))
        }
    } else if arg.kind == SqlKind::Text {
        match arg_text(arg) {
            Err(f) => Some(f),
            Ok(_) => None,
        }
    } else {
        Some(FailureView::Halt)
    }
}

/// The rendering of a datetime in UTC: the datetime, the offset `+00:00`,
/// and the zone annotation `[UTC]`.
pub open spec fn utc_display(dt: CivilDateTime) -> Seq<char> {
    datetime_display(dt) + (rfc_offset(0) + "["@ + "UTC"@ + "]"@)
}

/// The outcome of placing a datetime in UTC: its rendering there, or an
/// error where the datetime lies outside the instants `jiff` supports. The
/// three-argument form of `jiff_zoned` places the datetime that joins its
/// date and its time of day, so in UTC it agrees with the two-argument form
/// given that datetime.
pub open spec fn placed_in_utc(dt: CivilDateTime, r: Result<String, Failure>) -> bool {
    if utc_in_range(dt) {
        r matches Ok(o) && o@ == utc_display(dt)
    } else {
        r matches Err(Failure::Message(_))
    }
}

/// In UTC, `jiff_zoned` given a date and a time of day agrees with
/// `jiff_zoned` given the datetime that joins them: the two outcomes succeed
/// together, with the same text, or fail together.
pub proof fn lemma_utc_forms_agree(
    d: CivilDate,
    t: CivilTime,
    joined: Result<String, Failure>,
    parts: Result<String, Failure>,
)
    requires
        placed_in_utc(CivilDateTime { date: d, time: t }, joined),
        placed_in_utc(CivilDateTime { date: d, time: t }, parts),
    ensures
        joined is Ok <==> parts is Ok,
        joined matches Ok(x) ==> (parts matches Ok(y) && x@ == y@),
{
}

/// A text is the rendering of a well-formed zoned datetime in the TZif zone
/// named `n`.
pub open spec fn rendered_in_tzif(o: Seq<char>, n: Seq<char>) -> bool {
    exists|x: ZonedView| x.wf() && x.zone_name == Some(n) && !x.unknown && o == zoned_display(x)
}

/// A text is the rendering of a well-formed zoned datetime whose datetime
/// is not earlier than `dt`: what placing `dt` in any zone gives (a datetime
/// in a gap of the zone moves forward, one in a fold stays).
pub open spec fn placed_not_earlier(o: Seq<char>, dt: CivilDateTime) -> bool {
    exists|x: ZonedView|
        x.wf() && dt.local_nanos() <= x.datetime.local_nanos() && o == zoned_display(x)
}

/// A well-formed zoned datetime whose zone has a name renders as a zoned
/// datetime of the zone of that name.
proof fn lemma_rendered_in_its_zone(z: ZonedView)
    requires
        z.wf(),
    ensures
        match z.zone_name {
            Some(n) => !z.unknown ==> rendered_in_tzif(zoned_display(z), n),
            None => true,
        },
{
    if let Some(n) = z.zone_name {
        if !z.unknown {
            assert(rendered_in_tzif(zoned_display(z), n));
        }
    }
}

/// The SQL function `jiff_zoned`. With two arguments: the datetime (or,
/// failing that, the instant) the first names, placed in the zone of the
/// second; a first argument that is neither stops the call. With three: the
/// date and time of day the first two name, placed in the zone of the third.
/// The zone is read before the value with two arguments and after it with
/// three.
pub fn jiff_zoned(args: &Vec<SqlArg>, attached: Option<&ZoneValue>) -> (r: Result<String, Failure>)
    requires
        args.len() == 2 || args.len() == 3,
    ensures
        args.len() == 2 ==> match zone_arg_failure(args@[1], attached is Some) {
            Some(f) => r matches Err(e) && e@ == f,
            None => r is Ok ==> (arg_text(args@[0]) matches Ok(t) && (datetime_from_value_spec(
                t,
            ) is Ok || timestamp_from_value_spec(t) is Ok)),
        },
        args.len() == 2 && zone_arg_resolves(args@[1], attached is Some) ==> match arg_text(
            args@[0],
        ) {
            Err(f) => r matches Err(e) && e@ == f,
            Ok(t) => match datetime_from_value_spec(t) {
                Ok(_) => r is Ok || r matches Err(Failure::Message(_)),
                Err(_) => match timestamp_from_value_spec(t) {
                    Ok(ts) => (r matches Ok(o) && exists|x: ZonedView|
                        x.wf() && x.instant == ts && o@ == zoned_display(x)),
                    Err(_) => r matches Err(Failure::Halt),
                },
            },
        },
        args.len() == 3 ==> match arg_text(args@[0]) {
            Err(f) => r matches Err(e) && e@ == f,
            Ok(t) => match date_from_value_spec(t) {
                Err(f) => r matches Err(e) && e@ == f,
                Ok(_) => match arg_text(args@[1]) {
                    Err(f) => r matches Err(e) && e@ == f,
                    Ok(u) => match jiff_time_from_value_spec(u) {
                        Err(f) => r matches Err(e) && e@ == f,
                        Ok(_) => match zone_arg_failure(args@[2], attached is Some) {
                            Some(f) => r matches Err(e) && e@ == f,
                            None => zone_arg_resolves(args@[2], attached is Some) ==> (r is Ok
                                || r matches Err(Failure::Message(_))),
                        },
                    },
                },
            },
        },
        r matches Ok(o) ==> exists|x: ZonedView| x.wf() && o@ == zoned_display(x),
        args.len() == 2 && zone_arg_id(args@[1], zone_ids(attached)) == Some(ZoneId::Utc) && zone_arg_failure(
            args@[1],
            attached is Some,
        ) is None ==> match arg_text(args@[0]) {
            Ok(t) => match datetime_from_value_spec(t) {
                Ok(dt) => placed_in_utc(dt, r),
                Err(_) => true,
            },
            Err(_) => true,
        },
        args.len() == 3 && zone_arg_id(args@[2], zone_ids(attached)) == Some(ZoneId::Utc) && zone_arg_failure(
            args@[2],
            attached is Some,
        ) is None ==> match (arg_text(args@[0]), arg_text(args@[1])) {
            (Ok(a), Ok(b)) => match (date_from_value_spec(a), jiff_time_from_value_spec(b)) {
                (Ok(d), Ok(t)) => placed_in_utc(CivilDateTime { date: d, time: t }, r),
                _ => true,
            },
            _ => true,
        },
        args.len() == 2 ==> match arg_text(args@[0]) {
            Ok(t) => match datetime_from_value_spec(t) {
                Ok(dt) => (r matches Ok(o) ==> placed_not_earlier(o@, dt)),
                Err(_) => true,
            },
            Err(_) => true,
        },
        args.len() == 3 ==> match (arg_text(args@[0]), arg_text(args@[1])) {
            (Ok(a), Ok(b)) => match (date_from_value_spec(a), jiff_time_from_value_spec(b)) {
                (Ok(d), Ok(t)) => (r matches Ok(o) ==> placed_not_earlier(
                    o@,
                    CivilDateTime { date: d, time: t },
                )),
                _ => true,
            },
            _ => true,
        },
        args.len() >= 2 ==> match zone_arg_id(args@[args.len() - 1], zone_ids(attached)) {
            Some(ZoneId::Tzif(n)) => (r matches Ok(o) ==> rendered_in_tzif(o@, n)),
            _ => true,
        },
{
    if args.len() == 2 {
        let zone = timezone_from_value(&args[1], attached)?;
        let text = read_text(&args[0])?;
        match datetime_from_value(text) {
            Ok(dt) => match datetime_to_zoned(dt, zone) {
                Ok(z) => {
                    let o = result_zoned(&z);
                    assert(z@.wf() && o@ == zoned_display(z@));
                    assert(placed_not_earlier(o@, dt));
                    proof {
                        lemma_rendered_in_its_zone(z@);
                    }
                    Ok(o)
                },
                Err(e) => Err(Failure::Message(e)),
            },
            Err(_) => match timestamp_from_value(text) {
                Ok(ts) => {
                    let z = instant_to_zoned(ts, zone);
                    let o = result_zoned(&z);
                    assert(z@.wf() && z@.instant == ts && o@ == zoned_display(z@));
                    proof {
                        lemma_rendered_in_its_zone(z@);
                    }
                    Ok(o)
                },
                Err(_) => Err(Failure::Halt),
            },
        }
    } else {
        let d = jiff_date_from_value(read_text(&args[0])?)?;
        let t = jiff_time_from_value(read_text(&args[1])?)?;
        let dt = datetime_from_parts(d, t);
        let tz = timezone_from_value(&args[2], attached)?;
        match datetime_to_zoned(dt, tz) {
            Ok(z) => {
                let o = result_zoned(&z);
                assert(z@.wf() && o@ == zoned_display(z@));
                assert(placed_not_earlier(o@, dt));
                proof {
                    lemma_rendered_in_its_zone(z@);
                }
                Ok(o)
            },
            Err(e) => Err(Failure::Message(e)),
        }
    }
}

/// The SQL function `jiff_zoned_in_tz`: the same instant as the zoned
/// datetime the first text names, in the zone the second argument names
/// (read after the first).
pub fn jiff_zoned_in_tz(text: &str, zone: &SqlArg) -> (r: Result<String, Failure>)
    ensures
        arg_text(*zone) is Err ==> r is Err,
        !text@.contains('[') ==> r matches Err(Failure::Message(_)),
        r matches Ok(t) ==> exists|p: ZonedView, x: ZonedView|
            p.wf() && x.wf() && x.instant == p.instant && t@ == zoned_display(x),
        r matches Err(e) ==> (e is Message || (e is BadText && arg_text(*zone) is Err)),
{
    let z = jiff_zoned_from_value(text)?;
    let name = read_text(zone)?;
    match zoned_in_tz(&z, name) {
        Ok(x) => {
            let t = result_zoned(&x);
            assert(z@.wf() && x@.wf() && x@.instant == z@.instant && t@ == zoned_display(x@));
            Ok(t)
        },
        Err(e) => Err(Failure::Message(e)),
    }
}

/// The order of two instants: -1, 0 or 1 as the first is earlier than,
/// the same as, or later than the second (by seconds, then nanoseconds).
pub open spec fn instant_order(x: Instant, y: Instant) -> int {
    if x.second < y.second || (x.second == y.second && x.nanosecond < y.nanosecond) {
        -1
    } else if x.second == y.second && x.nanosecond == y.nanosecond {
        0
    } else {
        1
    }
}

/// The collation order of two texts by the instants of the zoned datetimes
/// they name (`None` for one that names none): texts that name one sort
/// before texts that do not, and two texts that name none compare as later.
pub open spec fn collation_spec(x: Option<Instant>, y: Option<Instant>) -> int {
    match (x, y) {
        (Some(a), Some(b)) => instant_order(a, b),
        (Some(_), None) => -1,
        (None, Some(_)) => 1,
        (None, None) => 1,
    }
}

/// The collation order of two texts, given the instants of the zoned
/// datetimes they name.
pub fn zoned_collation(x: Option<Instant>, y: Option<Instant>) -> (r: i32)
    ensures
        r == collation_spec(x, y),
{
    match (x, y) {
        (Some(a), Some(b)) => {
            if a.second < b.second || (a.second == b.second && a.nanosecond < b.nanosecond) {
                -1
            } else if a.second == b.second && a.nanosecond == b.nanosecond {
                0
            } else {
                1
            }
        },
        (Some(_), None) => -1,
        (None, Some(_)) => 1,
        (None, None) => 1,
    }
}

/// The instant of the zoned datetime some bytes name, if they name one.
fn zoned_instant_of(text: &[u8]) -> (r: Option<Instant>)
    ensures
        r matches Some(t) ==> t.wf(),
        !text@.contains(91u8) ==> r is None,
{
    match parse_zoned(text) {
        Ok(z) => Some(z.instant()),
        Err(_) => None,
    }
}

/// The collation `jiff_zoned_cmp`: orders two texts by the instants of the
/// zoned datetimes they name, as `zoned_collation` does. Which texts name
/// one depends on the host's time zone database.
pub fn jiff_zoned_cmp(a: &[u8], b: &[u8]) -> (r: i32)
    ensures
        exists|x: Option<Instant>, y: Option<Instant>|
            r == collation_spec(x, y) && (!a@.contains(91u8) ==> x is None) && (!b@.contains(91u8)
                ==> y is None),
{
    let x = zoned_instant_of(a);
    let y = zoned_instant_of(b);
    zoned_collation(x, y)
}

/// For valid instants, the collation order is the order of the instants on
/// the time line: it agrees with comparing their total nanoseconds.
pub proof fn lemma_instant_order_is_time_order(x: Instant, y: Instant)
    requires
        x.wf(),
        y.wf(),
    ensures
        instant_order(x, y) == -1 <==> x.total_nanos() < y.total_nanos(),
        instant_order(x, y) == 0 <==> x.total_nanos() == y.total_nanos(),
        instant_order(x, y) == 1 <==> x.total_nanos() > y.total_nanos(),
{
}

/// The collation is antisymmetric on texts that both name zoned datetimes:
/// swapping them negates the order.
pub proof fn lemma_collation_antisymmetric(x: Instant, y: Instant)
    ensures
        collation_spec(Some(x), Some(y)) == -collation_spec(Some(y), Some(x)),
{
}

/// The collation is transitive on texts that name zoned datetimes: if the
/// first sorts no later than the second and the second no later than the
/// third, the first sorts no later than the third.
pub proof fn lemma_collation_transitive(x: Instant, y: Instant, z: Instant)
    requires
        collation_spec(Some(x), Some(y)) <= 0,
        collation_spec(Some(y), Some(z)) <= 0,
    ensures
        collation_spec(Some(x), Some(z)) <= 0,
{
}

} // verus!
