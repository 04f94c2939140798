use sqlite_jiff::model::Instant;
use sqlite_jiff::span::{jiff_add, jiff_until};
use sqlite_jiff::sql::{Failure, SqlArg, SqlKind};
use sqlite_jiff::timestamp::{
    jiff_timestamp, jiff_timestamp_from_ms, jiff_timestamp_strptime, result_timestamp,
    timestamp_from_value,
};
use sqlite_jiff::zoned::{
    jiff_timezone_is_available, jiff_zoned, jiff_zoned_cmp, jiff_zoned_from_value,
    jiff_zoned_in_tz, jiff_zoned_strptime, result_zoned, timezone_from_value, tzif,
    zoned_collation,
};

fn text(s: &str) -> SqlArg {
    SqlArg { kind: SqlKind::Text, text: Some(s.to_string()), int: 0, int64: 0 }
}

fn null() -> SqlArg {
    SqlArg { kind: SqlKind::Null, text: None, int: 0, int64: 0 }
}

fn integer(i: i64) -> SqlArg {
    SqlArg { kind: SqlKind::Integer, text: Some(i.to_string()), int: i as i32, int64: i }
}

fn hex(s: &str) -> Vec<u8> {
    (0..s.len()).step_by(2).map(|i| u8::from_str_radix(&s[i..i + 2], 16).unwrap()).collect()
}

const PLUS_0545: &str = "545a696632000000000000000000000000000000000000000000000000000000000000000000000100000004000050dc00004e505400545a696632000000000000000000000000000000000000000000000000000000000000000000000100000004000050dc00004e5054000a3c2b303534353e2d353a34350a";

#[test]
fn zoned_from_datetime_and_zone_name() {
    assert_eq!(
        jiff_zoned(&vec![text("2024-11-02T01:59:59"), text("utc")], None).unwrap(),
        "2024-11-02T01:59:59+00:00[UTC]"
    );
    assert_eq!(
        jiff_zoned(&vec![text("2024-07-01T12:00:00"), text("America/New_York")], None).unwrap(),
        "2024-07-01T12:00:00-04:00[America/New_York]"
    );
    assert_eq!(
        jiff_zoned(&vec![text("2024-01-01T00:00:00Z"), text("Z")], None).unwrap(),
        "2024-01-01T00:00:00+00:00[UTC]"
    );
}

#[test]
fn zoned_from_date_time_and_zone() {
    assert_eq!(
        jiff_zoned(&vec![text("2024-07-01"), text("12:00"), text("America/New_York")], None)
            .unwrap(),
        "2024-07-01T12:00:00-04:00[America/New_York]"
    );
    assert!(matches!(
        jiff_zoned(&vec![text("July"), text("12:00"), text("utc")], None),
        Err(Failure::Message(_))
    ));
}

#[test]
fn zoned_from_an_attached_tzif_zone() {
    let tz = tzif("Custom/Plus0545", &hex(PLUS_0545)).unwrap();
    assert_eq!(
        jiff_zoned(&vec![text("2024-07-01T12:00:00"), null()], Some(&tz)).unwrap(),
        "2024-07-01T12:00:00+05:45[Custom/Plus0545]"
    );
    assert!(matches!(tzif("Broken", b"not tzif"), Err(Failure::Message(_))));
}

#[test]
fn zoned_refusals() {
    match jiff_zoned(&vec![text("2024-07-01T12:00:00"), text("Not/AZone")], None) {
        Err(Failure::Message(m)) => assert!(m.starts_with("Could not resolve timezone 'not/azone': ")),
        other => panic!("{:?}", other),
    }
    match jiff_zoned(&vec![text("2024-07-01T12:00:00"), null()], None) {
        Err(Failure::Message(m)) => assert_eq!(m, "no timezone found"),
        other => panic!("{:?}", other),
    }
    assert!(matches!(jiff_zoned(&vec![text("2024-07-01T12:00:00"), integer(5)], None), Err(Failure::Halt)));
    assert!(matches!(jiff_zoned(&vec![text("soon"), text("utc")], None), Err(Failure::Halt)));
}

#[test]
fn timezone_names_in_any_case() {
    assert!(timezone_from_value(&text("UTC"), None).is_ok());
    assert!(timezone_from_value(&text("Local"), None).is_ok());
    assert!(timezone_from_value(&text("europe/PARIS"), None).is_ok());
    assert!(timezone_from_value(&text("Mars/Olympus_Mons"), None).is_err());
    assert!(matches!(timezone_from_value(&integer(3), None), Err(Failure::Halt)));
}

#[test]
fn zoned_in_another_zone() {
    assert_eq!(
        jiff_zoned_in_tz("2024-07-01T12:00:00-04:00[America/New_York]", &text("UTC")).unwrap(),
        "2024-07-01T16:00:00+00:00[UTC]"
    );
    assert!(matches!(jiff_zoned_in_tz("noon", &text("UTC")), Err(Failure::Message(_))));
}

#[test]
fn timezone_availability() {
    assert!(jiff_timezone_is_available("America/New_York"));
    assert!(!jiff_timezone_is_available("Not/AZone"));
}

#[test]
fn zoned_strptime_reads_or_gives_null() {
    assert_eq!(
        jiff_zoned_strptime(b"%Y-%m-%d %H:%M %Q", b"2024-07-14 21:14 America/New_York").unwrap(),
        Some("2024-07-14T21:14:00-04:00[America/New_York]".to_string())
    );
    assert_eq!(jiff_zoned_strptime(b"%Y-%m-%d", b"14 July").unwrap(), None);
}

#[test]
fn collation_orders_by_instant() {
    let a = Instant { second: 10, nanosecond: 0 };
    let b = Instant { second: 10, nanosecond: 5 };
    assert_eq!(zoned_collation(Some(a), Some(b)), -1);
    assert_eq!(zoned_collation(Some(b), Some(a)), 1);
    assert_eq!(zoned_collation(Some(a), Some(a)), 0);
    assert_eq!(zoned_collation(Some(a), None), -1);
    assert_eq!(zoned_collation(None, Some(a)), 1);
    assert_eq!(zoned_collation(None, None), 1);
}

#[test]
fn collation_of_texts() {
    let ny = b"2024-07-01T12:00:00-04:00[America/New_York]";
    let utc = b"2024-07-01T16:00:00+00:00[UTC]";
    let later = b"2024-07-01T16:00:01+00:00[UTC]";
    assert_eq!(jiff_zoned_cmp(ny, utc), 0);
    assert_eq!(jiff_zoned_cmp(ny, later), -1);
    assert_eq!(jiff_zoned_cmp(later, ny), 1);
    assert_eq!(jiff_zoned_cmp(ny, b"junk"), -1);
    assert_eq!(jiff_zoned_cmp(b"junk", ny), 1);
    assert_eq!(jiff_zoned_cmp(b"junk", b"junk"), 1);
}

#[test]
fn add_to_zoned_crosses_daylight_saving() {
    assert_eq!(
        jiff_add(&vec![text("2024-03-10T01:30:00-05:00[America/New_York]"), text("1 hour")]).unwrap(),
        Some("2024-03-10T03:30:00-04:00[America/New_York]".to_string())
    );
}

#[test]
fn until_between_zoned_datetimes() {
    assert_eq!(
        jiff_until(&vec![
            text("2024-03-10T00:00:00-05:00[America/New_York]"),
            text("2024-03-10T04:00:00-04:00[America/New_York]"),
        ])
        .unwrap(),
        "3 hours"
    );
}

#[test]
fn timestamp_examples() {
    assert_eq!(
        jiff_timestamp(&vec![text("2024-01-01T23:57:00.123456Z")]).unwrap(),
        Some("2024-01-01T23:57:00.123456Z".to_string())
    );
    assert_eq!(jiff_timestamp(&vec![text("2024-01-01")]).unwrap(), None);
    let now = jiff_timestamp(&vec![]).unwrap().unwrap();
    assert!(now.ends_with('Z'));
    assert_eq!(
        jiff_timestamp_strptime(b"%Y-%m-%d %H:%M:%S %z", b"2024-01-01 00:00:00 +0000").unwrap(),
        Some("2024-01-01T00:00:00Z".to_string())
    );
    assert_eq!(jiff_timestamp_strptime(b"%Y", b"x").unwrap(), None);
}

#[test]
fn timestamp_from_milliseconds() {
    assert_eq!(jiff_timestamp_from_ms(0).unwrap(), "1970-01-01T00:00:00Z");
    assert_eq!(jiff_timestamp_from_ms(1234).unwrap(), "1970-01-01T00:00:01.234Z");
    assert_eq!(jiff_timestamp_from_ms(-1).unwrap(), "1969-12-31T23:59:59.999Z");
    assert!(matches!(jiff_timestamp_from_ms(i64::MAX), Err(Failure::Halt)));
    assert!(matches!(jiff_timestamp_from_ms(i64::MIN), Err(Failure::Halt)));
}

#[test]
fn timestamp_reading_and_rendering() {
    let t = timestamp_from_value("1970-01-01T00:00:01.5Z").unwrap();
    assert_eq!((t.second, t.nanosecond), (1, 500_000_000));
    assert_eq!(result_timestamp(Instant { second: -1, nanosecond: -250_000_000 }), "1969-12-31T23:59:58.75Z");
}

#[test]
fn zoned_values_render_in_rfc_9557_form() {
    let z = jiff_zoned_from_value("2024-07-01T12:00:00.5-04:00[America/New_York]").unwrap();
    assert_eq!(result_zoned(&z), "2024-07-01T12:00:00.5-04:00[America/New_York]");
    assert_eq!((z.instant().second, z.instant().nanosecond), (1719849600, 500_000_000));
    let fixed = jiff_zoned_from_value("2024-07-01T12:00:00+05:45[+05:45]").unwrap();
    assert_eq!(result_zoned(&fixed), "2024-07-01T12:00:00+05:45[+05:45]");
    let utc = jiff_zoned_from_value("2024-07-01T12:00:00Z[UTC]").unwrap();
    assert_eq!(result_zoned(&utc), "2024-07-01T12:00:00+00:00[UTC]");
    assert!(matches!(jiff_zoned_from_value("noon"), Err(Failure::Message(_))));
}

#[test]
fn zoned_in_tz_reads_the_zone_text() {
    let bad = SqlArg { kind: SqlKind::Blob, text: None, int: 0, int64: 0 };
    assert!(matches!(
        jiff_zoned_in_tz("2024-07-01T12:00:00-04:00[America/New_York]", &bad),
        Err(Failure::BadText)
    ));
}

#[test]
fn utc_forms_of_jiff_zoned_agree() {
    let joined = jiff_zoned(&vec![text("2024-03-10T02:30:00"), text("UTC")], None).unwrap();
    let parts = jiff_zoned(&vec![text("2024-03-10"), text("02:30:00"), text("utc")], None).unwrap();
    assert_eq!(joined, "2024-03-10T02:30:00+00:00[UTC]");
    assert_eq!(joined, parts);
}
