use sqlite_jiff::model::{SpanDesignator, SpanDirection, SpanSpacing, TimeUnit};
use sqlite_jiff::span::{
    add_span_to_civil, civil_between, jiff_add, jiff_since, jiff_span, jiff_span_format,
    jiff_span_round, jiff_span_total, jiff_until, span_format_options, span_from_value,
    add_to_reading, span_of_readings, span_round_options, Measure, ZonedPair,
};
use sqlite_jiff::sql::{Failure, SqlArg, SqlKind};
use sqlite_jiff::zoned::jiff_zoned_from_value;

fn text(s: &str) -> SqlArg {
    SqlArg { kind: SqlKind::Text, text: Some(s.to_string()), int: 0, int64: 0 }
}

fn integer(i: i64) -> SqlArg {
    SqlArg { kind: SqlKind::Integer, text: Some(i.to_string()), int: i as i32, int64: i }
}

fn message<T: std::fmt::Debug>(r: Result<T, Failure>) -> String {
    match r {
        Err(Failure::Message(m)) => m,
        other => panic!("expected a message, got {:?}", other),
    }
}

#[test]
fn span_is_rendered_verbosely() {
    assert_eq!(jiff_span("P2m10dT2h30m").unwrap(), "2 months, 10 days, 2 hours, 30 minutes");
    assert_eq!(jiff_span("5 minutes 10 seconds").unwrap(), "5 minutes, 10 seconds");
    assert!(matches!(jiff_span("five minutes"), Err(Failure::Message(_))));
}

#[test]
fn span_units_are_read() {
    let s = span_from_value("1 year 2 months 3 days 4 hours").unwrap();
    let u = s.units();
    assert_eq!((u.years, u.months, u.days, u.hours, u.minutes), (1, 2, 3, 4, 0));
    assert!(!s.is_zero());
    assert!(span_from_value("0 seconds").unwrap().is_zero());
}

#[test]
fn span_round_examples() {
    assert_eq!(jiff_span_round(&vec![text("17 min 10 sec"), text("minute")]).unwrap(), "17 minutes");
    assert_eq!(
        jiff_span_round(&vec![text("17 min 10 sec"), integer(5), text("minute")]).unwrap(),
        "15 minutes"
    );
    assert_eq!(
        jiff_span_round(&vec![text("17 min 10 sec"), integer(2), text("minute")]).unwrap(),
        "18 minutes"
    );
}

#[test]
fn span_round_with_options() {
    let span = "10 minutes 5 seconds 589 milliseconds 204 microseconds";
    assert_eq!(
        jiff_span_round(&vec![
            text(span),
            text("largest"),
            text("minute"),
            text("smallest"),
            text("milliseconds"),
        ])
        .unwrap(),
        "10 minutes, 5 seconds, 589 milliseconds"
    );
    assert_eq!(
        jiff_span_round(&vec![
            text(span),
            text("largest"),
            text("seconds"),
            text("smallest"),
            text("microseconds"),
        ])
        .unwrap(),
        "605 seconds, 589 milliseconds, 204 microseconds"
    );
    assert_eq!(
        jiff_span_round(&vec![
            text(span),
            text("largest"),
            text("seconds"),
            text("smallest"),
            text("microseconds"),
            text("increment"),
            integer(5),
        ])
        .unwrap(),
        "605 seconds, 589 milliseconds, 205 microseconds"
    );
    assert_eq!(
        jiff_span_round(&vec![
            text("36 minutes"),
            text("smallest"),
            text("minute"),
            text("increment"),
            integer(5),
            text("mode"),
            text("expand"),
        ])
        .unwrap(),
        "40 minutes"
    );
}

#[test]
fn span_round_relative_to_a_date() {
    assert_eq!(
        jiff_span_round(&vec![
            text("45 days"),
            text("largest"),
            text("month"),
            text("relative"),
            text("2024-01-01"),
        ])
        .unwrap(),
        "1 month, 14 days"
    );
}

#[test]
fn span_round_refusals() {
    assert_eq!(message(jiff_span_round(&vec![])), "jiff_span_round requires at least one argument");
    assert_eq!(
        message(jiff_span_round(&vec![text("1 hour"), text("largest"), text("hour"), text("mode")])),
        "jiff_span_round() requires an even number of arguments after the span"
    );
    assert_eq!(
        message(jiff_span_round(&vec![text("1 hour"), text("colour"), text("blue")])),
        "Unknown key for jiff_span_round: 'colour'"
    );
    assert_eq!(
        message(jiff_span_round(&vec![text("1 hour"), text("relative"), text("someday")])),
        "Invalid value for 'relative' option"
    );
    assert_eq!(
        message(jiff_span_round(&vec![text("1 hour"), text("mode"), text("sideways")])),
        "Unknown round mode sideways"
    );
    assert_eq!(
        message(jiff_span_round(&vec![text("1 hour"), text("fortnights")])),
        "Unknown unit fortnights"
    );
}

#[test]
fn span_round_options_are_read_in_order() {
    let o = span_round_options(&vec![
        text("1 hour"),
        text("smallest"),
        text("minute"),
        text("smallest"),
        text("second"),
        text("mode"),
        text("HALF-EVEN"),
    ])
    .unwrap();
    assert_eq!(o.smallest, Some(TimeUnit::Second));
    assert_eq!(o.largest, None);
}

#[test]
fn span_format_examples() {
    assert_eq!(
        jiff_span_format(&vec![text("1 hour 42 minutes 23 seconds 999 milliseconds")]).unwrap(),
        "1h 42m 23s 999ms"
    );
    assert_eq!(
        jiff_span_format(&vec![text("1 hour 42 minutes"), text("designator"), text("short")]).unwrap(),
        "1hr 42mins"
    );
    assert_eq!(
        jiff_span_format(&vec![text("1 hour 42 minutes ago"), text("direction"), text("suffix")])
            .unwrap(),
        "1h 42m ago"
    );
}

#[test]
fn span_format_options_and_refusals() {
    let f = span_format_options(&vec![
        text("1 hour"),
        text("spacing"),
        text("None"),
        text("designator"),
        text("VERBOSE"),
        text("comma-after-designator"),
        integer(1),
    ])
    .unwrap();
    assert_eq!(f.spacing, SpanSpacing::NoSpace);
    assert_eq!(f.designator, SpanDesignator::Verbose);
    assert_eq!(f.direction, SpanDirection::Auto);
    assert!(f.comma_after_designator);
    assert_eq!(
        message(jiff_span_format(&vec![text("1 hour"), text("colour"), text("red")])),
        "Unknown key for jiff_span_format: 'colour'"
    );
    assert_eq!(
        message(jiff_span_format(&vec![text("1 hour"), text("spacing"), text("wide")])),
        "Unknown spacing 'wide'"
    );
    assert!(matches!(jiff_span_format(&vec![text("1 hour"), text("spacing")]), Err(Failure::Halt)));
}

#[test]
fn span_total_reads_its_arguments() {
    let p = jiff_span_total(&vec![text("2 minutes"), text("second")]).unwrap();
    assert_eq!(p.unit, TimeUnit::Second);
    assert_eq!(p.relative, None);
    assert_eq!(p.span.units().minutes, 2);
    let p = jiff_span_total(&vec![text("45 days"), text("month"), text("2024-01-01")]).unwrap();
    assert_eq!(p.unit, TimeUnit::Month);
    assert_eq!(p.relative.map(|d| (d.year, d.month, d.day)), Some((2024, 1, 1)));
    assert!(matches!(jiff_span_total(&vec![text("45 days")]), Err(Failure::Halt)));
    assert!(matches!(jiff_span_total(&vec![]), Err(Failure::Halt)));
}

#[test]
fn add_examples() {
    assert_eq!(
        jiff_add(&vec![text("2025-01-01"), text("33 days")]).unwrap(),
        Some("2025-02-03T00:00:00".to_string())
    );
    assert_eq!(
        jiff_add(&vec![text("12:00:01"), text("2 hours 45 seconds 502 milliseconds")]).unwrap(),
        Some("14:00:46.502".to_string())
    );
    assert_eq!(
        jiff_add(&vec![
            text("2025-01-01 12:00:01"),
            text("33 days 2 hours 45 seconds 502 milliseconds"),
        ])
        .unwrap(),
        Some("2025-02-03T14:00:46.502".to_string())
    );
    assert_eq!(
        jiff_add(&vec![text("12:31:00"), text("5 minutes 10 seconds")]).unwrap(),
        Some("12:36:10".to_string())
    );
    assert_eq!(jiff_add(&vec![text("whenever"), text("1 day")]).unwrap(), None);
    assert!(matches!(jiff_add(&vec![text("12:00"), text("one day")]), Err(Failure::Message(_))));
}

#[test]
fn add_to_civil_values_saturates_times() {
    let s = span_from_value("2 hours").unwrap();
    assert_eq!(add_span_to_civil("23:30:00", &s), Some("23:59:59.999999999".to_string()));
    assert_eq!(add_span_to_civil("2024-02-28", &s), Some("2024-02-28T02:00:00".to_string()));
    assert_eq!(add_span_to_civil("nothing", &s), None);
}

#[test]
fn until_and_since_examples() {
    assert_eq!(jiff_until(&vec![text("2024-01-01"), text("2024-01-02")]).unwrap(), "1 day");
    assert_eq!(jiff_until(&vec![text("2025-01-01"), text("2025-01-12")]).unwrap(), "11 days");
    assert_eq!(
        jiff_until(&vec![text("12:00:00"), text("13:59:59.999")]).unwrap(),
        "1 hour, 59 minutes, 59 seconds, 999 milliseconds"
    );
    assert_eq!(jiff_since(&vec![text("2024-01-02"), text("2024-01-01")]).unwrap(), "1 day");
    assert_eq!(
        jiff_since(&vec![text("13:59:59.999"), text("12:00:00")]).unwrap(),
        "1 hour, 59 minutes, 59 seconds, 999 milliseconds"
    );
}

#[test]
fn since_negates_until() {
    let u = civil_between(Some("2024-01-01"), Some("2024-03-15"), Measure::Until).unwrap().units();
    let s = civil_between(Some("2024-01-01"), Some("2024-03-15"), Measure::Since).unwrap().units();
    assert_eq!(u.days, 74);
    assert_eq!(s.days, -74);
    assert_eq!(jiff_until(&vec![text("2024-01-02"), text("2024-01-01")]).unwrap(), "1 day ago");
}

#[test]
fn until_of_mixed_or_unreadable_values_stops() {
    assert!(matches!(jiff_until(&vec![text("2024-01-01"), text("12:00:00")]), Err(Failure::Halt)));
    assert!(matches!(jiff_until(&vec![text("x"), text("y")]), Err(Failure::Halt)));
    assert!(civil_between(Some("2024-01-01"), Some("12:00"), Measure::Until).is_none());
    assert!(civil_between(None, Some("12:00"), Measure::Until).is_none());
}

#[test]
fn until_between_instants() {
    assert_eq!(
        jiff_until(&vec![text("2024-01-01T00:00:00Z"), text("2024-01-01T00:01:30Z")]).unwrap(),
        "90 seconds"
    );
}

#[test]
fn span_of_zoned_readings() {
    let p = jiff_zoned_from_value("2024-03-10T00:00:00-05:00[America/New_York]").unwrap();
    let q = jiff_zoned_from_value("2024-03-10T04:00:00-04:00[America/New_York]").unwrap();
    assert_eq!(span_of_readings(ZonedPair::Both(p, q), None, None, Measure::Until).unwrap(), "3 hours");
    let p = jiff_zoned_from_value("2024-03-10T00:00:00-05:00[America/New_York]").unwrap();
    let q = jiff_zoned_from_value("2024-03-10T04:00:00-04:00[America/New_York]").unwrap();
    assert_eq!(
        span_of_readings(ZonedPair::Both(p, q), None, None, Measure::Since).unwrap(),
        "3 hours ago"
    );
    assert!(matches!(
        span_of_readings(ZonedPair::One, Some("2024-01-01"), Some("2024-01-02"), Measure::Until),
        Err(Failure::Halt)
    ));
    assert_eq!(
        span_of_readings(ZonedPair::Neither, Some("2024-01-02"), Some("2024-01-01"), Measure::Since)
            .unwrap(),
        "1 day"
    );
}

#[test]
fn zoned_since_is_until_with_the_values_swapped() {
    let a = "2024-11-03T00:30:00-04:00[America/New_York]";
    let b = "2024-11-03T03:15:00-05:00[America/New_York]";
    assert_eq!(jiff_until(&vec![text(a), text(b)]).unwrap(), "3 hours, 45 minutes");
    assert_eq!(
        jiff_since(&vec![text(b), text(a)]).unwrap(),
        jiff_until(&vec![text(a), text(b)]).unwrap()
    );
}

#[test]
fn add_to_a_reading() {
    let s = span_from_value("90 minutes").unwrap();
    let z = jiff_zoned_from_value("2024-03-10T01:30:00-05:00[America/New_York]").unwrap();
    assert_eq!(
        add_to_reading(Some(z), "ignored", &s),
        Some("2024-03-10T04:00:00-04:00[America/New_York]".to_string())
    );
    assert_eq!(add_to_reading(None, "10:00", &s), Some("11:30:00".to_string()));
    assert_eq!(add_to_reading(None, "whenever", &s), None);
}

#[test]
fn since_is_until_with_the_values_swapped() {
    for (a, b) in [("2024-01-01", "2024-03-15"), ("12:00:00", "08:30:15.5"), ("2024-01-01T10:00:00", "2023-12-30T23:59:59")] {
        assert_eq!(
            jiff_since(&vec![text(a), text(b)]).unwrap(),
            jiff_until(&vec![text(b), text(a)]).unwrap()
        );
    }
}

#[test]
fn add_renders_the_civil_sum() {
    assert_eq!(
        jiff_add(&vec![text("2024-02-28T23:00:00"), text("2 hours")]).unwrap(),
        Some("2024-02-29T01:00:00".to_string())
    );
    assert_ne!(
        jiff_add(&vec![text("2024-02-28T23:00:00"), text("2 hours")]).unwrap(),
        Some("2024-02-28T23:00:00".to_string())
    );
}
