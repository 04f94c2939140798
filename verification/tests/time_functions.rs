use sqlite_jiff::model::CivilTime;
use sqlite_jiff::sql::{Failure, SqlArg, SqlKind};
use sqlite_jiff::time::{
    jiff_time, jiff_time_from_value, jiff_time_hour, jiff_time_round, jiff_time_strptime,
    midnight, result_time, time_from_value, time_round_options,
};

fn text(s: &str) -> SqlArg {
    SqlArg { kind: SqlKind::Text, text: Some(s.to_string()), int: 0, int64: 0 }
}

fn integer(i: i64) -> SqlArg {
    SqlArg { kind: SqlKind::Integer, text: Some(i.to_string()), int: i as i32, int64: i }
}

fn message(r: Result<Option<String>, Failure>) -> String {
    match r {
        Err(Failure::Message(m)) => m,
        other => panic!("expected a message, got {:?}", other),
    }
}

#[test]
fn time_from_text_is_rendered_canonically() {
    assert_eq!(jiff_time(&vec![text("08:59:50")]).unwrap(), Some("08:59:50".to_string()));
    assert_eq!(jiff_time(&vec![text("08:59:50.123")]).unwrap(), Some("08:59:50.123".to_string()));
    assert_eq!(jiff_time(&vec![text("23:59:59.9999")]).unwrap(), Some("23:59:59.9999".to_string()));
}

#[test]
fn time_from_components() {
    assert_eq!(jiff_time(&vec![integer(8), integer(59), integer(59)]).unwrap(), Some("08:59:59".to_string()));
    assert_eq!(
        jiff_time(&vec![integer(8), integer(59), integer(59), integer(1_000_000)]).unwrap(),
        Some("08:59:59.001".to_string())
    );
    assert_eq!(
        jiff_time(&vec![integer(8), integer(59), integer(59), integer(11_000_000)]).unwrap(),
        Some("08:59:59.011".to_string())
    );
    assert_eq!(
        jiff_time(&vec![integer(8), integer(59), integer(59), integer(111_000_000)]).unwrap(),
        Some("08:59:59.111".to_string())
    );
}

#[test]
fn time_text_that_names_no_time_is_null() {
    assert_eq!(jiff_time(&vec![text("not a time")]).unwrap(), None);
    let bad = SqlArg { kind: SqlKind::Blob, text: None, int: 0, int64: 0 };
    assert_eq!(jiff_time(&vec![bad]).unwrap(), None);
}

#[test]
fn time_components_out_of_range_name_the_component() {
    assert_eq!(message(jiff_time(&vec![integer(300), integer(0), integer(0)])), "Invalid hour value");
    assert_eq!(message(jiff_time(&vec![integer(1), integer(-300), integer(0)])), "Invalid minute value");
    assert_eq!(message(jiff_time(&vec![integer(1), integer(2), integer(128)])), "Invalid second value");
}

#[test]
fn time_components_that_are_no_time_are_refused() {
    let m = message(jiff_time(&vec![integer(25), integer(0), integer(0)]));
    assert!(!m.is_empty());
    let m = message(jiff_time(&vec![integer(1), integer(0), integer(0), integer(1_000_000_000)]));
    assert!(!m.is_empty());
}

#[test]
fn midnight_is_read_by_time_from_value_only() {
    let t = time_from_value("midnight").unwrap();
    assert_eq!((t.hour, t.minute, t.second, t.subsec_nanosecond), (0, 0, 0, 0));
    assert_eq!(result_time(midnight()), "00:00:00");
    assert!(matches!(jiff_time_from_value("midnight"), Err(Failure::Message(_))));
    assert!(matches!(time_from_value("noon"), Err(Failure::Message(_))));
}

#[test]
fn time_hour_reads_the_hour() {
    assert_eq!(jiff_time_hour("13:14:15").unwrap(), 13);
    assert_eq!(jiff_time_hour("midnight").unwrap(), 0);
    assert!(matches!(jiff_time_hour("xx"), Err(Failure::Message(_))));
}

#[test]
fn time_renders_nanoseconds_without_trailing_zeros() {
    let t = CivilTime { hour: 1, minute: 2, second: 3, subsec_nanosecond: 120_000_000 };
    assert_eq!(result_time(t), "01:02:03.12");
    let t = CivilTime { hour: 23, minute: 0, second: 0, subsec_nanosecond: 5 };
    assert_eq!(result_time(t), "23:00:00.000000005");
}

#[test]
fn time_round_to_a_unit() {
    assert_eq!(jiff_time_round(&vec![text("08:59:30"), text("minute")]).unwrap(), "09:00:00");
    assert_eq!(jiff_time_round(&vec![text("08:59:29"), text("minute")]).unwrap(), "08:59:00");
}

#[test]
fn time_round_with_options() {
    let r = jiff_time_round(&vec![
        text("08:59:30"),
        text("smallest"),
        text("minute"),
        text("mode"),
        text("trunc"),
    ]);
    assert_eq!(r.unwrap(), "08:59:00");
    let r = jiff_time_round(&vec![
        text("08:52:00"),
        text("smallest"),
        text("minute"),
        text("increment"),
        integer(15),
    ]);
    assert_eq!(r.unwrap(), "08:45:00");
}

#[test]
fn time_round_refuses_unknown_keys_and_modes() {
    match jiff_time_round(&vec![text("08:59:30"), text("bogus"), text("x")]) {
        Err(Failure::Message(m)) => assert_eq!(m, "Unknown key for jiff_span_round: 'bogus'"),
        other => panic!("{:?}", other),
    }
    match jiff_time_round(&vec![text("08:59:30"), text("mode"), text("sideways")]) {
        Err(Failure::Message(m)) => assert_eq!(m, "Unknown round mode: 'sideways'"),
        other => panic!("{:?}", other),
    }
}

#[test]
fn time_round_options_later_pairs_override() {
    let o = time_round_options(&vec![
        text("08:00:00"),
        text("increment"),
        integer(5),
        text("increment"),
        integer(10),
    ])
    .unwrap();
    assert_eq!(o.increment, Some(10));
    assert_eq!(o.smallest, None);
}

#[test]
fn time_strptime_reads_or_gives_null() {
    assert_eq!(jiff_time_strptime(b"%H:%M", b"21:14").unwrap(), Some("21:14:00".to_string()));
    assert_eq!(jiff_time_strptime(b"%H:%M", b"nope").unwrap(), None);
}
