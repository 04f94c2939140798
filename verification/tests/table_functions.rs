use sqlite_jiff::series::{
    DateSeriesCursor, DateSeriesTable, DatetimeSeriesCursor, DatetimeSeriesTable,
    DATETIME_SERIES_SCHEMA, DATE_SERIES_SCHEMA,
};
use sqlite_jiff::sql::{Failure, SqlArg, SqlKind, SqlValue};
use sqlite_jiff::transitions::{TimezoneTransitionsCursor, TimezoneTransitionsTable, TRANSITIONS_SCHEMA};
use sqlite_jiff::vtab::{
    series_column, transitions_column, BestIndexFailure, ConstraintInfo, ConstraintOp,
    ConstraintUse, SeriesColumn, TransitionsColumn,
};

fn text(s: &str) -> SqlArg {
    SqlArg { kind: SqlKind::Text, text: Some(s.to_string()), int: 0, int64: 0 }
}

fn c(column: i32, usable: bool, op: ConstraintOp) -> ConstraintInfo {
    ConstraintInfo { column, usable, op }
}

fn used(omit: bool, argv_index: i32) -> ConstraintUse {
    ConstraintUse { omit, argv_index }
}

fn text_value(v: SqlValue) -> String {
    match v {
        SqlValue::Text(t) => t,
        other => panic!("expected text, got {:?}", other),
    }
}

#[test]
fn schemas() {
    assert_eq!(DatetimeSeriesTable::connect().0, "CREATE TABLE x(datetime, start hidden, period hidden)");
    assert_eq!(DateSeriesTable::connect().0, DATE_SERIES_SCHEMA);
    assert_eq!(DATETIME_SERIES_SCHEMA, "CREATE TABLE x(datetime, start hidden, period hidden)");
    assert_eq!(
        TimezoneTransitionsTable::connect().0,
        "CREATE TABLE x(timestamp, offset, dst, abbreviation, timezone hidden)"
    );
    assert_eq!(TRANSITIONS_SCHEMA, TimezoneTransitionsTable::connect().0);
}

#[test]
fn column_indexes() {
    assert_eq!(series_column(0), Some(SeriesColumn::Value));
    assert_eq!(series_column(2), Some(SeriesColumn::Period));
    assert_eq!(series_column(3), None);
    assert_eq!(transitions_column(3), Some(TransitionsColumn::Abbreviation));
    assert_eq!(transitions_column(-1), None);
}

#[test]
fn datetime_series_plan_takes_start_and_period() {
    let (_, table) = DatetimeSeriesTable::connect();
    let cs = vec![
        c(0, true, ConstraintOp::Lt),
        c(2, true, ConstraintOp::Eq),
        c(1, true, ConstraintOp::Eq),
    ];
    let p = table.best_index(&cs).unwrap();
    assert_eq!(p.uses, vec![used(false, 0), used(true, 2), used(true, 1)]);
    assert_eq!(p.idxnum, 2);
    assert_eq!(p.idxstr, None);
    assert_eq!(p.estimated_rows, 100000);
}

#[test]
fn datetime_series_plan_refusals() {
    let (_, table) = DatetimeSeriesTable::connect();
    let missing = vec![c(1, true, ConstraintOp::Eq)];
    assert!(matches!(table.best_index(&missing), Err(BestIndexFailure::Error)));
    let unusable = vec![c(2, true, ConstraintOp::Eq), c(1, false, ConstraintOp::Eq)];
    assert!(matches!(table.best_index(&unusable), Err(BestIndexFailure::Constraint)));
    let not_eq = vec![c(1, true, ConstraintOp::Eq), c(2, true, ConstraintOp::Gt)];
    assert!(matches!(table.best_index(&not_eq), Err(BestIndexFailure::Constraint)));
    assert!(matches!(table.best_index(&vec![]), Err(BestIndexFailure::Error)));
}

#[test]
fn date_series_plan_records_range_constraints() {
    let (_, table) = DateSeriesTable::connect();
    let cs = vec![
        c(0, true, ConstraintOp::Gt),
        c(1, true, ConstraintOp::Eq),
        c(0, true, ConstraintOp::Le),
        c(2, true, ConstraintOp::Eq),
        c(0, false, ConstraintOp::Ge),
        c(0, true, ConstraintOp::Other),
        c(0, true, ConstraintOp::Lt),
    ];
    let p = table.best_index(&cs).unwrap();
    assert_eq!(
        p.uses,
        vec![
            used(false, 3),
            used(true, 1),
            used(false, 4),
            used(true, 2),
            used(false, 0),
            used(false, 0),
            used(false, 5),
        ]
    );
    assert_eq!(p.idxstr, Some("ADC".to_string()));
    assert_eq!(p.idxnum, 2);
}

#[test]
fn datetime_series_rows() {
    let mut table = DatetimeSeriesTable::connect().1;
    let mut cur: DatetimeSeriesCursor = table.open();
    assert!(cur.eof());
    cur.filter(&text("2023-07-15 16:30:00"), &text("5 hours")).unwrap();
    let expected = [
        "2023-07-15T16:30:00",
        "2023-07-15T21:30:00",
        "2023-07-16T02:30:00",
        "2023-07-16T07:30:00",
        "2023-07-16T12:30:00",
    ];
    for (i, e) in expected.iter().enumerate() {
        assert!(!cur.eof());
        assert_eq!(cur.rowid(), i as i64 + 1);
        assert_eq!(text_value(cur.column(0)), *e);
        assert!(matches!(cur.column(1), SqlValue::Null));
        assert!(matches!(cur.column(2), SqlValue::Null));
        assert!(matches!(cur.column(7), SqlValue::Null));
        cur.next();
    }
}

#[test]
fn datetime_series_ends_at_the_last_datetime() {
    let mut cur = DatetimeSeriesCursor::new();
    cur.filter(&text("9999-12-30T12:00:00"), &text("1 day")).unwrap();
    assert_eq!(text_value(cur.column(0)), "9999-12-30T12:00:00");
    cur.next();
    assert_eq!(text_value(cur.column(0)), "9999-12-31T12:00:00");
    cur.next();
    assert!(cur.eof());
    assert_eq!(cur.rowid(), 3);
    assert!(matches!(cur.column(0), SqlValue::Null));
}

#[test]
fn datetime_series_refusals() {
    let mut cur = DatetimeSeriesCursor::new();
    match cur.filter(&text("2024-01-01"), &text("0 days")) {
        Err(Failure::Message(m)) => assert_eq!(m, "jiff_datetime_series span cannot be zero"),
        other => panic!("{:?}", other),
    }
    assert!(matches!(cur.filter(&text("someday"), &text("1 day")), Err(Failure::Halt)));
    assert!(matches!(cur.filter(&text("2024-01-01"), &text("often")), Err(Failure::Halt)));
    assert!(cur.eof());
    assert_eq!(cur.rowid(), 0);
}

#[test]
fn date_series_rows() {
    let mut cur: DateSeriesCursor = DateSeriesTable::connect().1.open();
    cur.filter(&text("2024-01-30"), &text("1 month")).unwrap();
    let mut seen = vec![];
    while seen.len() < 3 && !cur.eof() {
        seen.push(text_value(cur.column(0)));
        cur.next();
    }
    assert_eq!(seen, vec!["2024-01-30", "2024-02-29", "2024-03-30"]);
    assert_eq!(cur.rowid(), 4);
}

#[test]
fn date_series_refusals() {
    let mut cur = DateSeriesCursor::new();
    match cur.filter(&text("2024-01-01"), &text("0 days")) {
        Err(Failure::Message(m)) => assert_eq!(m, "jiff_date_series span cannot be zero"),
        other => panic!("{:?}", other),
    }
    assert!(matches!(cur.filter(&text("someday"), &text("1 day")), Err(Failure::Message(_))));
    assert!(matches!(cur.filter(&text("2024-01-01"), &text("often")), Err(Failure::Message(_))));
    assert!(cur.eof());
}

#[test]
fn transitions_plan_numbers() {
    let (_, table) = TimezoneTransitionsTable::connect();
    let both = vec![c(0, true, ConstraintOp::Gt), c(0, true, ConstraintOp::Lt)];
    assert_eq!(table.best_index(&both).unwrap().idxnum, 3);
    let before = vec![c(0, true, ConstraintOp::Lt), c(0, false, ConstraintOp::Gt)];
    assert_eq!(table.best_index(&before).unwrap().idxnum, 2);
    let after = vec![c(0, true, ConstraintOp::Gt), c(1, true, ConstraintOp::Lt)];
    assert_eq!(table.best_index(&after).unwrap().idxnum, 1);
    let p = table.best_index(&vec![c(3, true, ConstraintOp::Eq)]).unwrap();
    assert_eq!(p.idxnum, 0);
    assert_eq!(p.uses, vec![used(false, 0)]);
    let zone = vec![c(0, true, ConstraintOp::Gt), c(4, true, ConstraintOp::Eq)];
    assert!(matches!(table.best_index(&zone), Err(BestIndexFailure::Error)));
    let unusable_zone = vec![c(4, false, ConstraintOp::Eq)];
    assert_eq!(table.best_index(&unusable_zone).unwrap().idxnum, 0);
}

#[test]
fn transitions_rows_move_forward() {
    let mut cur: TimezoneTransitionsCursor = TimezoneTransitionsTable::connect().1.open();
    match cur.column(0) {
        Err(Failure::Message(m)) => assert_eq!(m, "No current item in TimezoneTransitionsCursor"),
        other => panic!("{:?}", other),
    }
    cur.filter().unwrap();
    let mut last = String::new();
    for i in 1..=4 {
        assert!(!cur.eof());
        assert_eq!(cur.rowid(), i);
        let at = text_value(cur.column(0).unwrap());
        assert!(at.ends_with('Z'));
        assert!(at > last);
        last = at;
        let offset = text_value(cur.column(1).unwrap());
        let abbreviation = text_value(cur.column(3).unwrap());
        let dst = match cur.column(2).unwrap() {
            SqlValue::Bool(b) => b,
            other => panic!("{:?}", other),
        };
        if dst {
            assert_eq!((offset.as_str(), abbreviation.as_str()), ("-07", "PDT"));
        } else {
            assert_eq!((offset.as_str(), abbreviation.as_str()), ("-08", "PST"));
        }
        assert!(matches!(cur.column(4).unwrap(), SqlValue::Null));
        assert!(matches!(cur.column(5), Err(Failure::Halt)));
        cur.next();
    }
}
