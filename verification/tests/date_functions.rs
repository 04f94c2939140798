use sqlite_jiff::date::{
    date_from_value, era_year, jiff_date, jiff_date_day, jiff_date_era, jiff_date_era_year,
    jiff_date_month, jiff_date_strftime, jiff_date_strptime, jiff_date_valid, jiff_date_weekday,
    jiff_date_year, result_date,
};
use sqlite_jiff::datetime::{
    datetime_from_parts, datetime_from_value, jiff_datetime, jiff_datetime_strptime,
    result_datetime,
};
use sqlite_jiff::model::{CivilDate, CivilTime, Era};
use sqlite_jiff::sql::{Failure, SqlArg, SqlKind};

fn text(s: &str) -> SqlArg {
    SqlArg { kind: SqlKind::Text, text: Some(s.to_string()), int: 0, int64: 0 }
}

fn integer(i: i64) -> SqlArg {
    SqlArg { kind: SqlKind::Integer, text: Some(i.to_string()), int: i as i32, int64: i }
}

#[test]
fn date_from_text_and_from_components() {
    assert_eq!(jiff_date(&vec![text("2024-10-31")]).unwrap(), Some("2024-10-31".to_string()));
    assert_eq!(jiff_date(&vec![integer(2024), integer(2), integer(29)]).unwrap(), Some("2024-02-29".to_string()));
    assert_eq!(jiff_date(&vec![integer(7), integer(1), integer(5)]).unwrap(), Some("0007-01-05".to_string()));
    assert_eq!(jiff_date(&vec![text("tomorrow-ish")]).unwrap(), None);
}

#[test]
fn date_components_that_do_not_fit_or_name_no_date() {
    match jiff_date(&vec![integer(2023), integer(2), integer(29)]) {
        Err(Failure::Message(m)) => assert_eq!(m, "asdf"),
        other => panic!("{:?}", other),
    }
    match jiff_date(&vec![integer(100_000), integer(1), integer(1)]) {
        Err(Failure::Message(m)) => assert_eq!(m, "TODO"),
        other => panic!("{:?}", other),
    }
    match jiff_date(&vec![integer(2024), integer(1), integer(300)]) {
        Err(Failure::Message(m)) => assert_eq!(m, "TODO"),
        other => panic!("{:?}", other),
    }
}

#[test]
fn date_parts() {
    assert_eq!(jiff_date_year("2004-06-18").unwrap(), 2004);
    assert_eq!(jiff_date_month("2004-06-18").unwrap(), 6);
    assert_eq!(jiff_date_day("2004-06-18").unwrap(), 18);
    assert!(matches!(jiff_date_year("June"), Err(Failure::Message(_))));
}

#[test]
fn date_weekday_names() {
    assert_eq!(jiff_date_weekday("2024-01-15").unwrap(), "Monday");
    assert_eq!(jiff_date_weekday("2024-01-21").unwrap(), "Sunday");
    assert_eq!(jiff_date_weekday("1971-04-16").unwrap(), "Friday");
}

#[test]
fn date_era_and_era_year() {
    assert_eq!(jiff_date_era("2025-05-26").unwrap(), "CE");
    assert_eq!(jiff_date_era_year("2025-05-26").unwrap(), 2025);
    assert_eq!(jiff_date_era("0000-03-01").unwrap(), "BCE");
    assert_eq!(jiff_date_era_year("0000-03-01").unwrap(), 1);
    let (y, e) = era_year(CivilDate { year: -44, month: 3, day: 15 });
    assert_eq!(y, 45);
    assert_eq!(e, Era::BCE);
}

#[test]
fn era_year_gives_back_the_year() {
    for year in [-9999i16, -1, 0, 1, 2, 9999] {
        let (ey, era) = era_year(CivilDate { year, month: 1, day: 1 });
        assert!(ey >= 1);
        let back = if era == Era::CE { ey } else { 1 - ey };
        assert_eq!(back, year);
    }
}

#[test]
fn date_validity() {
    assert!(jiff_date_valid(b"2024-02-29"));
    assert!(!jiff_date_valid(b"2023-02-29"));
    assert!(!jiff_date_valid(b"hello"));
}

#[test]
fn date_strptime_and_strftime() {
    assert_eq!(
        jiff_date_strptime(b"%Y/%m/%d", Some(b"2024/07/14")).unwrap(),
        Some("2024-07-14".to_string())
    );
    assert_eq!(jiff_date_strptime(b"%Y/%m/%d", Some(b"14.07.2024")).unwrap(), None);
    assert_eq!(jiff_date_strptime(b"%Y/%m/%d", None).unwrap(), None);
    assert_eq!(
        jiff_date_strftime(b"2024-07-14", b"%d.%m.%Y").unwrap(),
        Some("14.07.2024".to_string())
    );
    assert!(matches!(jiff_date_strftime(b"not a date", b"%Y"), Err(Failure::Halt)));
}

#[test]
fn date_rendering_pads_year_month_and_day() {
    assert_eq!(result_date(CivilDate { year: 33, month: 2, day: 3 }), "0033-02-03");
    assert_eq!(result_date(date_from_value("1999-12-31").unwrap()), "1999-12-31");
}

#[test]
fn datetime_from_text_and_parts() {
    assert_eq!(
        jiff_datetime(&vec![text("2024-10-31T00:00:00")]).unwrap(),
        Some("2024-10-31T00:00:00".to_string())
    );
    assert_eq!(
        jiff_datetime(&vec![text("2024-10-31 00:00:00")]).unwrap(),
        Some("2024-10-31T00:00:00".to_string())
    );
    assert_eq!(
        jiff_datetime(&vec![text("2024-10-31"), text("00:00:00")]).unwrap(),
        Some("2024-10-31T00:00:00".to_string())
    );
    assert_eq!(
        jiff_datetime(&vec![text("2024-10-31"), text("midnight")]).unwrap(),
        Some("2024-10-31T00:00:00".to_string())
    );
    assert_eq!(jiff_datetime(&vec![text("yesterday")]).unwrap(), None);
    assert!(matches!(jiff_datetime(&vec![text("2024-10-31"), text("noon")]), Err(Failure::Halt)));
}

#[test]
fn datetime_parts_and_rendering() {
    let d = CivilDate { year: 2024, month: 7, day: 14 };
    let t = CivilTime { hour: 21, minute: 14, second: 0, subsec_nanosecond: 500_000 };
    let dt = datetime_from_parts(d, t);
    assert_eq!(result_datetime(dt), "2024-07-14T21:14:00.0005");
    let back = datetime_from_value("2024-07-14T21:14:00.0005").unwrap();
    assert_eq!(back, dt);
}

#[test]
fn datetime_strptime() {
    assert_eq!(
        jiff_datetime_strptime(b"%F %H:%M", b"2024-07-14 21:14").unwrap(),
        Some("2024-07-14T21:14:00".to_string())
    );
    assert_eq!(jiff_datetime_strptime(b"%F %H:%M", b"21:14").unwrap(), None);
}

#[test]
fn date_valid_agrees_with_jiff_date() {
    for s in ["2024-02-29", "2023-02-29", "2024-13-01", "20240101", "-000044-03-15", "soon", ""] {
        let read = jiff_date(&vec![text(s)]).unwrap();
        assert_eq!(jiff_date_valid(s.as_bytes()), read.is_some(), "{}", s);
    }
}
