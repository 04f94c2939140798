use sqlite_jiff::model::{SpanDesignator, SpanDirection, Era, RoundingMode, SpanSpacing, TimeUnit, Weekday};
use sqlite_jiff::names::{
    designator_from_lowercase, direction_from_lowercase, era_name, roundmode_from_text,
    roundmode_from_value, spacing_from_lowercase, unit_from_value, weekday_name, zone_choice,
    ZoneChoice,
};
use sqlite_jiff::sql::Failure;
use sqlite_jiff::{jiff_debug, jiff_version};

fn message<T: std::fmt::Debug>(r: Result<T, Failure>) -> String {
    match r {
        Err(Failure::Message(m)) => m,
        other => panic!("expected a message, got {:?}", other),
    }
}

#[test]
fn unit_names_in_any_case() {
    assert_eq!(unit_from_value("Minutes").unwrap(), TimeUnit::Minute);
    assert_eq!(unit_from_value("ns").unwrap(), TimeUnit::Nanosecond);
    assert_eq!(unit_from_value("μs").unwrap(), TimeUnit::Microsecond);
    assert_eq!(unit_from_value("HR").unwrap(), TimeUnit::Hour);
    assert_eq!(unit_from_value("years").unwrap(), TimeUnit::Year);
    assert_eq!(message(unit_from_value("Fortnight")), "Unknown unit fortnight");
}

#[test]
fn rounding_mode_names() {
    assert_eq!(roundmode_from_text("half-even"), Some(RoundingMode::HalfEven));
    assert_eq!(roundmode_from_text("Half-Even"), None);
    assert_eq!(roundmode_from_value("Half-Even").unwrap(), RoundingMode::HalfEven);
    assert_eq!(roundmode_from_value("CEIL").unwrap(), RoundingMode::Ceil);
    assert_eq!(message(roundmode_from_value("Up")), "Unknown round mode up");
}

#[test]
fn layout_names() {
    assert_eq!(spacing_from_lowercase("between-units").unwrap(), SpanSpacing::BetweenUnits);
    assert_eq!(message(spacing_from_lowercase("wide")), "Unknown spacing 'wide'");
    assert_eq!(designator_from_lowercase("compact").unwrap(), SpanDesignator::Compact);
    assert_eq!(message(designator_from_lowercase("long")), "Unknown designator long");
    assert_eq!(direction_from_lowercase("force-sign").unwrap(), SpanDirection::ForceSign);
    assert_eq!(message(direction_from_lowercase("up")), "Unknown direction up");
}

#[test]
fn weekday_and_era_names() {
    assert_eq!(weekday_name(Weekday::Wednesday), "Wednesday");
    assert_eq!(era_name(Era::BCE), "BCE");
    assert_eq!(era_name(Era::CE), "CE");
}

#[test]
fn zone_choices() {
    assert!(matches!(zone_choice("utc"), ZoneChoice::Utc));
    assert!(matches!(zone_choice("z"), ZoneChoice::Utc));
    assert!(matches!(zone_choice("local"), ZoneChoice::System));
    assert!(matches!(zone_choice("system"), ZoneChoice::System));
    match zone_choice("asia/tokyo") {
        ZoneChoice::Named(n) => assert_eq!(n, "asia/tokyo"),
        other => panic!("{:?}", other),
    }
}

#[test]
fn version_texts() {
    assert_eq!(jiff_version("0.0.1-alpha.2"), "v0.0.1-alpha.2");
    assert_eq!(
        jiff_debug("0.0.1-alpha.2", "e728fd617e35aed4b9475e37fb07209a95bb7180"),
        "Version: v0.0.1-alpha.2\nSource: e728fd617e35aed4b9475e37fb07209a95bb7180\n"
    );
}
