use emon::duration::{format_duration_display, parse_duration, parse_duration_parts};

#[test]
fn minutes_parse_and_display() {
    assert_eq!(parse_duration("3m"), Some(180));
    assert_eq!(format_duration_display("3m"), "3min");
}

#[test]
fn hours_parse_and_display() {
    assert_eq!(parse_duration("1h"), Some(3600));
    assert_eq!(format_duration_display("1h"), "1h");
}

#[test]
fn seconds_parse_and_display() {
    assert_eq!(parse_duration("180s"), Some(180));
    assert_eq!(format_duration_display("180s"), "180s");
}

#[test]
fn unknown_unit_is_rejected() {
    assert_eq!(parse_duration("3x"), None);
    assert_eq!(format_duration_display("3x"), "3x");
}

#[test]
fn decimal_numbers_scale_by_the_unit() {
    assert_eq!(parse_duration("1.5h"), Some(5400));
    assert_eq!(parse_duration(".5m"), Some(30));
    assert_eq!(parse_duration("2.m"), Some(120));
    assert_eq!(parse_duration("0.0004h"), Some(1));
    assert_eq!(parse_duration("0.0167m"), Some(1));
    assert_eq!(parse_duration("0.0166m"), Some(0));
    assert_eq!(parse_duration("0.00027h"), Some(0));
    assert_eq!(parse_duration("0.00028h"), Some(1));
    assert_eq!(parse_duration("0.9999999999999999999999999999s"), Some(0));
    assert_eq!(parse_duration("0.0166666666666666666666666666m"), Some(0));
    assert_eq!(parse_duration("0.0166666666666666666666666667m"), Some(1));
    assert_eq!(parse_duration("1.9999s"), Some(1));
    assert_eq!(parse_duration("2.7182818h"), Some(9785));
    assert_eq!(parse_duration("00012.50m"), Some(750));
}

#[test]
fn unit_words_match_in_any_case() {
    assert_eq!(parse_duration("2 Minutes"), None);
    assert_eq!(parse_duration("2Minutes"), Some(120));
    assert_eq!(parse_duration("2HRS"), Some(7200));
    assert_eq!(parse_duration("7secs"), Some(7));
    assert_eq!(parse_duration("  10m \n"), Some(600));
}

#[test]
fn malformed_numbers_are_rejected() {
    assert_eq!(parse_duration(""), None);
    assert_eq!(parse_duration("   "), None);
    assert_eq!(parse_duration("180"), None);
    assert_eq!(parse_duration("m"), None);
    assert_eq!(parse_duration(".m"), None);
    assert_eq!(parse_duration("1.2.3s"), None);
    assert_eq!(parse_duration("-3m"), None);
}

#[test]
fn durations_agree_with_floating_point() {
    for (number, unit, seconds) in [
        ("3", "m", 60.0),
        ("1.5", "h", 3600.0),
        ("0.0167", "m", 60.0),
        ("0.0004", "h", 3600.0),
        ("12.345", "s", 1.0),
        ("0.25", "min", 60.0),
        ("7.125", "hours", 3600.0),
        (".5", "s", 1.0),
        ("90.", "sec", 1.0),
    ] {
        let value: f64 = number.parse().unwrap();
        let expected = (value * seconds) as usize;
        let text = format!("{}{}", number, unit);
        assert_eq!(parse_duration(&text), Some(expected), "{:?}", text);
    }
}

#[test]
fn huge_durations_saturate() {
    assert_eq!(
        parse_duration("99999999999999999999999999999999999999.99999h"),
        Some(usize::MAX)
    );
    assert_eq!(parse_duration("18446744073709551615s"), Some(usize::MAX));
    assert_eq!(parse_duration("18446744073709551614.9s"), Some(usize::MAX - 1));
    assert_eq!(
        parse_duration("99999999999999999999999999999999999999s"),
        Some(usize::MAX)
    );
}

#[test]
fn parts_keep_the_unit_as_written() {
    assert_eq!(parse_duration_parts("3m"), Some((3000, "m".to_string())));
    assert_eq!(parse_duration_parts(" 1.25 Hrs "), Some((1250, " Hrs".to_string())));
    assert_eq!(parse_duration_parts("12"), None);
    assert_eq!(parse_duration_parts("x"), None);
}

#[test]
fn display_of_blank_and_unitless_text() {
    assert_eq!(format_duration_display(""), "120s");
    assert_eq!(format_duration_display("  "), "120s");
    assert_eq!(format_duration_display(" 180 "), "180");
    assert_eq!(format_duration_display("2Hours"), "2h");
    assert_eq!(format_duration_display("1.2.3 x"), "1.2.3 x");
}
