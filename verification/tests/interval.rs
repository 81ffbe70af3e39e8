use hal9000::decimal::parse_i64;
use hal9000::es::format_end_time;
use hal9000::tools::contextualize;
use hal9000::tools::detect_spike;
use hal9000::tools::interval::parse_interval_ms;

#[test]
fn parses_documented_examples() {
    assert_eq!(parse_interval_ms("15m"), Some(900_000));
    assert_eq!(parse_interval_ms("1h"), Some(3_600_000));
    assert_eq!(parse_interval_ms("2d"), Some(172_800_000));
    assert_eq!(parse_interval_ms("30s"), Some(30_000));
}

#[test]
fn both_tools_read_intervals_alike() {
    assert_eq!(contextualize::parse_interval_ms("5m"), Some(300_000));
    assert_eq!(detect_spike::parse_interval_ms("5m"), Some(300_000));
}

#[test]
fn rejects_texts_that_are_not_intervals() {
    assert_eq!(parse_interval_ms(""), None);
    assert_eq!(parse_interval_ms("m"), None);
    assert_eq!(parse_interval_ms("15"), None);
    assert_eq!(parse_interval_ms("15x"), None);
    assert_eq!(parse_interval_ms("1.5h"), None);
    assert_eq!(parse_interval_ms(" 15m"), None);
    assert_eq!(parse_interval_ms("+m"), None);
}

#[test]
fn accepts_signs_as_integer_parsing_does() {
    assert_eq!(parse_interval_ms("+2s"), Some(2_000));
    assert_eq!(parse_interval_ms("-2s"), Some(-2_000));
    assert_eq!(parse_interval_ms("0d"), Some(0));
}

#[test]
fn refuses_what_cannot_be_read_as_milliseconds() {
    assert_eq!(parse_interval_ms("9223372036854775807d"), None);
    assert_eq!(parse_interval_ms("9223372036854775807s"), None);
    assert_eq!(parse_interval_ms("5é"), None);
    assert_eq!(parse_interval_ms("15é"), None);
    assert_eq!(parse_interval_ms("5分"), None);
    assert_eq!(parse_interval_ms("99999999999999999999m"), None);
    assert_eq!(parse_interval_ms("106751991167d"), Some(9_223_372_036_828_800_000));
    assert_eq!(detect_spike::parse_interval_ms("5分"), None);
    assert_eq!(contextualize::parse_interval_ms("9223372036854775807s"), None);
}

#[test]
fn parses_integers_like_std() {
    for text in ["0", "42", "-42", "+7", "9223372036854775807", "-9223372036854775808", "", "-", "+", "1a", "9223372036854775808", "--1", "٣"] {
        assert_eq!(parse_i64(text), text.parse::<i64>().ok(), "{}", text);
    }
}

#[test]
fn end_time_is_window_end_in_rfc3339() {
    assert_eq!(format_end_time(1_735_689_600_000, 900_000, "2025-01-01T00:00:00.000Z"), "2025-01-01T00:15:00.000Z");
    assert_eq!(format_end_time(-900_000, 900_000, "1969-12-31T23:45:00.000Z"), "1970-01-01T00:00:00.000Z");
    assert_eq!(format_end_time(-1_000_000, 900_000, "x"), "1969-12-31T23:58:20.000Z");
    assert_eq!(format_end_time(1_500, 0, "y"), "1970-01-01T00:00:01.500Z");
    assert_eq!(format_end_time(i64::MAX, 1, "z"), "z");
    assert_eq!(format_end_time(9_000_000_000_000_000, 0, "w"), "w");
}
