use fanctrl::sensor::{parse_millidegrees, round_to_centi, sensor_reading};

#[test]
fn plain_number_parses() {
    assert_eq!(parse_millidegrees(b"48312"), Some(48_312));
}

#[test]
fn trailing_newline_is_trimmed() {
    assert_eq!(parse_millidegrees(b"48312\n"), Some(48_312));
    assert_eq!(parse_millidegrees(b"  48312 \r\n"), Some(48_312));
}

#[test]
fn negative_values_parse() {
    assert_eq!(parse_millidegrees(b"-1500\n"), Some(-1_500));
}

#[test]
fn junk_is_rejected() {
    assert_eq!(parse_millidegrees(b""), None);
    assert_eq!(parse_millidegrees(b"   \n"), None);
    assert_eq!(parse_millidegrees(b"abc"), None);
    assert_eq!(parse_millidegrees(b"12a3"), None);
    assert_eq!(parse_millidegrees(b"-"), None);
    assert_eq!(parse_millidegrees(b"12 34"), None);
    assert_eq!(parse_millidegrees(b"--5"), None);
}

#[test]
fn out_of_range_magnitudes_are_rejected() {
    assert_eq!(parse_millidegrees(b"1000000000"), Some(1_000_000_000));
    assert_eq!(parse_millidegrees(b"1000000001"), None);
    assert_eq!(parse_millidegrees(b"99999999999999999999"), None);
}

#[test]
fn rounding_goes_to_the_nearest_hundredth() {
    assert_eq!(round_to_centi(48_312), 48_310);
    assert_eq!(round_to_centi(48_315), 48_320);
    assert_eq!(round_to_centi(48_319), 48_320);
    assert_eq!(round_to_centi(-1_504), -1_500);
    assert_eq!(round_to_centi(-1_505), -1_510);
    assert_eq!(round_to_centi(0), 0);
}

#[test]
fn a_reading_is_parsed_and_rounded() {
    assert_eq!(sensor_reading(b"48276\n"), Some(48_280));
    assert_eq!(sensor_reading(b"nonsense"), None);
}
