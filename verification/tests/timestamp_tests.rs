use media_pipeline::timestamp::extract_timestamp;

#[test]
fn stamp_at_start_no_calendar_validation() {
    // Digits are substituted verbatim: month 13 and second group 99 pass through.
    assert_eq!(extract_timestamp("20231301_999999.mp4"), "2023-13-01 99:99:99");
}

#[test]
fn stamp_embedded_in_name() {
    assert_eq!(extract_timestamp("clip_20231005_120000.mp4"), "2023-10-05 12:00:00");
}

#[test]
fn stamp_leftmost_occurrence_wins() {
    assert_eq!(
        extract_timestamp("19990101_000000_20000101_000000"),
        "1999-01-01 00:00:00"
    );
}

#[test]
fn stamp_exactly_the_pattern() {
    assert_eq!(extract_timestamp("20240229_235959"), "2024-02-29 23:59:59");
}

#[test]
fn no_digits_is_unknown() {
    assert_eq!(extract_timestamp("holiday.mp4"), "Unknown");
}

#[test]
fn too_few_date_digits_is_unknown() {
    assert_eq!(extract_timestamp("2023105_120000.mp4"), "Unknown");
}

#[test]
fn missing_underscore_is_unknown() {
    assert_eq!(extract_timestamp("20231005-120000.mp4"), "Unknown");
}

#[test]
fn too_few_time_digits_is_unknown() {
    assert_eq!(extract_timestamp("20231005_12000"), "Unknown");
}

#[test]
fn empty_name_is_unknown() {
    assert_eq!(extract_timestamp(""), "Unknown");
}

#[test]
fn fourteen_digits_without_separator_is_unknown() {
    assert_eq!(extract_timestamp("20231005120000.mp4"), "Unknown");
}
