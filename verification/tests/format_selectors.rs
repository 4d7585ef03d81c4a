use datetime_format::DateTimeInputFormat;
use datetime_format::DateTimeOutputFormat;
use datetime_format::is_strftime_formatting;

#[test]
fn test_date_time_input_format_ser() {
    let names: Vec<&str> = [
        DateTimeInputFormat::Iso8601,
        DateTimeInputFormat::Rfc2822,
        DateTimeInputFormat::Rfc3339,
        DateTimeInputFormat::Timestamp,
    ]
    .iter()
    .map(|format| format.as_str())
    .collect();
    assert_eq!(names, vec!["iso8601", "rfc2822", "rfc3339", "unix_timestamp"]);
}

#[test]
fn test_date_time_input_format_deser() {
    let date_time_formats: Vec<DateTimeInputFormat> =
        ["iso8601", "rfc2822", "rfc3339", "unix_timestamp"]
            .iter()
            .map(|name| DateTimeInputFormat::from_str(name).unwrap())
            .collect();
    let expected_date_time_formats = [
        DateTimeInputFormat::Iso8601,
        DateTimeInputFormat::Rfc2822,
        DateTimeInputFormat::Rfc3339,
        DateTimeInputFormat::Timestamp,
    ];
    assert_eq!(date_time_formats, &expected_date_time_formats);
}

#[test]
fn test_date_time_output_format_ser() {
    let names: Vec<&str> = [
        DateTimeOutputFormat::Iso8601,
        DateTimeOutputFormat::Rfc2822,
        DateTimeOutputFormat::Rfc3339,
        DateTimeOutputFormat::TimestampSecs,
        DateTimeOutputFormat::TimestampMillis,
        DateTimeOutputFormat::TimestampMicros,
        DateTimeOutputFormat::TimestampNanos,
    ]
    .iter()
    .map(|format| format.as_str())
    .collect();
    assert_eq!(
        names,
        vec![
            "iso8601",
            "rfc2822",
            "rfc3339",
            "unix_timestamp_secs",
            "unix_timestamp_millis",
            "unix_timestamp_micros",
            "unix_timestamp_nanos",
        ]
    );
}

#[test]
fn test_date_time_output_format_deser() {
    let date_time_formats: Vec<DateTimeOutputFormat> = [
        "iso8601",
        "rfc2822",
        "rfc3339",
        "unix_timestamp_secs",
        "unix_timestamp_millis",
        "unix_timestamp_micros",
        "unix_timestamp_nanos",
    ]
    .iter()
    .map(|name| DateTimeOutputFormat::from_str(name).unwrap())
    .collect();
    let expected_date_time_formats = [
        DateTimeOutputFormat::Iso8601,
        DateTimeOutputFormat::Rfc2822,
        DateTimeOutputFormat::Rfc3339,
        DateTimeOutputFormat::TimestampSecs,
        DateTimeOutputFormat::TimestampMillis,
        DateTimeOutputFormat::TimestampMicros,
        DateTimeOutputFormat::TimestampNanos,
    ];
    assert_eq!(date_time_formats, &expected_date_time_formats);
}

#[test]
fn test_fail_date_time_input_format_from_str_with_unknown_format() {
    let formats = vec![
        "test%",
        "test-%v",
        "test-%q",
        "unix_timestamp_secs",
        "unix_timestamp_seconds",
    ];
    for format in formats {
        let error_str = DateTimeInputFormat::from_str(format).unwrap_err().to_string();
        assert!(error_str.contains(&format!("unknown input format: `{format}`")));
    }
}

#[test]
fn test_fail_date_time_output_format_from_str_with_unknown_format() {
    let formats = vec!["test%", "test-%v", "test-%q", "unix_timestamp_seconds"];
    for format in formats {
        let error_str = DateTimeOutputFormat::from_str(format).unwrap_err().to_string();
        assert!(error_str.contains(&format!("unknown output format: `{format}`")));
    }
}

#[test]
fn test_short_names_case_insensitive() {
    let upper = DateTimeInputFormat::from_str("ISO8601").unwrap();
    let lower = DateTimeInputFormat::from_str("iso8601").unwrap();
    assert_eq!(upper, lower);
    assert_eq!(upper.as_str(), "iso8601");
    let mixed = DateTimeOutputFormat::from_str("Unix_Timestamp_Millis").unwrap();
    assert_eq!(mixed, DateTimeOutputFormat::TimestampMillis);
    assert_eq!(mixed.as_str(), "unix_timestamp_millis");
}

#[test]
fn test_custom_pattern_keeps_its_string() {
    let format = DateTimeInputFormat::from_str("%Y-%m-%d").unwrap();
    assert_eq!(format.as_str(), "%Y-%m-%d");
    let output = DateTimeOutputFormat::from_str("%Y-%m-%d %H:%M:%S").unwrap();
    assert_eq!(output.as_str(), "%Y-%m-%d %H:%M:%S");
}

#[test]
fn test_invalid_strptime_pattern_reports_compile_error() {
    // `%C` carries a marker character, so compilation is attempted, and the
    // underlying grammar rejects it.
    let error = DateTimeInputFormat::from_str("%C-%m-%d").unwrap_err();
    assert!(error.starts_with("invalid strptime format `%C-%m-%d`: "));
}

#[test]
fn test_from_str_through_parse() {
    let input: DateTimeInputFormat = "unix_timestamp".parse().unwrap();
    assert_eq!(input, DateTimeInputFormat::Timestamp);
    let output: DateTimeOutputFormat = "rfc2822".parse().unwrap();
    assert_eq!(output, DateTimeOutputFormat::Rfc2822);
}

#[test]
fn test_is_strftime_formatting() {
    assert!(is_strftime_formatting("%Y-%m-%d"));
    assert!(is_strftime_formatting("uptime %z"));
    assert!(!is_strftime_formatting("test%"));
    assert!(!is_strftime_formatting("test-%v"));
    assert!(!is_strftime_formatting("plain text"));
    assert!(!is_strftime_formatting(""));
}
