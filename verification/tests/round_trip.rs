use datetime_format::DateTimeInputFormat;
use datetime_format::DateTimeOutputFormat;
use datetime_format::JsonValue;
use datetime_format::UtcInstant;

const NANOS_PER_SEC: i128 = 1_000_000_000;

fn text_of(value: JsonValue) -> String {
    match value {
        JsonValue::Str(text) => text,
        JsonValue::Num(number) => panic!("expected text, got number {number}"),
    }
}

fn number_of(value: JsonValue) -> i64 {
    match value {
        JsonValue::Str(text) => panic!("expected number, got text {text}"),
        JsonValue::Num(number) => number,
    }
}

#[test]
fn test_rfc3339_round_trip() {
    let instant = UtcInstant::from_nanos(1609459200 * NANOS_PER_SEC);
    let rendered = text_of(DateTimeOutputFormat::Rfc3339.format_to_json(instant).unwrap());
    assert_eq!(rendered, "2021-01-01T00:00:00Z");
    let parsed = DateTimeInputFormat::Rfc3339.parse_date_time(&rendered).unwrap();
    assert_eq!(parsed, instant);
}

#[test]
fn test_rfc2822_round_trip() {
    let instant = UtcInstant::from_nanos(1337558400 * NANOS_PER_SEC);
    let rendered = text_of(DateTimeOutputFormat::Rfc2822.format_to_json(instant).unwrap());
    let parsed = DateTimeInputFormat::Rfc2822.parse_date_time(&rendered).unwrap();
    assert_eq!(parsed, instant);
}

#[test]
fn test_iso8601_round_trip() {
    let instant = UtcInstant::from_nanos(1609459200 * NANOS_PER_SEC);
    let rendered = text_of(DateTimeOutputFormat::Iso8601.format_to_json(instant).unwrap());
    let parsed = DateTimeInputFormat::Iso8601.parse_date_time(&rendered).unwrap();
    assert_eq!(parsed, instant);
}

#[test]
fn test_unix_timestamp_round_trip() {
    let instant = UtcInstant::from_nanos(1609459200 * NANOS_PER_SEC);
    let rendered = number_of(DateTimeOutputFormat::TimestampSecs.format_to_json(instant).unwrap());
    assert_eq!(rendered, 1609459200);
    let parsed = DateTimeInputFormat::Timestamp
        .parse_date_time(&rendered.to_string())
        .unwrap();
    assert_eq!(parsed, instant);
}

#[test]
fn test_negative_unix_timestamp_round_trip() {
    let instant = UtcInstant::from_nanos(-86400 * NANOS_PER_SEC);
    let rendered = number_of(DateTimeOutputFormat::TimestampSecs.format_to_json(instant).unwrap());
    assert_eq!(rendered, -86400);
    let parsed = DateTimeInputFormat::Timestamp
        .parse_date_time(&rendered.to_string())
        .unwrap();
    assert_eq!(parsed, instant);
}

#[test]
fn test_custom_pattern_round_trip() {
    let instant = UtcInstant::from_nanos(1609459200 * NANOS_PER_SEC);
    let output = DateTimeOutputFormat::from_str("%Y-%m-%d").unwrap();
    let rendered = text_of(output.format_to_json(instant).unwrap());
    assert_eq!(rendered, "2021-01-01");
    let input = DateTimeInputFormat::from_str("%Y-%m-%d").unwrap();
    assert_eq!(input.parse_date_time(&rendered).unwrap(), instant);
}

#[test]
fn test_timestamp_units_exact() {
    let instant = UtcInstant::from_nanos(1_500_000_001);
    let secs = DateTimeOutputFormat::TimestampSecs.format_to_json(instant).unwrap();
    let millis = DateTimeOutputFormat::TimestampMillis.format_to_json(instant).unwrap();
    let micros = DateTimeOutputFormat::TimestampMicros.format_to_json(instant).unwrap();
    let nanos = DateTimeOutputFormat::TimestampNanos.format_to_json(instant).unwrap();
    assert_eq!(number_of(secs), 1);
    assert_eq!(number_of(millis), 1500);
    assert_eq!(number_of(micros), 1_500_000);
    assert_eq!(number_of(nanos), 1_500_000_001);
}

#[test]
fn test_timestamp_units_truncate_towards_zero() {
    let instant = UtcInstant::from_nanos(-1_500_000_001);
    assert_eq!(
        number_of(DateTimeOutputFormat::TimestampSecs.format_to_json(instant).unwrap()),
        -1
    );
    assert_eq!(
        number_of(DateTimeOutputFormat::TimestampMillis.format_to_json(instant).unwrap()),
        -1500
    );
    assert_eq!(
        number_of(DateTimeOutputFormat::TimestampMicros.format_to_json(instant).unwrap()),
        -1_500_000
    );
    assert_eq!(
        number_of(DateTimeOutputFormat::TimestampNanos.format_to_json(instant).unwrap()),
        -1_500_000_001
    );
}

#[test]
fn test_rfc3339_epoch_rendering() {
    let epoch = UtcInstant::from_nanos(0);
    let rendered = text_of(DateTimeOutputFormat::Rfc3339.format_to_json(epoch).unwrap());
    assert_eq!(rendered, "1970-01-01T00:00:00Z");
}

#[test]
fn test_timestamp_input_rejects_bad_numbers() {
    let input = DateTimeInputFormat::Timestamp;
    assert!(input.parse_date_time("").is_err());
    assert!(input.parse_date_time("-").is_err());
    assert!(input.parse_date_time("12a").is_err());
    assert!(input.parse_date_time("9223372036854775808").is_err());
    assert_eq!(
        input.parse_date_time("9223372036854775807").unwrap(),
        UtcInstant::from_nanos(9223372036854775807i128 * NANOS_PER_SEC)
    );
    assert_eq!(
        input.parse_date_time("-9223372036854775808").unwrap(),
        UtcInstant::from_nanos(-9223372036854775808i128 * NANOS_PER_SEC)
    );
    assert_eq!(
        input.parse_date_time("0").unwrap(),
        UtcInstant::from_nanos(0)
    );
}
