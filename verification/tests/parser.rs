use datetime_format::StrptimeParser;
use datetime_format::UtcInstant;
use datetime_format::infer_year;
use datetime_format::resolve_java_datetime_format_alias;

const NANOS_PER_SEC: i128 = 1_000_000_000;

#[test]
fn test_strictly_parse_datetime_format() {
    let parser = StrptimeParser::from_strptime("%Y-%m-%d").unwrap();
    assert_eq!(
        parser.parse_date_time("2021-01-01").unwrap(),
        UtcInstant::from_nanos(1609459200 * NANOS_PER_SEC)
    );
    let error = parser.parse_date_time("2021-01-01TABC").unwrap_err();
    assert_eq!(
        error,
        "datetime string `2021-01-01TABC` does not match strptime format `%Y-%m-%d`"
    );
}

#[test]
fn test_parse_java_datetime_format() {
    let parser = StrptimeParser::from_java_datetime_format("yyyy MM dd").unwrap();
    assert_eq!(
        parser.parse_date_time("2021 01 01").unwrap(),
        UtcInstant::from_nanos(1609459200 * NANOS_PER_SEC)
    );

    let parser = StrptimeParser::from_java_datetime_format("yyyy!MM?dd").unwrap();
    assert_eq!(
        parser.parse_date_time("2021!01?01").unwrap(),
        UtcInstant::from_nanos(1609459200 * NANOS_PER_SEC)
    );
}

#[test]
fn test_infer_year() {
    let inferred_year = infer_year(None, 1, 2024);
    assert_eq!(inferred_year, 2024);

    let inferred_year = infer_year(Some(12), 1, 2024);
    assert_eq!(inferred_year, 2023);

    let inferred_year = infer_year(Some(1), 1, 2024);
    assert_eq!(inferred_year, 2024);

    let inferred_year = infer_year(Some(2), 1, 2024);
    assert_eq!(inferred_year, 2024);

    let inferred_year = infer_year(Some(3), 1, 2024);
    assert_eq!(inferred_year, 2024);

    let inferred_year = infer_year(Some(4), 1, 2024);
    assert_eq!(inferred_year, 2024);

    let inferred_year = infer_year(Some(5), 1, 2024);
    assert_eq!(inferred_year, 2023);
}

#[test]
fn test_infer_year_same_month_never_shifts() {
    for month in 1..=12u8 {
        assert_eq!(infer_year(Some(month), month, 2024), 2024);
    }
}

#[test]
fn test_java_quoted_literals() {
    let parser = StrptimeParser::from_java_datetime_format("yyyy'T'MM'T'dd").unwrap();
    assert_eq!(
        parser.parse_date_time("2021T01T01").unwrap(),
        UtcInstant::from_nanos(1609459200 * NANOS_PER_SEC)
    );

    // A doubled quote stands for one literal quote character.
    let parser = StrptimeParser::from_java_datetime_format("yyyy''MM''dd").unwrap();
    assert_eq!(
        parser.parse_date_time("2021'01'01").unwrap(),
        UtcInstant::from_nanos(1609459200 * NANOS_PER_SEC)
    );
}

#[test]
fn test_java_unpadded_components() {
    let parser = StrptimeParser::from_java_datetime_format("yyyy M d").unwrap();
    assert_eq!(
        parser.parse_date_time("2021 1 1").unwrap(),
        UtcInstant::from_nanos(1609459200 * NANOS_PER_SEC)
    );
}

#[test]
fn test_java_unrecognized_character_reports_position() {
    let error = StrptimeParser::from_java_datetime_format("yyyyQdd").unwrap_err();
    assert_eq!(
        error,
        "failed to parse date format `yyyyQdd`. Pattern at pos 4 is not recognized."
    );
}

#[test]
fn test_java_bracket_is_rejected() {
    let error = StrptimeParser::from_java_datetime_format("yyyy[MM").unwrap_err();
    assert_eq!(
        error,
        "failed to parse date format `yyyy[MM`. Pattern at pos 4 is not recognized."
    );
}

#[test]
fn test_resolve_java_datetime_format_alias() {
    assert_eq!(
        resolve_java_datetime_format_alias("date_optional_time"),
        "yyyy-MM-dd'T'HH:mm:ss.SSSZ"
    );
    assert_eq!(
        resolve_java_datetime_format_alias("strict_date_optional_time"),
        "yyyy-MM-dd'T'HH:mm:ss.SSSZ"
    );
    assert_eq!(
        resolve_java_datetime_format_alias("strict_date_optional_time_nanos"),
        "yyyy-MM-dd'T'HH:mm:ss.SSSSSSZ"
    );
    assert_eq!(resolve_java_datetime_format_alias("basic_date"), "yyyyMMdd");
    assert_eq!(resolve_java_datetime_format_alias("yyyy MM dd"), "yyyy MM dd");
}

#[test]
fn test_java_basic_date_alias_parses() {
    let parser = StrptimeParser::from_java_datetime_format("basic_date").unwrap();
    assert_eq!(parser.strptime_format(), "yyyyMMdd");
    assert_eq!(
        parser.parse_date_time("20210101").unwrap(),
        UtcInstant::from_nanos(1609459200 * NANOS_PER_SEC)
    );
}

#[test]
fn test_invalid_calendar_date_fails() {
    let parser = StrptimeParser::from_strptime("%Y-%m-%d").unwrap();
    assert!(parser.parse_date_time("2021-02-30").is_err());
    assert!(parser.parse_date_time("2021-13-01").is_err());
}

#[test]
fn test_offset_aware_parsing_normalizes_to_utc() {
    let parser = StrptimeParser::from_strptime("%Y-%m-%d %H:%M:%S %z").unwrap();
    // 2012-05-21 12:09:14 at +09:00 is 03:09:14 UTC.
    assert_eq!(
        parser.parse_date_time("2012-05-21 12:09:14 +0900").unwrap(),
        UtcInstant::from_nanos((1337558400 + 3 * 3600 + 9 * 60 + 14) * NANOS_PER_SEC)
    );
}

#[test]
fn test_format_date_time_with_custom_pattern() {
    let parser = StrptimeParser::from_strptime("%Y-%m-%d").unwrap();
    let instant = UtcInstant::from_nanos(1609459200 * NANOS_PER_SEC);
    assert_eq!(parser.format_date_time(&instant).unwrap(), "2021-01-01");
}

#[test]
fn test_parsers_equal_by_pattern_string() {
    let a = StrptimeParser::from_strptime("%Y-%m-%d").unwrap();
    let b = StrptimeParser::from_strptime("%Y-%m-%d").unwrap();
    let c = StrptimeParser::from_strptime("%Y/%m/%d").unwrap();
    assert_eq!(a, b);
    assert_ne!(a, c);
    assert_eq!(a.clone(), b);
}
