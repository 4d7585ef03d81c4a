//! The format selectors: closed sets of input and output datetime formats,
//! each dispatching to a named standard, a raw Unix timestamp, or a
//! compiled custom pattern, with fixed case-insensitive short names.

use crate::instant::UtcInstant;
use crate::instant::timestamp_micros_of;
use crate::instant::timestamp_millis_of;
use crate::instant::timestamp_secs_of;
use crate::instant::div_trunc;
use crate::strptime::StrptimeParser;
use crate::strptime::has_offset_marker;
use crate::strptime::naive_parse_post;
use crate::strptime::result_is_instant;
use crate::strptime::strptime_error_prefix;
use crate::text::eq_ignore_case;
use crate::text::eq_ignore_ascii_case;
use crate::text::lemma_no_ascii_uppercase_from;
use crate::text::no_ascii_uppercase;
use crate::text::no_ascii_uppercase_from;
use crate::text::decimal_value;
use crate::text::is_decimal_int;
use crate::text::parse_i64_decimal;
use crate::time_bridge::format_iso8601;
use crate::time_bridge::items_format_of;
use crate::time_bridge::offset_parse_of;
use crate::time_bridge::strptime_items;
use crate::time_bridge::format_rfc2822;
use crate::time_bridge::format_rfc3339;
use crate::time_bridge::iso8601_of;
use crate::time_bridge::iso8601_value;
use crate::time_bridge::parse_iso8601;
use crate::time_bridge::parse_rfc2822;
use crate::time_bridge::parse_rfc3339;
use crate::time_bridge::rfc2822_of;
use crate::time_bridge::rfc2822_value;
use crate::time_bridge::rfc3339_of;
use crate::time_bridge::rfc3339_value;
use crate::time_bridge::strptime_compile_ok;
use vstd::prelude::*;
use vstd::string::StrSliceExecFns;
use vstd::string::StringExecFns;

verus! {

/// Whether `c` is one of the strftime specifier characters that the
/// low-level grammar recognizes after a `%`.
pub open spec fn is_strftime_marker_char(c: char) -> bool {
    c == 'a' || c == 'A' || c == 'b' || c == 'B' || c == 'c' || c == 'C' || c == 'd' || c == 'D'
        || c == 'e' || c == 'f' || c == 'F' || c == 'h' || c == 'H' || c == 'I' || c == 'j' || c
        == 'k' || c == 'l' || c == 'm' || c == 'M' || c == 'n' || c == 'p' || c == 'P' || c == 'r'
        || c == 'R' || c == 'S' || c == 't' || c == 'T' || c == 'U' || c == 'w' || c == 'W' || c
        == 'x' || c == 'X' || c == 'y' || c == 'Y' || c == 'z' || c == 'Z'
}

/// The format string holds at least one two-character strftime marker:
/// a `%` followed by a recognized specifier character.
pub open spec fn has_strftime_marker(s: Seq<char>) -> bool {
    exists|i: int|
        0 <= i < s.len() - 1 && #[trigger] s[i] == '%' && is_strftime_marker_char(s[i + 1])
}

fn is_strftime_marker_char_exec(c: char) -> (r: bool)
    ensures
        r == is_strftime_marker_char(c),
{
    c == 'a' || c == 'A' || c == 'b' || c == 'B' || c == 'c' || c == 'C' || c == 'd' || c == 'D'
        || c == 'e' || c == 'f' || c == 'F' || c == 'h' || c == 'H' || c == 'I' || c == 'j' || c
        == 'k' || c == 'l' || c == 'm' || c == 'M' || c == 'n' || c == 'p' || c == 'P' || c == 'r'
        || c == 'R' || c == 'S' || c == 't' || c == 'T' || c == 'U' || c == 'w' || c == 'W' || c
        == 'x' || c == 'X' || c == 'y' || c == 'Y' || c == 'z' || c == 'Z'
}

/// Checks if a format contains a strftime special character sequence.
pub fn is_strftime_formatting(format_str: &str) -> (r: bool)
    ensures
        r == has_strftime_marker(format_str@),
{
    let n = format_str.unicode_len();
    if n == 0 {
        return false;
    }
    let mut i: usize = 0;
    while i < n - 1
        invariant
            n == format_str@.len(),
            1 <= n,
            i <= n - 1,
            forall|k: int|
                0 <= k < i ==> !(#[trigger] format_str@[k] == '%' && is_strftime_marker_char(
                    format_str@[k + 1],
                )),
        decreases n - i,
    {
        if format_str.get_char(i) == '%' && is_strftime_marker_char_exec(
            format_str.get_char(i + 1),
        ) {
            return true;
        }
        i += 1;
    }
    false
}

/// A JSON-compatible rendering of a datetime value: named-standard and
/// custom-pattern outputs render as text, raw-timestamp outputs as an
/// integer.
pub enum JsonValue {
    Str(String),
    Num(i64),
}

/// Specifies the datetime and unix timestamp formats to use when parsing
/// date strings.
#[derive(Clone, Debug, PartialEq, Eq)]
pub enum DateTimeInputFormat {
    Iso8601,
    Rfc2822,
    Rfc3339,
    Strptime(StrptimeParser),
    Timestamp,
}

/// The canonical short name of an input format; a custom pattern renders
/// as its pattern string.
pub open spec fn input_format_name(f: DateTimeInputFormat) -> Seq<char> {
    match f {
        DateTimeInputFormat::Iso8601 => "iso8601"@,
        DateTimeInputFormat::Rfc2822 => "rfc2822"@,
        DateTimeInputFormat::Rfc3339 => "rfc3339"@,
        DateTimeInputFormat::Strptime(parser) => parser@.format,
        DateTimeInputFormat::Timestamp => "unix_timestamp"@,
    }
}

/// The string is one of the fixed input short names, up to ASCII case.
pub open spec fn is_input_short_name(s: Seq<char>) -> bool {
    eq_ignore_case(s, "iso8601"@) || eq_ignore_case(s, "rfc2822"@) || eq_ignore_case(
        s,
        "rfc3339"@,
    ) || eq_ignore_case(s, "unix_timestamp"@)
}

/// The error text for an input format string that is neither a short name
/// nor a custom pattern.
pub open spec fn unknown_input_message(s: Seq<char>) -> Seq<char> {
    "unknown input format: `"@ + s
        + "`. a custom date time format must contain at least one `strftime` special characters"@
}

impl DateTimeInputFormat {
    /// The canonical rendering of this format: its short name, or the
    /// pattern string for a custom format.
    pub fn as_str(&self) -> (r: &str)
        ensures
            r@ == input_format_name(*self),
    {
        match self {
            DateTimeInputFormat::Iso8601 => "iso8601",
            DateTimeInputFormat::Rfc2822 => "rfc2822",
            DateTimeInputFormat::Rfc3339 => "rfc3339",
            DateTimeInputFormat::Strptime(parser) => parser.strptime_format().as_str(),
            DateTimeInputFormat::Timestamp => "unix_timestamp",
        }
    }

    /// Selects an input format from its short name, compared without
    /// regard to ASCII case; any other string must hold at least one
    /// strftime marker and is compiled as a custom strptime pattern.
    /// An unmatched string without a marker is rejected up front, with no
    /// compilation attempt.
    pub fn from_str(date_time_format_str: &str) -> (r: Result<DateTimeInputFormat, String>)
        ensures
            match r {
                Ok(f) => match f {
                    DateTimeInputFormat::Iso8601 => eq_ignore_case(
                        date_time_format_str@,
                        "iso8601"@,
                    ),
                    DateTimeInputFormat::Rfc2822 => eq_ignore_case(
                        date_time_format_str@,
                        "rfc2822"@,
                    ),
                    DateTimeInputFormat::Rfc3339 => eq_ignore_case(
                        date_time_format_str@,
                        "rfc3339"@,
                    ),
                    DateTimeInputFormat::Timestamp => eq_ignore_case(
                        date_time_format_str@,
                        "unix_timestamp"@,
                    ),
                    DateTimeInputFormat::Strptime(p) => !is_input_short_name(
                        date_time_format_str@,
                    ) && has_strftime_marker(date_time_format_str@) && strptime_compile_ok(
                        date_time_format_str@,
                    ) && p@.format == date_time_format_str@ && p@.with_timezone
                        == has_offset_marker(date_time_format_str@) && p@.items == strptime_items(
                        date_time_format_str@,
                    ),
                },
                Err(e) => !is_input_short_name(date_time_format_str@) && ((!has_strftime_marker(
                    date_time_format_str@,
                ) && e@ == unknown_input_message(date_time_format_str@)) || (has_strftime_marker(
                    date_time_format_str@,
                ) && !strptime_compile_ok(date_time_format_str@) && (exists|tail: Seq<char>|
                    e@ == strptime_error_prefix(date_time_format_str@) + tail))),
            },
    {
        if eq_ignore_ascii_case(date_time_format_str, "iso8601") {
            Ok(DateTimeInputFormat::Iso8601)
        } else if eq_ignore_ascii_case(date_time_format_str, "rfc2822") {
            Ok(DateTimeInputFormat::Rfc2822)
        } else if eq_ignore_ascii_case(date_time_format_str, "rfc3339") {
            Ok(DateTimeInputFormat::Rfc3339)
        } else if eq_ignore_ascii_case(date_time_format_str, "unix_timestamp") {
            Ok(DateTimeInputFormat::Timestamp)
        } else if !is_strftime_formatting(date_time_format_str) {
            let mut message = "unknown input format: `".to_owned();
            message.append(date_time_format_str);
            message.append(
                "`. a custom date time format must contain at least one `strftime` special characters",
            );
            proof {
                assert(message@ =~= unknown_input_message(date_time_format_str@));
            }
            Err(message)
        } else {
            match StrptimeParser::from_strptime(date_time_format_str) {
                Ok(parser) => Ok(DateTimeInputFormat::Strptime(parser)),
                Err(e) => Err(e),
            }
        }
    }

    /// Parses a date string according to this input format: a named
    /// standard through its well-known grammar, a raw timestamp as whole
    /// seconds since the Unix epoch, and a custom pattern through its
    /// compiled items.
    pub fn parse_date_time(&self, date_time_str: &str) -> (r: Result<UtcInstant, String>)
        ensures
            self matches DateTimeInputFormat::Iso8601 ==> (r is Ok <==> iso8601_value(
                date_time_str@,
            ) is Some) && (r matches Ok(t) ==> Some(t.nanos as int) == iso8601_value(
                date_time_str@,
            )),
            self matches DateTimeInputFormat::Rfc2822 ==> (r is Ok <==> rfc2822_value(
                date_time_str@,
            ) is Some) && (r matches Ok(t) ==> Some(t.nanos as int) == rfc2822_value(
                date_time_str@,
            )),
            self matches DateTimeInputFormat::Rfc3339 ==> (r is Ok <==> rfc3339_value(
                date_time_str@,
            ) is Some) && (r matches Ok(t) ==> Some(t.nanos as int) == rfc3339_value(
                date_time_str@,
            )),
            self matches DateTimeInputFormat::Timestamp ==> (r is Ok <==> is_decimal_int(
                date_time_str@,
            ) && i64::MIN <= decimal_value(date_time_str@) <= i64::MAX) && (r matches Ok(t)
                ==> t.nanos == decimal_value(date_time_str@) * 1_000_000_000),
            self matches DateTimeInputFormat::Strptime(p) ==> (p@.with_timezone
                ==> result_is_instant(r, offset_parse_of(p@.items, date_time_str@))) && (
            !p@.with_timezone ==> naive_parse_post(p@.items, p@.format, date_time_str@, r)),
    {
        match self {
            DateTimeInputFormat::Iso8601 => match parse_iso8601(date_time_str) {
                Ok(nanos) => Ok(UtcInstant::from_nanos(nanos)),
                Err(e) => Err(e),
            },
            DateTimeInputFormat::Rfc2822 => match parse_rfc2822(date_time_str) {
                Ok(nanos) => Ok(UtcInstant::from_nanos(nanos)),
                Err(e) => Err(e),
            },
            DateTimeInputFormat::Rfc3339 => match parse_rfc3339(date_time_str) {
                Ok(nanos) => Ok(UtcInstant::from_nanos(nanos)),
                Err(e) => Err(e),
            },
            DateTimeInputFormat::Timestamp => match parse_i64_decimal(date_time_str) {
                Ok(secs) => Ok(UtcInstant::from_nanos((secs as i128) * 1_000_000_000i128)),
                Err(e) => Err(e),
            },
            DateTimeInputFormat::Strptime(parser) => parser.parse_date_time(date_time_str),
        }
    }
}

impl core::str::FromStr for DateTimeInputFormat {
    type Err = String;

    fn from_str(date_time_format_str: &str) -> Result<DateTimeInputFormat, String> {
        DateTimeInputFormat::from_str(date_time_format_str)
    }
}

impl Default for DateTimeInputFormat {
    /// The default input format is RFC 3339.
    fn default() -> (r: Self)
        ensures
            r matches DateTimeInputFormat::Rfc3339,
    {
        DateTimeInputFormat::Rfc3339
    }
}

/// Specifies the datetime format to use when displaying datetime values.
#[derive(Clone, Debug, PartialEq, Eq)]
pub enum DateTimeOutputFormat {
    Iso8601,
    Rfc2822,
    Rfc3339,
    Strptime(StrptimeParser),
    TimestampSecs,
    TimestampMillis,
    TimestampMicros,
    TimestampNanos,
}

/// The canonical short name of an output format; a custom pattern renders
/// as its pattern string.
pub open spec fn output_format_name(f: DateTimeOutputFormat) -> Seq<char> {
    match f {
        DateTimeOutputFormat::Iso8601 => "iso8601"@,
        DateTimeOutputFormat::Rfc2822 => "rfc2822"@,
        DateTimeOutputFormat::Rfc3339 => "rfc3339"@,
        DateTimeOutputFormat::Strptime(parser) => parser@.format,
        DateTimeOutputFormat::TimestampSecs => "unix_timestamp_secs"@,
        DateTimeOutputFormat::TimestampMillis => "unix_timestamp_millis"@,
        DateTimeOutputFormat::TimestampMicros => "unix_timestamp_micros"@,
        DateTimeOutputFormat::TimestampNanos => "unix_timestamp_nanos"@,
    }
}

/// The string is one of the fixed output short names, up to ASCII case.
pub open spec fn is_output_short_name(s: Seq<char>) -> bool {
    eq_ignore_case(s, "iso8601"@) || eq_ignore_case(s, "rfc2822"@) || eq_ignore_case(
        s,
        "rfc3339"@,
    ) || eq_ignore_case(s, "unix_timestamp_secs"@) || eq_ignore_case(s, "unix_timestamp_millis"@)
        || eq_ignore_case(s, "unix_timestamp_micros"@) || eq_ignore_case(
        s,
        "unix_timestamp_nanos"@,
    )
}

/// The error text for an output format string that is neither a short name
/// nor a custom pattern.
pub open spec fn unknown_output_message(s: Seq<char>) -> Seq<char> {
    "unknown output format: `"@ + s
        + "`. a custom date time format must contain at least one `strftime` special characters"@
}

impl DateTimeOutputFormat {
    /// The canonical rendering of this format: its short name, or the
    /// pattern string for a custom format.
    pub fn as_str(&self) -> (r: &str)
        ensures
            r@ == output_format_name(*self),
    {
        match self {
            DateTimeOutputFormat::Iso8601 => "iso8601",
            DateTimeOutputFormat::Rfc2822 => "rfc2822",
            DateTimeOutputFormat::Rfc3339 => "rfc3339",
            DateTimeOutputFormat::Strptime(parser) => parser.strptime_format().as_str(),
            DateTimeOutputFormat::TimestampSecs => "unix_timestamp_secs",
            DateTimeOutputFormat::TimestampMillis => "unix_timestamp_millis",
            DateTimeOutputFormat::TimestampMicros => "unix_timestamp_micros",
            DateTimeOutputFormat::TimestampNanos => "unix_timestamp_nanos",
        }
    }

    /// Selects an output format from its short name, compared without
    /// regard to ASCII case; any other string must hold at least one
    /// strftime marker and is compiled as a custom strptime pattern.
    /// An unmatched string without a marker is rejected up front, with no
    /// compilation attempt.
    pub fn from_str(date_time_format_str: &str) -> (r: Result<DateTimeOutputFormat, String>)
        ensures
            match r {
                Ok(f) => match f {
                    DateTimeOutputFormat::Iso8601 => eq_ignore_case(
                        date_time_format_str@,
                        "iso8601"@,
                    ),
                    DateTimeOutputFormat::Rfc2822 => eq_ignore_case(
                        date_time_format_str@,
                        "rfc2822"@,
                    ),
                    DateTimeOutputFormat::Rfc3339 => eq_ignore_case(
                        date_time_format_str@,
                        "rfc3339"@,
                    ),
                    DateTimeOutputFormat::TimestampSecs => eq_ignore_case(
                        date_time_format_str@,
                        "unix_timestamp_secs"@,
                    ),
                    DateTimeOutputFormat::TimestampMillis => eq_ignore_case(
                        date_time_format_str@,
                        "unix_timestamp_millis"@,
                    ),
                    DateTimeOutputFormat::TimestampMicros => eq_ignore_case(
                        date_time_format_str@,
                        "unix_timestamp_micros"@,
                    ),
                    DateTimeOutputFormat::TimestampNanos => eq_ignore_case(
                        date_time_format_str@,
                        "unix_timestamp_nanos"@,
                    ),
                    DateTimeOutputFormat::Strptime(p) => !is_output_short_name(
                        date_time_format_str@,
                    ) && has_strftime_marker(date_time_format_str@) && strptime_compile_ok(
                        date_time_format_str@,
                    ) && p@.format == date_time_format_str@ && p@.with_timezone
                        == has_offset_marker(date_time_format_str@) && p@.items == strptime_items(
                        date_time_format_str@,
                    ),
                },
                Err(e) => !is_output_short_name(date_time_format_str@) && ((!has_strftime_marker(
                    date_time_format_str@,
                ) && e@ == unknown_output_message(date_time_format_str@)) || (has_strftime_marker(
                    date_time_format_str@,
                ) && !strptime_compile_ok(date_time_format_str@) && (exists|tail: Seq<char>|
                    e@ == strptime_error_prefix(date_time_format_str@) + tail))),
            },
    {
        if eq_ignore_ascii_case(date_time_format_str, "iso8601") {
            Ok(DateTimeOutputFormat::Iso8601)
        } else if eq_ignore_ascii_case(date_time_format_str, "rfc2822") {
            Ok(DateTimeOutputFormat::Rfc2822)
        } else if eq_ignore_ascii_case(date_time_format_str, "rfc3339") {
            Ok(DateTimeOutputFormat::Rfc3339)
        } else if eq_ignore_ascii_case(date_time_format_str, "unix_timestamp_secs") {
            Ok(DateTimeOutputFormat::TimestampSecs)
        } else if eq_ignore_ascii_case(date_time_format_str, "unix_timestamp_millis") {
            Ok(DateTimeOutputFormat::TimestampMillis)
        } else if eq_ignore_ascii_case(date_time_format_str, "unix_timestamp_micros") {
            Ok(DateTimeOutputFormat::TimestampMicros)
        } else if eq_ignore_ascii_case(date_time_format_str, "unix_timestamp_nanos") {
            Ok(DateTimeOutputFormat::TimestampNanos)
        } else if !is_strftime_formatting(date_time_format_str) {
            let mut message = "unknown output format: `".to_owned();
            message.append(date_time_format_str);
            message.append(
                "`. a custom date time format must contain at least one `strftime` special characters",
            );
            proof {
                assert(message@ =~= unknown_output_message(date_time_format_str@));
            }
            Err(message)
        } else {
            match StrptimeParser::from_strptime(date_time_format_str) {
                Ok(parser) => Ok(DateTimeOutputFormat::Strptime(parser)),
                Err(e) => Err(e),
            }
        }
    }

    /// Renders an instant as a JSON-compatible value: the named standards
    /// and custom patterns as text, the raw timestamps as integers in
    /// their unit, truncated towards zero. The instant must lie in the
    /// storage range of signed 64-bit nanoseconds.
    pub fn format_to_json(&self, date_time: UtcInstant) -> (r: Result<JsonValue, String>)
        requires
            i64::MIN <= date_time.nanos <= i64::MAX,
        ensures
            self matches DateTimeOutputFormat::Rfc3339 ==> (r is Ok <==> rfc3339_of(
                date_time.nanos as int,
            ) is Some) && (r matches Ok(v) ==> v matches JsonValue::Str(t) && Some(t@)
                == rfc3339_of(date_time.nanos as int)),
            self matches DateTimeOutputFormat::Rfc2822 ==> (r is Ok <==> rfc2822_of(
                date_time.nanos as int,
            ) is Some) && (r matches Ok(v) ==> v matches JsonValue::Str(t) && Some(t@)
                == rfc2822_of(date_time.nanos as int)),
            self matches DateTimeOutputFormat::Iso8601 ==> (r is Ok <==> iso8601_of(
                date_time.nanos as int,
            ) is Some) && (r matches Ok(v) ==> v matches JsonValue::Str(t) && Some(t@)
                == iso8601_of(date_time.nanos as int)),
            self matches DateTimeOutputFormat::Strptime(p) ==> (r is Ok <==> items_format_of(
                p@.items,
                date_time.nanos as int,
            ) is Some) && (r matches Ok(v) ==> v matches JsonValue::Str(t) && Some(t@)
                == items_format_of(p@.items, date_time.nanos as int)),
            self matches DateTimeOutputFormat::TimestampSecs ==> r matches Ok(v) && v
                matches JsonValue::Num(n) && n == timestamp_secs_of(date_time.nanos as int),
            self matches DateTimeOutputFormat::TimestampMillis ==> r matches Ok(v) && v
                matches JsonValue::Num(n) && n == timestamp_millis_of(date_time.nanos as int),
            self matches DateTimeOutputFormat::TimestampMicros ==> r matches Ok(v) && v
                matches JsonValue::Num(n) && n == timestamp_micros_of(date_time.nanos as int),
            self matches DateTimeOutputFormat::TimestampNanos ==> r matches Ok(v) && v
                matches JsonValue::Num(n) && n == date_time.nanos,
    {
        let nanos = date_time.as_nanos();
        match self {
            DateTimeOutputFormat::Rfc3339 => match format_rfc3339(nanos) {
                Ok(text) => Ok(JsonValue::Str(text)),
                Err(e) => Err(e),
            },
            DateTimeOutputFormat::Iso8601 => match format_iso8601(nanos) {
                Ok(text) => Ok(JsonValue::Str(text)),
                Err(e) => Err(e),
            },
            DateTimeOutputFormat::Rfc2822 => match format_rfc2822(nanos) {
                Ok(text) => Ok(JsonValue::Str(text)),
                Err(e) => Err(e),
            },
            DateTimeOutputFormat::Strptime(parser) => match parser.format_date_time(&date_time) {
                Ok(text) => Ok(JsonValue::Str(text)),
                Err(e) => Err(e),
            },
            DateTimeOutputFormat::TimestampSecs => Ok(
                JsonValue::Num(div_trunc(nanos as i64, 1_000_000_000)),
            ),
            DateTimeOutputFormat::TimestampMillis => Ok(
                JsonValue::Num(div_trunc(nanos as i64, 1_000_000)),
            ),
            DateTimeOutputFormat::TimestampMicros => Ok(
                JsonValue::Num(div_trunc(nanos as i64, 1_000)),
            ),
            DateTimeOutputFormat::TimestampNanos => Ok(JsonValue::Num(nanos as i64)),
        }
    }
}

impl core::str::FromStr for DateTimeOutputFormat {
    type Err = String;

    fn from_str(date_time_format_str: &str) -> Result<DateTimeOutputFormat, String> {
        DateTimeOutputFormat::from_str(date_time_format_str)
    }
}

impl Default for DateTimeOutputFormat {
    /// The default output format is RFC 3339.
    fn default() -> (r: Self)
        ensures
            r matches DateTimeOutputFormat::Rfc3339,
    {
        DateTimeOutputFormat::Rfc3339
    }
}

/// Serialization always emits the lower-case canonical form: no short name
/// of a named variant holds an ASCII upper-case letter. (A custom pattern
/// renders as the pattern string itself, which may hold any case.)
pub proof fn lemma_canonical_names_lowercase(f: DateTimeInputFormat, g: DateTimeOutputFormat)
    requires
        !(f matches DateTimeInputFormat::Strptime(_)),
        !(g matches DateTimeOutputFormat::Strptime(_)),
    ensures
        no_ascii_uppercase(input_format_name(f)),
        no_ascii_uppercase(output_format_name(g)),
{
    reveal_strlit("iso8601");
    reveal_strlit("rfc2822");
    reveal_strlit("rfc3339");
    reveal_strlit("unix_timestamp");
    reveal_strlit("unix_timestamp_secs");
    reveal_strlit("unix_timestamp_millis");
    reveal_strlit("unix_timestamp_micros");
    reveal_strlit("unix_timestamp_nanos");
    reveal_with_fuel(no_ascii_uppercase_from, 25);
    lemma_no_ascii_uppercase_from("iso8601"@, 0);
    lemma_no_ascii_uppercase_from("rfc2822"@, 0);
    lemma_no_ascii_uppercase_from("rfc3339"@, 0);
    lemma_no_ascii_uppercase_from("unix_timestamp"@, 0);
    lemma_no_ascii_uppercase_from("unix_timestamp_secs"@, 0);
    lemma_no_ascii_uppercase_from("unix_timestamp_millis"@, 0);
    lemma_no_ascii_uppercase_from("unix_timestamp_micros"@, 0);
    lemma_no_ascii_uppercase_from("unix_timestamp_nanos"@, 0);
}

/// Short-name selection is insensitive to ASCII case: two spellings that
/// agree up to case are recognized as the same short name, for every input
/// and output name.
pub proof fn lemma_short_name_case_insensitive(s1: Seq<char>, s2: Seq<char>)
    requires
        eq_ignore_case(s1, s2),
    ensures
        eq_ignore_case(s1, "iso8601"@) == eq_ignore_case(s2, "iso8601"@),
        eq_ignore_case(s1, "rfc2822"@) == eq_ignore_case(s2, "rfc2822"@),
        eq_ignore_case(s1, "rfc3339"@) == eq_ignore_case(s2, "rfc3339"@),
        eq_ignore_case(s1, "unix_timestamp"@) == eq_ignore_case(s2, "unix_timestamp"@),
        eq_ignore_case(s1, "unix_timestamp_secs"@) == eq_ignore_case(s2, "unix_timestamp_secs"@),
        eq_ignore_case(s1, "unix_timestamp_millis"@) == eq_ignore_case(
            s2,
            "unix_timestamp_millis"@,
        ),
        eq_ignore_case(s1, "unix_timestamp_micros"@) == eq_ignore_case(
            s2,
            "unix_timestamp_micros"@,
        ),
        eq_ignore_case(s1, "unix_timestamp_nanos"@) == eq_ignore_case(s2, "unix_timestamp_nanos"@),
        is_input_short_name(s1) == is_input_short_name(s2),
        is_output_short_name(s1) == is_output_short_name(s2),
{
}

} // verus!
