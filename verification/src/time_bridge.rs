//! The trusted boundary around the `time` and `time-fmt` crates: the
//! low-level strptime grammar, the format-item interpreter, and the
//! well-known renderings. Each item here wraps one outside function and
//! states only what that function's source or documentation shows.

use time::format_description::OwnedFormatItem;
use time::parsing::Parsed;
use vstd::prelude::*;

verus! {

#[verifier::external_type_specification]
#[verifier::external_body]
pub struct ExOwnedFormatItem(OwnedFormatItem);

#[verifier::external_type_specification]
#[verifier::external_body]
pub struct ExParsed(Parsed);

/// Whether the strptime grammar accepts the pattern. The grammar itself is
/// the outside crate's; compilation is deterministic in the pattern alone.
pub uninterp spec fn strptime_compile_ok(pattern: Seq<char>) -> bool;

/// The format items the strptime grammar compiles an accepted pattern
/// into: a function of the pattern alone.
pub uninterp spec fn strptime_items(pattern: Seq<char>) -> Seq<OwnedFormatItem>;

/// Relies on `time_fmt::parse::time_format_item::parse_to_format_item`:
/// compiles a strptime pattern into format items usable for both parsing
/// and formatting; acceptance and output depend on the pattern alone (the
/// grammar is pure, with POSIX month and weekday names built in).
#[verifier::external_body]
pub fn compile_strptime(pattern: &str) -> (r: Result<Vec<OwnedFormatItem>, String>)
    ensures
        r is Ok <==> strptime_compile_ok(pattern@),
        r matches Ok(items) ==> items@ == strptime_items(pattern@),
{
    time_fmt::parse::time_format_item::parse_to_format_item(pattern)
        .map(|items| items.into_iter().map(|item| item.into()).collect())
        .map_err(|err| err.to_string())
}

/// The literal format item holding the UTF-8 bytes of the given text.
pub uninterp spec fn literal_item_of(text: Seq<char>) -> OwnedFormatItem;

/// The year format item, four-digit (`full`) or two-digit.
pub uninterp spec fn year_item_of(full: bool) -> OwnedFormatItem;

/// The numeric month format item, zero-padded or unpadded.
pub uninterp spec fn month_item_of(padded: bool) -> OwnedFormatItem;

/// The numeric day-of-month format item, zero-padded or unpadded.
pub uninterp spec fn day_item_of(padded: bool) -> OwnedFormatItem;

/// Relies on `OwnedFormatItem::Literal`: bytes emitted and matched
/// verbatim; construction is a pure function of the text.
#[verifier::external_body]
pub fn literal_item(text: &str) -> (r: OwnedFormatItem)
    ensures
        r == literal_item_of(text@),
{
    OwnedFormatItem::Literal(text.as_bytes().to_vec().into_boxed_slice())
}

/// Relies on `time::format_description::modifier::Year`: a four-digit
/// (`Full`) or two-digit (`LastTwo`) year component; construction is a
/// pure function of the flag.
#[verifier::external_body]
#[allow(deprecated)]
pub fn year_item(full: bool) -> (r: OwnedFormatItem)
    ensures
        r == year_item_of(full),
{
    let mut year = time::format_description::modifier::Year::default();
    year.repr = if full {
        time::format_description::modifier::YearRepr::Full
    } else {
        time::format_description::modifier::YearRepr::LastTwo
    };
    OwnedFormatItem::Component(time::format_description::Component::Year(year))
}

/// Relies on `time::format_description::modifier::Month`: a numeric month,
/// zero-padded or unpadded; construction is a pure function of the flag.
#[verifier::external_body]
#[allow(deprecated)]
pub fn month_item(padded: bool) -> (r: OwnedFormatItem)
    ensures
        r == month_item_of(padded),
{
    let mut month = time::format_description::modifier::Month::default();
    month.padding = if padded {
        time::format_description::modifier::Padding::Zero
    } else {
        time::format_description::modifier::Padding::None
    };
    OwnedFormatItem::Component(time::format_description::Component::Month(month))
}

/// Relies on `time::format_description::modifier::Day`: a numeric day of
/// month, zero-padded or unpadded; construction is a pure function of the
/// flag.
#[verifier::external_body]
#[allow(deprecated)]
pub fn day_item(padded: bool) -> (r: OwnedFormatItem)
    ensures
        r == day_item_of(padded),
{
    let mut day = time::format_description::modifier::Day::default();
    day.padding = if padded {
        time::format_description::modifier::Padding::Zero
    } else {
        time::format_description::modifier::Padding::None
    };
    OwnedFormatItem::Component(time::format_description::Component::Day(day))
}

/// The `year` field of a `Parsed` value.
pub uninterp spec fn parsed_year(p: Parsed) -> Option<i32>;

/// The `month` field of a `Parsed` value, as a month number 1 through 12.
pub uninterp spec fn parsed_month(p: Parsed) -> Option<u8>;

/// The `hour_24` field of a `Parsed` value.
pub uninterp spec fn parsed_hour_24(p: Parsed) -> Option<u8>;

/// The `hour_12` field of a `Parsed` value.
pub uninterp spec fn parsed_hour_12(p: Parsed) -> Option<u8>;

/// The `hour_12_is_pm` field of a `Parsed` value.
pub uninterp spec fn parsed_pm(p: Parsed) -> Option<bool>;

/// The `minute` field of a `Parsed` value.
pub uninterp spec fn parsed_minute(p: Parsed) -> Option<u8>;

/// The `second` field of a `Parsed` value.
pub uninterp spec fn parsed_second(p: Parsed) -> Option<u8>;

/// The `Parsed` value that matching the input against the format items
/// fills in, starting from a fresh `Parsed`, where the match succeeds:
/// a function of the items and the text alone.
pub uninterp spec fn naive_parsed_of(items: Seq<OwnedFormatItem>, text: Seq<char>) -> Option<
    Parsed,
>;

/// The byte length of the input left unconsumed by that match, where it
/// succeeds.
pub uninterp spec fn naive_leftover_of(items: Seq<OwnedFormatItem>, text: Seq<char>) -> int;

/// Relies on `Parsed::new` and `Parsed::parse_items`: matches the input
/// against the format items into a fresh `Parsed`, returning the filled
/// value and the byte length of the unconsumed remainder. Parsing reads
/// nothing but its arguments, so the outcome is a function of the items
/// and the text.
#[verifier::external_body]
pub fn parse_items_fresh(items: &Vec<OwnedFormatItem>, text: &str) -> (r: Result<
    (Parsed, usize),
    String,
>)
    ensures
        r is Ok <==> naive_parsed_of(items@, text@) is Some,
        r matches Ok(pn) ==> Some(pn.0) == naive_parsed_of(items@, text@) && pn.1 as int
            == naive_leftover_of(items@, text@),
{
    let mut parsed = Parsed::new();
    let leftover = parsed.parse_items(text.as_bytes(), items).map_err(|err| err.to_string())?;
    Ok((parsed, leftover.len()))
}

/// Relies on `Parsed::year`.
#[verifier::external_body]
pub fn parsed_year_of(p: &Parsed) -> (r: Option<i32>)
    ensures
        r == parsed_year(*p),
{
    p.year()
}

/// Relies on `Parsed::month`: month numbers are 1 through 12.
#[verifier::external_body]
pub fn parsed_month_of(p: &Parsed) -> (r: Option<u8>)
    ensures
        r == parsed_month(*p),
        r matches Some(m) ==> 1 <= m <= 12,
{
    match p.month() {
        Some(m) => Some(m as u8),
        None => None,
    }
}

/// Relies on `Parsed::hour_24`.
#[verifier::external_body]
pub fn parsed_hour_24_of(p: &Parsed) -> (r: Option<u8>)
    ensures
        r == parsed_hour_24(*p),
{
    p.hour_24()
}

/// Relies on `Parsed::hour_12`.
#[verifier::external_body]
pub fn parsed_hour_12_of(p: &Parsed) -> (r: Option<u8>)
    ensures
        r == parsed_hour_12(*p),
{
    match p.hour_12() {
        Some(h) => Some(h.get()),
        None => None,
    }
}

/// Relies on `Parsed::hour_12_is_pm`.
#[verifier::external_body]
pub fn parsed_pm_of(p: &Parsed) -> (r: Option<bool>)
    ensures
        r == parsed_pm(*p),
{
    p.hour_12_is_pm()
}

/// The value `Parsed::set_hour_24` leaves behind: a function of the prior
/// value and the argument.
pub uninterp spec fn parsed_with_hour_24(p: Parsed, v: u8) -> Parsed;

/// The value `Parsed::set_minute` leaves behind.
pub uninterp spec fn parsed_with_minute(p: Parsed, v: u8) -> Parsed;

/// The value `Parsed::set_second` leaves behind.
pub uninterp spec fn parsed_with_second(p: Parsed, v: u8) -> Parsed;

/// The value `Parsed::set_year` leaves behind.
pub uninterp spec fn parsed_with_year(p: Parsed, v: i32) -> Parsed;

/// Relies on `Parsed::set_hour_24`: sets the component when the value is a
/// valid hour, and leaves the whole value unchanged otherwise; no other
/// component is touched.
#[verifier::external_body]
pub fn set_parsed_hour_24(p: &mut Parsed, v: u8)
    ensures
        *final(p) == parsed_with_hour_24(*old(p), v),
        v <= 23 ==> parsed_hour_24(*final(p)) == Some(v),
        v > 23 ==> parsed_hour_24(*final(p)) == parsed_hour_24(*old(p)),
        parsed_year(*final(p)) == parsed_year(*old(p)),
        parsed_month(*final(p)) == parsed_month(*old(p)),
        parsed_hour_12(*final(p)) == parsed_hour_12(*old(p)),
        parsed_pm(*final(p)) == parsed_pm(*old(p)),
        parsed_minute(*final(p)) == parsed_minute(*old(p)),
        parsed_second(*final(p)) == parsed_second(*old(p)),
{
    let _ = p.set_hour_24(v);
}

/// Relies on `Parsed::set_minute`: as `set_hour_24`, for the minute.
#[verifier::external_body]
pub fn set_parsed_minute(p: &mut Parsed, v: u8)
    ensures
        *final(p) == parsed_with_minute(*old(p), v),
        v <= 59 ==> parsed_minute(*final(p)) == Some(v),
        v > 59 ==> parsed_minute(*final(p)) == parsed_minute(*old(p)),
        parsed_year(*final(p)) == parsed_year(*old(p)),
        parsed_month(*final(p)) == parsed_month(*old(p)),
        parsed_hour_24(*final(p)) == parsed_hour_24(*old(p)),
        parsed_hour_12(*final(p)) == parsed_hour_12(*old(p)),
        parsed_pm(*final(p)) == parsed_pm(*old(p)),
        parsed_second(*final(p)) == parsed_second(*old(p)),
{
    let _ = p.set_minute(v);
}

/// Relies on `Parsed::set_second`: as `set_hour_24`, for the second.
#[verifier::external_body]
pub fn set_parsed_second(p: &mut Parsed, v: u8)
    ensures
        *final(p) == parsed_with_second(*old(p), v),
        v <= 59 ==> parsed_second(*final(p)) == Some(v),
        v > 60 ==> parsed_second(*final(p)) == parsed_second(*old(p)),
        parsed_year(*final(p)) == parsed_year(*old(p)),
        parsed_month(*final(p)) == parsed_month(*old(p)),
        parsed_hour_24(*final(p)) == parsed_hour_24(*old(p)),
        parsed_hour_12(*final(p)) == parsed_hour_12(*old(p)),
        parsed_pm(*final(p)) == parsed_pm(*old(p)),
        parsed_minute(*final(p)) == parsed_minute(*old(p)),
{
    let _ = p.set_second(v);
}

/// Relies on `Parsed::set_year`: sets the component when the value is
/// within the supported calendar range, and leaves the whole value
/// unchanged otherwise; no other component is touched.
#[verifier::external_body]
pub fn set_parsed_year(p: &mut Parsed, v: i32)
    ensures
        *final(p) == parsed_with_year(*old(p), v),
        -9999 <= v <= 9999 ==> parsed_year(*final(p)) == Some(v),
        !(-9999 <= v <= 9999) ==> parsed_year(*final(p)) == parsed_year(*old(p)),
        parsed_month(*final(p)) == parsed_month(*old(p)),
        parsed_hour_24(*final(p)) == parsed_hour_24(*old(p)),
        parsed_hour_12(*final(p)) == parsed_hour_12(*old(p)),
        parsed_pm(*final(p)) == parsed_pm(*old(p)),
        parsed_minute(*final(p)) == parsed_minute(*old(p)),
        parsed_second(*final(p)) == parsed_second(*old(p)),
{
    let _ = p.set_year(v);
}

/// The UTC instant, in nanoseconds since the Unix epoch, that the parsed
/// components combine into, where they are sufficient and name an existing
/// calendar date: a function of the `Parsed` value alone.
pub uninterp spec fn parsed_utc_nanos(p: Parsed) -> Option<int>;

/// Relies on `PrimitiveDateTime::try_from(Parsed)` and
/// `PrimitiveDateTime::assume_utc`: builds a date and time from the parsed
/// components, failing when they are insufficient or name no existing
/// calendar date, and reads it as a UTC instant in nanoseconds since the
/// Unix epoch. The conversion reads nothing but the value.
#[verifier::external_body]
pub fn parsed_to_utc_nanos(parsed: Parsed) -> (r: Result<i128, String>)
    ensures
        r is Ok <==> parsed_utc_nanos(parsed) is Some,
        r matches Ok(n) ==> Some(n as int) == parsed_utc_nanos(parsed),
{
    time::PrimitiveDateTime::try_from(parsed)
        .map(|dt| dt.assume_utc().unix_timestamp_nanos())
        .map_err(|err| err.to_string())
}

/// The UTC instant an offset-aware parse of the text against the format
/// items yields, in nanoseconds since the Unix epoch, where the text
/// matches: a function of the items and the text alone.
pub uninterp spec fn offset_parse_of(items: Seq<OwnedFormatItem>, text: Seq<char>) -> Option<int>;

/// Relies on `OffsetDateTime::parse` with format items: offset-aware
/// parsing whose result carries its own UTC offset, read here as
/// nanoseconds since the Unix epoch. Parsing reads nothing but its
/// arguments.
#[verifier::external_body]
pub fn parse_offset_aware(items: &Vec<OwnedFormatItem>, text: &str) -> (r: Result<i128, String>)
    ensures
        r is Ok <==> offset_parse_of(items@, text@) is Some,
        r matches Ok(n) ==> Some(n as int) == offset_parse_of(items@, text@),
{
    time::OffsetDateTime::parse(text, items)
        .map(|dt| dt.unix_timestamp_nanos())
        .map_err(|err| err.to_string())
}

/// The rendering of a UTC instant, given in nanoseconds since the Unix
/// epoch, according to the format items, where the instant and all its
/// components are representable: a function of the items and the instant
/// alone.
pub uninterp spec fn items_format_of(items: Seq<OwnedFormatItem>, nanos: int) -> Option<Seq<char>>;

/// Relies on `OffsetDateTime::from_unix_timestamp_nanos` and
/// `OffsetDateTime::format` with format items: renders the instant per the
/// compiled items, failing when the instant or a component is out of the
/// representable range. Formatting reads nothing but its arguments.
#[verifier::external_body]
pub fn format_items_utc(items: &Vec<OwnedFormatItem>, nanos: i128) -> (r: Result<String, String>)
    ensures
        r is Ok <==> items_format_of(items@, nanos as int) is Some,
        r matches Ok(s) ==> Some(s@) == items_format_of(items@, nanos as int),
{
    let dt = time::OffsetDateTime::from_unix_timestamp_nanos(nanos).map_err(
        |err| err.to_string(),
    )?;
    dt.format(items).map_err(|err| err.to_string())
}

/// The RFC 3339 rendering of a UTC instant given in nanoseconds since the
/// Unix epoch, where the instant is representable.
pub uninterp spec fn rfc3339_of(nanos: int) -> Option<Seq<char>>;

/// Relies on `OffsetDateTime::format` with the RFC 3339 well-known format:
/// the rendering depends on the instant alone.
#[verifier::external_body]
pub fn format_rfc3339(nanos: i128) -> (r: Result<String, String>)
    ensures
        r is Ok <==> rfc3339_of(nanos as int) is Some,
        r matches Ok(s) ==> Some(s@) == rfc3339_of(nanos as int),
{
    let dt = time::OffsetDateTime::from_unix_timestamp_nanos(nanos).map_err(
        |err| err.to_string(),
    )?;
    dt.format(&time::format_description::well_known::Rfc3339).map_err(|err| err.to_string())
}

/// The RFC 2822 rendering of a UTC instant given in nanoseconds since the
/// Unix epoch, where the instant is representable.
pub uninterp spec fn rfc2822_of(nanos: int) -> Option<Seq<char>>;

/// Relies on `OffsetDateTime::format` with the RFC 2822 well-known format:
/// the rendering depends on the instant alone.
#[verifier::external_body]
pub fn format_rfc2822(nanos: i128) -> (r: Result<String, String>)
    ensures
        r is Ok <==> rfc2822_of(nanos as int) is Some,
        r matches Ok(s) ==> Some(s@) == rfc2822_of(nanos as int),
{
    let dt = time::OffsetDateTime::from_unix_timestamp_nanos(nanos).map_err(
        |err| err.to_string(),
    )?;
    dt.format(&time::format_description::well_known::Rfc2822).map_err(|err| err.to_string())
}

/// The ISO 8601 rendering of a UTC instant given in nanoseconds since the
/// Unix epoch, where the instant is representable.
pub uninterp spec fn iso8601_of(nanos: int) -> Option<Seq<char>>;

/// Relies on `OffsetDateTime::format` with the default ISO 8601 well-known
/// format: the rendering depends on the instant alone.
#[verifier::external_body]
pub fn format_iso8601(nanos: i128) -> (r: Result<String, String>)
    ensures
        r is Ok <==> iso8601_of(nanos as int) is Some,
        r matches Ok(s) ==> Some(s@) == iso8601_of(nanos as int),
{
    let dt = time::OffsetDateTime::from_unix_timestamp_nanos(nanos).map_err(
        |err| err.to_string(),
    )?;
    dt.format(&time::format_description::well_known::Iso8601::DEFAULT).map_err(
        |err| err.to_string(),
    )
}

/// The instant an RFC 3339 text denotes, in nanoseconds since the Unix
/// epoch, where the text is valid.
pub uninterp spec fn rfc3339_value(text: Seq<char>) -> Option<int>;

/// Relies on `OffsetDateTime::parse` with the RFC 3339 well-known format:
/// acceptance and value depend on the text alone.
#[verifier::external_body]
pub fn parse_rfc3339(text: &str) -> (r: Result<i128, String>)
    ensures
        r is Ok <==> rfc3339_value(text@) is Some,
        r matches Ok(n) ==> Some(n as int) == rfc3339_value(text@),
{
    time::OffsetDateTime::parse(text, &time::format_description::well_known::Rfc3339)
        .map(|dt| dt.unix_timestamp_nanos())
        .map_err(|err| err.to_string())
}

/// The instant an RFC 2822 text denotes, in nanoseconds since the Unix
/// epoch, where the text is valid.
pub uninterp spec fn rfc2822_value(text: Seq<char>) -> Option<int>;

/// Relies on `OffsetDateTime::parse` with the RFC 2822 well-known format:
/// acceptance and value depend on the text alone.
#[verifier::external_body]
pub fn parse_rfc2822(text: &str) -> (r: Result<i128, String>)
    ensures
        r is Ok <==> rfc2822_value(text@) is Some,
        r matches Ok(n) ==> Some(n as int) == rfc2822_value(text@),
{
    time::OffsetDateTime::parse(text, &time::format_description::well_known::Rfc2822)
        .map(|dt| dt.unix_timestamp_nanos())
        .map_err(|err| err.to_string())
}

/// The instant an ISO 8601 text denotes, in nanoseconds since the Unix
/// epoch, where the text is valid.
pub uninterp spec fn iso8601_value(text: Seq<char>) -> Option<int>;

/// Relies on `OffsetDateTime::parse` with the default ISO 8601 well-known
/// format: acceptance and value depend on the text alone.
#[verifier::external_body]
pub fn parse_iso8601(text: &str) -> (r: Result<i128, String>)
    ensures
        r is Ok <==> iso8601_value(text@) is Some,
        r matches Ok(n) ==> Some(n as int) == iso8601_value(text@),
{
    time::OffsetDateTime::parse(
        text,
        &time::format_description::well_known::Iso8601::DEFAULT,
    ).map(|dt| dt.unix_timestamp_nanos()).map_err(|err| err.to_string())
}

/// Relies on `OffsetDateTime::now_utc`: the current month number and year.
/// The result depends on the clock; only its range is stated.
#[verifier::external_body]
pub fn now_month_year() -> (r: (u8, i32))
    ensures
        1 <= r.0 <= 12,
        -9999 <= r.1 <= 9999,
{
    let now = time::OffsetDateTime::now_utc();
    (now.month() as u8, now.year())
}

/// Relies on `Clone` for `Vec` and `OwnedFormatItem`: a deep copy,
/// observationally identical to the original (the type holds no interior
/// mutability and exposes no addresses), so the copy is the same
/// mathematical value.
#[verifier::external_body]
pub fn clone_items(items: &Vec<OwnedFormatItem>) -> (r: Vec<OwnedFormatItem>)
    ensures
        r@ == items@,
{
    items.clone()
}

} // verus!
