//! The compiled datetime parser: a pattern string, compiled once through
//! either front-end into format items, then reused to parse input strings
//! into canonical UTC instants and to render instants back into text.

use crate::infer::infer_year;
use crate::infer::spec_infer_year;
use crate::instant::UtcInstant;
use crate::java_format::FormatItem;
use crate::java_format::ItemModel;
use crate::java_format::java_tokenize;
use crate::java_format::resolve_alias;
use crate::java_format::resolve_java_datetime_format_alias;
use crate::java_format::tokenize_java_pattern;
use crate::text::dec_str;
use crate::text::u64_to_string;
use crate::time_bridge::clone_items;
use crate::time_bridge::compile_strptime;
use crate::time_bridge::day_item;
use crate::time_bridge::day_item_of;
use crate::time_bridge::format_items_utc;
use crate::time_bridge::items_format_of;
use crate::time_bridge::literal_item;
use crate::time_bridge::literal_item_of;
use crate::time_bridge::month_item;
use crate::time_bridge::month_item_of;
use crate::time_bridge::naive_leftover_of;
use crate::time_bridge::naive_parsed_of;
use crate::time_bridge::now_month_year;
use crate::time_bridge::offset_parse_of;
use crate::time_bridge::parse_items_fresh;
use crate::time_bridge::parse_offset_aware;
use crate::time_bridge::parsed_hour_12;
use crate::time_bridge::parsed_hour_12_of;
use crate::time_bridge::parsed_hour_24;
use crate::time_bridge::parsed_pm;
use crate::time_bridge::parsed_hour_24_of;
use crate::time_bridge::parsed_month;
use crate::time_bridge::parsed_month_of;
use crate::time_bridge::parsed_pm_of;
use crate::time_bridge::parsed_to_utc_nanos;
use crate::time_bridge::parsed_utc_nanos;
use crate::time_bridge::parsed_with_hour_24;
use crate::time_bridge::parsed_with_minute;
use crate::time_bridge::parsed_with_second;
use crate::time_bridge::parsed_with_year;
use crate::time_bridge::parsed_year;
use crate::time_bridge::parsed_year_of;
use crate::time_bridge::set_parsed_hour_24;
use crate::time_bridge::set_parsed_minute;
use crate::time_bridge::set_parsed_second;
use crate::time_bridge::set_parsed_year;
use crate::time_bridge::strptime_compile_ok;
use crate::time_bridge::strptime_items;
use crate::time_bridge::year_item;
use crate::time_bridge::year_item_of;
use time::format_description::OwnedFormatItem;
use time::parsing::Parsed;
use vstd::prelude::*;
use vstd::string::StrSliceExecFns;
use vstd::string::StringExecFns;

verus! {

/// What a compiled parser is, mathematically: the pattern it was compiled
/// from, whether that pattern expects a numeric UTC offset in the input,
/// and the compiled format items. Two parsers are interchangeable exactly
/// when their patterns are equal, since compilation is deterministic.
pub struct ParserModel {
    pub format: Seq<char>,
    pub with_timezone: bool,
    pub items: Seq<OwnedFormatItem>,
}

/// A date time parser that holds a compiled format-instruction sequence.
/// Constructed once from a pattern string, immutable thereafter.
#[derive(Debug)]
pub struct StrptimeParser {
    strptime_format: String,
    with_timezone: bool,
    items: Vec<OwnedFormatItem>,
}

impl View for StrptimeParser {
    type V = ParserModel;

    closed spec fn view(&self) -> ParserModel {
        ParserModel {
            format: self.strptime_format@,
            with_timezone: self.with_timezone,
            items: self.items@,
        }
    }
}

/// The pattern contains a case-insensitive numeric-offset token `%z`.
pub open spec fn has_offset_marker(s: Seq<char>) -> bool {
    exists|i: int|
        0 <= i < s.len() - 1 && #[trigger] s[i] == '%' && (s[i + 1] == 'z' || s[i + 1] == 'Z')
}

/// Scans the pattern for a numeric-offset token `%z` or `%Z`.
fn contains_offset_marker(s: &str) -> (r: bool)
    ensures
        r == has_offset_marker(s@),
{
    let n = s.unicode_len();
    if n == 0 {
        return false;
    }
    let mut i: usize = 0;
    while i < n - 1
        invariant
            n == s@.len(),
            1 <= n,
            i <= n - 1,
            forall|k: int|
                0 <= k < i ==> !(#[trigger] s@[k] == '%' && (s@[k + 1] == 'z' || s@[k + 1]
                    == 'Z')),
        decreases n - i,
    {
        if s.get_char(i) == '%' {
            let next = s.get_char(i + 1);
            if next == 'z' || next == 'Z' {
                return true;
            }
        }
        i += 1;
    }
    false
}

/// The error text for an input that does not fully match the pattern.
pub open spec fn mismatch_message(text: Seq<char>, format: Seq<char>) -> Seq<char> {
    "datetime string `"@ + text + "` does not match strptime format `"@ + format + "`"@
}

/// The error text for a strptime pattern the grammar rejects, up to the
/// grammar's own message.
pub open spec fn strptime_error_prefix(format: Seq<char>) -> Seq<char> {
    "invalid strptime format `"@ + format + "`: "@
}

/// The error text for a Java pattern with an unrecognized character.
pub open spec fn java_error_message(format: Seq<char>, pos: int) -> Seq<char> {
    "failed to parse date format `"@ + format + "`. Pattern at pos "@ + dec_str(pos as nat)
        + " is not recognized."@
}

/// The owned format item one compiled Java-front-end instruction converts
/// into.
pub open spec fn owned_item_of(m: ItemModel) -> OwnedFormatItem {
    match m {
        ItemModel::Literal(text) => literal_item_of(text),
        ItemModel::Year { full } => year_item_of(full),
        ItemModel::Month { padded } => month_item_of(padded),
        ItemModel::Day { padded } => day_item_of(padded),
    }
}

/// The owned format items of a compiled Java-front-end instruction
/// sequence, in order.
pub open spec fn owned_items_of(models: Seq<ItemModel>) -> Seq<OwnedFormatItem> {
    models.map_values(|m: ItemModel| owned_item_of(m))
}

/// A parsed value completed with midnight when it carries no time of day
/// (neither a 24-hour hour nor a 12-hour hour with a meridiem): the first
/// completion step of naive parsing.
pub open spec fn with_midnight_default(p: Parsed) -> Parsed {
    if parsed_hour_24(p) is None && !(parsed_hour_12(p) is Some && parsed_pm(p) is Some) {
        parsed_with_second(parsed_with_minute(parsed_with_hour_24(p, 0), 0), 0)
    } else {
        p
    }
}

/// A parsed value completed with an inferred year when it carries none,
/// from the current month and year read from the clock at call time: the
/// second completion step of naive parsing.
pub open spec fn with_inferred_year(p: Parsed, this_month: u8, this_year: i32) -> Parsed {
    if parsed_year(p) is None {
        parsed_with_year(
            p,
            spec_infer_year(parsed_month(p), this_month, this_year as int) as i32,
        )
    } else {
        p
    }
}

/// The result holds exactly the expected instant: `Ok` exactly when one is
/// expected, and then with its nanoseconds.
pub open spec fn result_is_instant(r: Result<UtcInstant, String>, expected: Option<int>) -> bool {
    (r is Ok <==> expected is Some) && (r matches Ok(instant) ==> Some(instant.nanos as int)
        == expected)
}

/// What naive (offset-free) parsing returns. A failed match is an error; a
/// partial match is the mismatch error naming both the text and the
/// pattern; a full match yields the instant that the parsed fields combine
/// into after midnight defaulting and — only when the match yields no year
/// — year inference from some in-range month and year read from the clock.
/// Once the match yields a year, the result is a function of the items and
/// the text alone.
pub open spec fn naive_parse_post(
    items: Seq<OwnedFormatItem>,
    format: Seq<char>,
    text: Seq<char>,
    r: Result<UtcInstant, String>,
) -> bool {
    match naive_parsed_of(items, text) {
        None => r is Err,
        Some(p0) => {
            if naive_leftover_of(items, text) != 0 {
                r matches Err(e) && e@ == mismatch_message(text, format)
            } else {
                let completed = with_midnight_default(p0);
                if parsed_year(completed) is Some {
                    result_is_instant(r, parsed_utc_nanos(completed))
                } else {
                    exists|this_month: u8, this_year: i32|
                        1 <= this_month <= 12 && -9999 <= this_year <= 9999 && result_is_instant(
                            r,
                            parsed_utc_nanos(with_inferred_year(completed, this_month, this_year)),
                        )
                }
            }
        },
    }
}

impl StrptimeParser {
    /// The pattern string this parser was compiled from.
    pub fn strptime_format(&self) -> (s: &String)
        ensures
            s@ == self@.format,
    {
        &self.strptime_format
    }

    /// Compiles a strptime pattern through the low-level grammar. Succeeds
    /// exactly when the grammar accepts the pattern; the parser keeps the
    /// pattern string, the grammar's compiled items, and expects an offset
    /// in the input exactly when the pattern holds an offset token.
    pub fn from_strptime(strptime_format: &str) -> (r: Result<StrptimeParser, String>)
        ensures
            r is Ok <==> strptime_compile_ok(strptime_format@),
            r matches Ok(p) ==> p@.format == strptime_format@ && p@.with_timezone
                == has_offset_marker(strptime_format@) && p@.items == strptime_items(
                strptime_format@,
            ),
            r matches Err(e) ==> exists|tail: Seq<char>|
                e@ == strptime_error_prefix(strptime_format@) + tail,
    {
        match compile_strptime(strptime_format) {
            Ok(items) => {
                let with_timezone = contains_offset_marker(strptime_format);
                Ok(
                    StrptimeParser {
                        strptime_format: strptime_format.to_owned(),
                        with_timezone,
                        items,
                    },
                )
            },
            Err(grammar_error) => {
                let mut message = "invalid strptime format `".to_owned();
                message.append(strptime_format);
                message.append("`: ");
                let ghost prefix = message@;
                message.append(grammar_error.as_str());
                proof {
                    assert(prefix =~= strptime_error_prefix(strptime_format@));
                    assert(message@ == strptime_error_prefix(strptime_format@)
                        + grammar_error@);
                }
                Err(message)
            },
        }
    }

    /// Compiles a Java `SimpleDateFormat`-style pattern: resolves aliases,
    /// tokenizes, and never expects an offset in the input. Succeeds
    /// exactly when the tokenizer accepts the resolved pattern; the parser
    /// keeps the resolved pattern string and the items the compiled
    /// instructions convert into.
    pub fn from_java_datetime_format(java_datetime_format: &str) -> (r: Result<
        StrptimeParser,
        String,
    >)
        ensures
            r is Ok <==> java_tokenize(resolve_alias(java_datetime_format@)) is Ok,
            r matches Ok(p) ==> java_tokenize(resolve_alias(java_datetime_format@)) matches Ok(
                models,
            ) && p@.format == resolve_alias(java_datetime_format@) && !p@.with_timezone
                && p@.items == owned_items_of(models),
            r matches Err(e) ==> java_tokenize(resolve_alias(java_datetime_format@)) matches Err(
                pos,
            ) && e@ == java_error_message(java_datetime_format@, pos),
    {
        let resolved = resolve_java_datetime_format_alias(java_datetime_format);
        match tokenize_java_pattern(resolved) {
            Ok(items) => {
                let ghost models = items.deep_view();
                let mut owned: Vec<OwnedFormatItem> = Vec::new();
                let mut k: usize = 0;
                while k < items.len()
                    invariant
                        k <= items.len(),
                        models == items.deep_view(),
                        owned@ == owned_items_of(models.take(k as int)),
                    decreases items.len() - k,
                {
                    let converted: OwnedFormatItem = match &items[k] {
                        FormatItem::Literal(text) => literal_item(text.as_str()),
                        FormatItem::Year { full } => year_item(*full),
                        FormatItem::Month { padded } => month_item(*padded),
                        FormatItem::Day { padded } => day_item(*padded),
                    };
                    proof {
                        assert(models[k as int] == items@[k as int]@);
                        assert(converted == owned_item_of(models[k as int]));
                    }
                    owned.push(converted);
                    proof {
                        assert(models.take(k + 1) =~= models.take(k as int).push(
                            models[k as int],
                        ));
                        assert(owned_items_of(models.take(k + 1)) =~= owned_items_of(
                            models.take(k as int),
                        ).push(owned_item_of(models[k as int])));
                    }
                    k += 1;
                }
                proof {
                    assert(models.take(items@.len() as int) =~= models);
                }
                Ok(
                    StrptimeParser {
                        strptime_format: resolved.to_owned(),
                        with_timezone: false,
                        items: owned,
                    },
                )
            },
            Err(pos) => {
                let mut message = "failed to parse date format `".to_owned();
                message.append(java_datetime_format);
                message.append("`. Pattern at pos ");
                let position = u64_to_string(pos as u64);
                message.append(position.as_str());
                message.append(" is not recognized.");
                proof {
                    assert(message@ =~= java_error_message(java_datetime_format@, pos as int));
                }
                Err(message)
            },
        }
    }

    /// Parses a date string against the compiled items, assuming UTC. If
    /// the pattern provides no time of day, the time is set to 00:00:00;
    /// if it provides no year, one is inferred from the parsed month and
    /// the current date. Fails when the input does not fully match the
    /// pattern, with a message naming both, or when the fields name no
    /// existing calendar date.
    fn parse_primitive_date_time(&self, date_time_str: &str) -> (r: Result<UtcInstant, String>)
        ensures
            naive_parse_post(self@.items, self@.format, date_time_str@, r),
    {
        let (mut parsed, leftover) = match parse_items_fresh(&self.items, date_time_str) {
            Ok(filled) => filled,
            Err(e) => {
                return Err(e);
            },
        };
        if leftover != 0 {
            let mut message = "datetime string `".to_owned();
            message.append(date_time_str);
            message.append("` does not match strptime format `");
            message.append(self.strptime_format.as_str());
            message.append("`");
            proof {
                assert(message@ =~= mismatch_message(date_time_str@, self@.format));
            }
            return Err(message);
        }
        // The parsed value may hold a date but no time of day: complete it
        // with midnight.
        let has_half_day_time = parsed_hour_12_of(&parsed).is_some() && parsed_pm_of(
            &parsed,
        ).is_some();
        if parsed_hour_24_of(&parsed).is_none() && !has_half_day_time {
            set_parsed_hour_24(&mut parsed, 0u8);
            set_parsed_minute(&mut parsed, 0u8);
            set_parsed_second(&mut parsed, 0u8);
        }
        let ghost completed = with_midnight_default(
            naive_parsed_of(self@.items, date_time_str@)->Some_0,
        );
        assert(parsed == completed);
        if parsed_year_of(&parsed).is_none() {
            let (this_month, this_year) = now_month_year();
            let year = infer_year(parsed_month_of(&parsed), this_month, this_year);
            set_parsed_year(&mut parsed, year);
            assert(parsed == with_inferred_year(completed, this_month, this_year));
        }
        match parsed_to_utc_nanos(parsed) {
            Ok(nanos) => Ok(UtcInstant::from_nanos(nanos)),
            Err(e) => Err(e),
        }
    }

    /// Parses a date string according to the pattern specified at
    /// construction. A pattern with an offset token is parsed
    /// offset-aware, and the result — a function of the items and the text
    /// — carries its own offset and is normalized to UTC; any other
    /// pattern is parsed assuming UTC, with missing time or year completed
    /// as `naive_parse_post` states.
    pub fn parse_date_time(&self, date_time_str: &str) -> (r: Result<UtcInstant, String>)
        ensures
            self@.with_timezone ==> result_is_instant(
                r,
                offset_parse_of(self@.items, date_time_str@),
            ),
            !self@.with_timezone ==> naive_parse_post(
                self@.items,
                self@.format,
                date_time_str@,
                r,
            ),
    {
        if self.with_timezone {
            match parse_offset_aware(&self.items, date_time_str) {
                Ok(nanos) => Ok(UtcInstant::from_nanos(nanos)),
                Err(e) => Err(e),
            }
        } else {
            self.parse_primitive_date_time(date_time_str)
        }
    }

    /// Renders an instant according to the compiled items, walking them in
    /// order: succeeds exactly when the rendering — a function of the
    /// items and the instant — exists, that is, when the instant and all
    /// its components are representable.
    pub fn format_date_time(&self, date_time: &UtcInstant) -> (r: Result<String, String>)
        ensures
            r is Ok <==> items_format_of(self@.items, date_time.nanos as int) is Some,
            r matches Ok(s) ==> Some(s@) == items_format_of(self@.items, date_time.nanos as int),
    {
        format_items_utc(&self.items, date_time.as_nanos())
    }
}

impl Clone for StrptimeParser {
    /// A copy with the same pattern, offset expectation and items.
    fn clone(&self) -> (r: Self)
        ensures
            r@ == self@,
    {
        StrptimeParser {
            strptime_format: self.strptime_format.clone(),
            with_timezone: self.with_timezone,
            items: clone_items(&self.items),
        }
    }
}

impl PartialEq for StrptimeParser {
    /// Two compiled patterns are equal exactly when their pattern strings
    /// are: compilation is deterministic, so the items need no comparison.
    fn eq(&self, other: &Self) -> (r: bool) {
        self.strptime_format == other.strptime_format
    }
}

impl vstd::std_specs::cmp::PartialEqSpecImpl for StrptimeParser {
    open spec fn obeys_eq_spec() -> bool {
        true
    }

    open spec fn eq_spec(&self, other: &StrptimeParser) -> bool {
        self@.format == other@.format
    }
}

impl Eq for StrptimeParser {

}

} // verus!
