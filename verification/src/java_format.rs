//! The Java `SimpleDateFormat`-style pattern front-end: a fixed alias table
//! and a greedy tokenizer that compiles a pattern string into a sequence of
//! format instructions.
//!
//! The tokenizer repeatedly matches a fixed list of rules, in priority
//! order, against the unconsumed suffix of the pattern: a run of `y` for a
//! year, `M` for a month, `d` for a day, a doubled quote for a literal
//! quote, a quoted run for a literal, and any other non-alphanumeric,
//! non-bracket character for itself. If no rule matches, compilation fails
//! at that position.

use crate::text::is_alphanumeric_char;
use crate::text::char_is_alphanumeric;
use crate::text::str_eq;
use vstd::prelude::*;
use vstd::string::StrSliceExecFns;

verus! {

/// One compiled format instruction: a literal byte run, or a typed temporal
/// component with its rendering attributes.
pub enum FormatItem {
    /// Text to emit verbatim when formatting and to match verbatim when
    /// parsing.
    Literal(String),
    /// A year, four-digit (`full`) or two-digit.
    Year { full: bool },
    /// A numeric month, optionally zero-padded to two digits.
    Month { padded: bool },
    /// A numeric day of month, optionally zero-padded to two digits.
    Day { padded: bool },
}

/// The mathematical shape of a format instruction.
pub enum ItemModel {
    Literal(Seq<char>),
    Year { full: bool },
    Month { padded: bool },
    Day { padded: bool },
}

impl View for FormatItem {
    type V = ItemModel;

    open spec fn view(&self) -> ItemModel {
        match self {
            FormatItem::Literal(s) => ItemModel::Literal(s@),
            FormatItem::Year { full } => ItemModel::Year { full: *full },
            FormatItem::Month { padded } => ItemModel::Month { padded: *padded },
            FormatItem::Day { padded } => ItemModel::Day { padded: *padded },
        }
    }
}

impl DeepView for FormatItem {
    type V = ItemModel;

    open spec fn deep_view(&self) -> ItemModel {
        self.view()
    }
}

/// The characters that no literal rule accepts: the brackets are reserved,
/// and alphanumeric characters must be matched by a component rule.
pub open spec fn is_bracket(c: char) -> bool {
    c == '[' || c == ']' || c == '{' || c == '}'
}

/// Whether `c` may stand for itself as a one-character literal.
pub open spec fn is_plain_literal_char(c: char) -> bool {
    !is_alphanumeric_char(c) && !is_bracket(c)
}

/// The position of the first quote character at or after `from`, if any.
pub open spec fn first_quote_from(s: Seq<char>, from: int) -> Option<int>
    decreases s.len() - from when 0 <= from <= s.len()
{
    if from >= s.len() {
        None
    } else if s[from] == '\'' {
        Some(from)
    } else {
        first_quote_from(s, from + 1)
    }
}

proof fn lemma_first_quote_found(s: Seq<char>, from: int, j: int)
    requires
        0 <= from <= j < s.len(),
        s[j] == '\'',
        forall|k: int| from <= k < j ==> s[k] != '\'',
    ensures
        first_quote_from(s, from) == Some(j),
    decreases j - from,
{
    if from < j {
        lemma_first_quote_found(s, from + 1, j);
    }
}

proof fn lemma_first_quote_none(s: Seq<char>, from: int)
    requires
        0 <= from <= s.len(),
        forall|k: int| from <= k < s.len() ==> s[k] != '\'',
    ensures
        first_quote_from(s, from) is None,
    decreases s.len() - from,
{
    if from < s.len() {
        lemma_first_quote_none(s, from + 1);
    }
}

proof fn lemma_first_quote_bounds(s: Seq<char>, from: int)
    requires
        0 <= from <= s.len(),
    ensures
        match first_quote_from(s, from) {
            Some(j) => from <= j < s.len() && s[j] == '\'',
            None => true,
        },
    decreases s.len() - from,
{
    if from < s.len() && s[from] != '\'' {
        lemma_first_quote_bounds(s, from + 1);
    }
}

/// The first rule that matches at position `i` of the pattern: the
/// instruction it produces and the number of characters it consumes.
/// `None` means no rule matches, and compilation fails at `i`.
pub open spec fn java_step_at(s: Seq<char>, i: int) -> Option<(ItemModel, int)>
    recommends
        0 <= i < s.len(),
{
    let c = s[i];
    if c == 'y' {
        if i + 4 <= s.len() && s[i + 1] == 'y' && s[i + 2] == 'y' && s[i + 3] == 'y' {
            Some((ItemModel::Year { full: true }, 4))
        } else if i + 2 <= s.len() && s[i + 1] == 'y' {
            Some((ItemModel::Year { full: false }, 2))
        } else {
            Some((ItemModel::Year { full: false }, 1))
        }
    } else if c == 'M' {
        if i + 2 <= s.len() && s[i + 1] == 'M' {
            Some((ItemModel::Month { padded: true }, 2))
        } else {
            Some((ItemModel::Month { padded: false }, 1))
        }
    } else if c == 'd' {
        if i + 2 <= s.len() && s[i + 1] == 'd' {
            Some((ItemModel::Day { padded: true }, 2))
        } else {
            Some((ItemModel::Day { padded: false }, 1))
        }
    } else if c == '\'' {
        if i + 2 <= s.len() && s[i + 1] == '\'' {
            Some((ItemModel::Literal(seq!['\'']), 2))
        } else {
            match first_quote_from(s, i + 1) {
                // A quoted run of at least one non-quote character: its
                // contents become a literal.
                Some(j) => Some((ItemModel::Literal(s.subrange(i + 1, j)), j - i + 1)),
                // No closing quote: the quote is an ordinary punctuation
                // character and stands for itself.
                None => Some((ItemModel::Literal(seq!['\'']), 1)),
            }
        }
    } else if is_plain_literal_char(c) {
        Some((ItemModel::Literal(seq![c]), 1))
    } else {
        None
    }
}

proof fn lemma_java_step_bounds(s: Seq<char>, i: int)
    requires
        0 <= i < s.len(),
    ensures
        match java_step_at(s, i) {
            Some(step) => 1 <= step.1 && i + step.1 <= s.len(),
            None => true,
        },
{
    if s[i] == '\'' && !(i + 2 <= s.len() && s[i + 1] == '\'') {
        lemma_first_quote_bounds(s, i + 1);
    }
}

/// The instructions compiled from the pattern suffix starting at `i`, or
/// the position of the first character no rule matches.
pub open spec fn java_tokenize_from(s: Seq<char>, i: int) -> Result<Seq<ItemModel>, int>
    decreases s.len() - i when 0 <= i <= s.len() via java_tokenize_from_decreases
{
    if i >= s.len() {
        Ok(Seq::empty())
    } else {
        match java_step_at(s, i) {
            None => Err(i),
            Some(step) => match java_tokenize_from(s, i + step.1) {
                Ok(rest) => Ok(seq![step.0] + rest),
                Err(e) => Err(e),
            },
        }
    }
}

#[via_fn]
proof fn java_tokenize_from_decreases(s: Seq<char>, i: int) {
    if 0 <= i < s.len() {
        lemma_java_step_bounds(s, i);
    }
}

/// The instructions compiled from the whole pattern, or the position of the
/// first character no rule matches.
pub open spec fn java_tokenize(s: Seq<char>) -> Result<Seq<ItemModel>, int> {
    java_tokenize_from(s, 0)
}

/// The partially built instruction sequence `done`, extended with whatever
/// the suffix at `i` compiles to.
spec fn tokenize_state(s: Seq<char>, done: Seq<ItemModel>, i: int) -> Result<Seq<ItemModel>, int> {
    match java_tokenize_from(s, i) {
        Ok(rest) => Ok(done + rest),
        Err(e) => Err(e),
    }
}

proof fn lemma_tokenize_step(s: Seq<char>, done: Seq<ItemModel>, i: int, m: ItemModel, n: int)
    requires
        0 <= i < s.len(),
        java_step_at(s, i) == Some((m, n)),
    ensures
        tokenize_state(s, done, i) == tokenize_state(s, done.push(m), i + n),
{
    lemma_java_step_bounds(s, i);
    match java_tokenize_from(s, i + n) {
        Ok(rest) => {
            assert(done + (seq![m] + rest) =~= done.push(m) + rest);
        },
        Err(_) => {},
    }
}

/// Compiles a Java-style pattern into format instructions, greedily
/// matching the tokenizer rules left to right. On failure, reports the
/// position of the first character that no rule matches.
pub fn tokenize_java_pattern(pattern: &str) -> (r: Result<Vec<FormatItem>, usize>)
    ensures
        match r {
            Ok(items) => java_tokenize(pattern@) == Ok::<Seq<ItemModel>, int>(items.deep_view()),
            Err(pos) => java_tokenize(pattern@) == Err::<Seq<ItemModel>, int>(pos as int),
        },
{
    let n = pattern.unicode_len();
    let mut items: Vec<FormatItem> = Vec::new();
    let mut i: usize = 0;
    while i < n
        invariant
            i <= n,
            n == pattern@.len(),
            java_tokenize(pattern@) == tokenize_state(pattern@, items.deep_view(), i as int),
        decreases n - i,
    {
        let ghost prev_items = items.deep_view();
        let c = pattern.get_char(i);
        let consumed: usize;
        if c == 'y' {
            if n - i > 3 && pattern.get_char(i + 1) == 'y' && pattern.get_char(i + 2) == 'y'
                && pattern.get_char(i + 3) == 'y' {
                items.push(FormatItem::Year { full: true });
                consumed = 4;
            } else if n - i > 1 && pattern.get_char(i + 1) == 'y' {
                items.push(FormatItem::Year { full: false });
                consumed = 2;
            } else {
                items.push(FormatItem::Year { full: false });
                consumed = 1;
            }
        } else if c == 'M' {
            if n - i > 1 && pattern.get_char(i + 1) == 'M' {
                items.push(FormatItem::Month { padded: true });
                consumed = 2;
            } else {
                items.push(FormatItem::Month { padded: false });
                consumed = 1;
            }
        } else if c == 'd' {
            if n - i > 1 && pattern.get_char(i + 1) == 'd' {
                items.push(FormatItem::Day { padded: true });
                consumed = 2;
            } else {
                items.push(FormatItem::Day { padded: false });
                consumed = 1;
            }
        } else if c == '\'' {
            if n - i > 1 && pattern.get_char(i + 1) == '\'' {
                let lit = pattern.substring_char(i, i + 1).to_owned();
                assert(lit@ =~= seq!['\'']);
                items.push(FormatItem::Literal(lit));
                consumed = 2;
            } else {
                // Scan for the closing quote.
                let mut j: usize = i + 1;
                while j < n && pattern.get_char(j) != '\''
                    invariant
                        i + 1 <= j <= n,
                        n == pattern@.len(),
                        forall|k: int| i + 1 <= k < j ==> pattern@[k] != '\'',
                    decreases n - j,
                {
                    j += 1;
                }
                if j < n {
                    proof {
                        lemma_first_quote_found(pattern@, i + 1, j as int);
                    }
                    let lit = pattern.substring_char(i + 1, j).to_owned();
                    items.push(FormatItem::Literal(lit));
                    consumed = j - i + 1;
                } else {
                    proof {
                        lemma_first_quote_none(pattern@, i + 1);
                    }
                    let lit = pattern.substring_char(i, i + 1).to_owned();
                    assert(lit@ =~= seq!['\'']);
                    items.push(FormatItem::Literal(lit));
                    consumed = 1;
                }
            }
        } else if !char_is_alphanumeric(c) && c != '[' && c != ']' && c != '{' && c != '}' {
            let lit = pattern.substring_char(i, i + 1).to_owned();
            assert(lit@ =~= seq![pattern@[i as int]]);
            items.push(FormatItem::Literal(lit));
            consumed = 1;
        } else {
            assert(java_step_at(pattern@, i as int) is None);
            return Err(i);
        }
        proof {
            let step = java_step_at(pattern@, i as int);
            assert(step matches Some(st) && st.1 == consumed && items.deep_view()
                =~= prev_items.push(st.0));
            lemma_tokenize_step(
                pattern@,
                prev_items,
                i as int,
                step->Some_0.0,
                step->Some_0.1,
            );
        }
        i += consumed;
    }
    assert(items.deep_view() + Seq::<ItemModel>::empty() =~= items.deep_view());
    Ok(items)
}

/// The alias table of the Java front-end: a fixed set of short names that
/// stand for full patterns; any other string passes through unchanged.
pub open spec fn resolve_alias(s: Seq<char>) -> Seq<char> {
    if s == "date_optional_time"@ || s == "strict_date_optional_time"@ {
        "yyyy-MM-dd'T'HH:mm:ss.SSSZ"@
    } else if s == "strict_date_optional_time_nanos"@ {
        "yyyy-MM-dd'T'HH:mm:ss.SSSSSSZ"@
    } else if s == "basic_date"@ {
        "yyyyMMdd"@
    } else {
        s
    }
}

/// Checks if the given date time format is a common alias and replaces it
/// with the Java simple date format it is mapped to, if any. If the format
/// is not an alias, it is expected to already be a Java simple date format
/// and is returned as is.
pub fn resolve_java_datetime_format_alias(java_datetime_format: &str) -> (r: &str)
    ensures
        r@ == resolve_alias(java_datetime_format@),
{
    if str_eq(java_datetime_format, "date_optional_time") || str_eq(
        java_datetime_format,
        "strict_date_optional_time",
    ) {
        "yyyy-MM-dd'T'HH:mm:ss.SSSZ"
    } else if str_eq(java_datetime_format, "strict_date_optional_time_nanos") {
        "yyyy-MM-dd'T'HH:mm:ss.SSSSSSZ"
    } else if str_eq(java_datetime_format, "basic_date") {
        "yyyyMMdd"
    } else {
        java_datetime_format
    }
}

} // verus!

