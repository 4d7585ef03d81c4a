//! Character and string helpers: ASCII case folding, exact string
//! comparison, and decimal rendering of numbers.

use vstd::prelude::*;
use vstd::string::StrSliceExecFns;

verus! {

/// Whether `c` is alphanumeric in the Unicode sense. The exact character set
/// is Unicode's and is not written out here; the ASCII part is pinned down by
/// the wrapper below.
pub uninterp spec fn is_alphanumeric_char(c: char) -> bool;

/// Relies on `char::is_alphanumeric`: the result depends on the character
/// alone, and on ASCII characters it is true exactly for the letters and
/// digits.
#[verifier::external_body]
pub fn char_is_alphanumeric(c: char) -> (b: bool)
    ensures
        b == is_alphanumeric_char(c),
        (c as u32) < 128 ==> b == ((('a' as u32) <= (c as u32) && (c as u32) <= ('z' as u32)) || (
        ('A' as u32) <= (c as u32) && (c as u32) <= ('Z' as u32)) || (('0' as u32) <= (c as u32)
            && (c as u32) <= ('9' as u32))),
{
    c.is_alphanumeric()
}

/// Relies on `String::push`: appends one character at the end.
#[verifier::external_body]
pub fn push_char(s: &mut String, c: char)
    ensures
        final(s)@ == old(s)@.push(c),
{
    s.push(c)
}

/// The code point of `c`, with ASCII upper-case letters folded to lower case.
pub open spec fn lower_code(c: char) -> u32 {
    if ('A' as u32) <= (c as u32) && (c as u32) <= ('Z' as u32) {
        (c as u32 + 32) as u32
    } else {
        c as u32
    }
}

/// The code points of `s` folded to ASCII lower case: the shape under which
/// short format names are compared.
pub open spec fn lower_codes(s: Seq<char>) -> Seq<u32> {
    s.map_values(|c: char| lower_code(c))
}

/// Two strings are equal up to ASCII case.
pub open spec fn eq_ignore_case(a: Seq<char>, b: Seq<char>) -> bool {
    lower_codes(a) == lower_codes(b)
}

/// No character of `s` is an ASCII upper-case letter.
pub open spec fn no_ascii_uppercase(s: Seq<char>) -> bool {
    forall|i: int|
        0 <= i < s.len() ==> !(('A' as u32) <= (#[trigger] s[i] as u32) && (s[i] as u32) <= (
        'Z' as u32))
}

/// A recursive restatement of `no_ascii_uppercase` from position `i` on,
/// which a solver can evaluate on a concrete string by unfolding.
pub open spec fn no_ascii_uppercase_from(s: Seq<char>, i: int) -> bool
    decreases s.len() - i when 0 <= i
{
    i >= s.len() || (!(('A' as u32) <= (s[i] as u32) && (s[i] as u32) <= ('Z' as u32))
        && no_ascii_uppercase_from(s, i + 1))
}

/// The recursive and the quantified statements agree.
pub proof fn lemma_no_ascii_uppercase_from(s: Seq<char>, i: int)
    requires
        0 <= i,
        no_ascii_uppercase_from(s, i),
    ensures
        forall|k: int|
            i <= k < s.len() ==> !(('A' as u32) <= (#[trigger] s[k] as u32) && (s[k] as u32) <= (
            'Z' as u32)),
    decreases s.len() - i,
{
    if i < s.len() {
        lemma_no_ascii_uppercase_from(s, i + 1);
    }
}

/// Compares two strings for equality up to ASCII case.
pub fn eq_ignore_ascii_case(a: &str, b: &str) -> (r: bool)
    ensures
        r == eq_ignore_case(a@, b@),
{
    let a_len = a.unicode_len();
    let b_len = b.unicode_len();
    if a_len != b_len {
        assert(lower_codes(a@).len() != lower_codes(b@).len());
        return false;
    }
    let mut i: usize = 0;
    while i < a_len
        invariant
            i <= a_len,
            a_len == a@.len(),
            a_len == b@.len(),
            forall|k: int| 0 <= k < i ==> lower_code(a@[k]) == lower_code(b@[k]),
        decreases a_len - i,
    {
        let ca = a.get_char(i);
        let cb = b.get_char(i);
        let la = lower_code_exec(ca);
        let lb = lower_code_exec(cb);
        if la != lb {
            assert(lower_codes(a@)[i as int] != lower_codes(b@)[i as int]);
            return false;
        }
        i += 1;
    }
    assert(lower_codes(a@) =~= lower_codes(b@));
    true
}

/// Folds one character to ASCII lower case, as a code point.
pub fn lower_code_exec(c: char) -> (r: u32)
    ensures
        r == lower_code(c),
{
    let u = c as u32;
    if 65 <= u && u <= 90 {
        u + 32
    } else {
        u
    }
}

/// Compares two strings for exact equality.
pub fn str_eq(a: &str, b: &str) -> (r: bool)
    ensures
        r == (a@ == b@),
{
    let a_len = a.unicode_len();
    let b_len = b.unicode_len();
    if a_len != b_len {
        return false;
    }
    let mut i: usize = 0;
    while i < a_len
        invariant
            i <= a_len,
            a_len == a@.len(),
            a_len == b@.len(),
            forall|k: int| 0 <= k < i ==> a@[k] == b@[k],
        decreases a_len - i,
    {
        if a.get_char(i) != b.get_char(i) {
            return false;
        }
        i += 1;
    }
    assert(a@ =~= b@);
    true
}

/// The character for one decimal digit.
pub open spec fn digit_char(d: int) -> char {
    if d == 0 {
        '0'
    } else if d == 1 {
        '1'
    } else if d == 2 {
        '2'
    } else if d == 3 {
        '3'
    } else if d == 4 {
        '4'
    } else if d == 5 {
        '5'
    } else if d == 6 {
        '6'
    } else if d == 7 {
        '7'
    } else if d == 8 {
        '8'
    } else {
        '9'
    }
}

/// The decimal rendering of `n`, most significant digit first, with no
/// leading zeros (a single `'0'` for zero).
pub open spec fn dec_str(n: nat) -> Seq<char>
    decreases n,
{
    if n < 10 {
        seq![digit_char(n as int)]
    } else {
        dec_str(n / 10).push(digit_char((n % 10) as int))
    }
}

fn digit_char_exec(d: u64) -> (c: char)
    requires
        d < 10,
    ensures
        c == digit_char(d as int),
{
    if d == 0 {
        '0'
    } else if d == 1 {
        '1'
    } else if d == 2 {
        '2'
    } else if d == 3 {
        '3'
    } else if d == 4 {
        '4'
    } else if d == 5 {
        '5'
    } else if d == 6 {
        '6'
    } else if d == 7 {
        '7'
    } else if d == 8 {
        '8'
    } else {
        '9'
    }
}

/// Whether `c` is an ASCII decimal digit.
pub open spec fn is_digit(c: char) -> bool {
    ('0' as u32) <= (c as u32) && (c as u32) <= ('9' as u32)
}

/// The numeric value of one ASCII digit.
pub open spec fn digit_of(c: char) -> int {
    c as u32 - '0' as u32
}

/// The numeric value of a run of ASCII digits, most significant first.
pub open spec fn digits_value(s: Seq<char>) -> int
    decreases s.len(),
{
    if s.len() == 0 {
        0
    } else {
        digits_value(s.drop_last()) * 10 + digit_of(s.last())
    }
}

/// Every character of `s` is an ASCII decimal digit.
pub open spec fn all_digits(s: Seq<char>) -> bool {
    forall|i: int| 0 <= i < s.len() ==> is_digit(#[trigger] s[i])
}

/// `s` is a decimal integer: an optional leading minus sign followed by at
/// least one digit.
pub open spec fn is_decimal_int(s: Seq<char>) -> bool {
    if s.len() > 0 && s[0] == '-' {
        s.len() > 1 && all_digits(s.subrange(1, s.len() as int))
    } else {
        s.len() > 0 && all_digits(s)
    }
}

/// The value of a decimal integer.
pub open spec fn decimal_value(s: Seq<char>) -> int {
    if s.len() > 0 && s[0] == '-' {
        -digits_value(s.subrange(1, s.len() as int))
    } else {
        digits_value(s)
    }
}

proof fn lemma_digits_value_nonneg(s: Seq<char>)
    requires
        all_digits(s),
    ensures
        digits_value(s) >= 0,
    decreases s.len(),
{
    if s.len() > 0 {
        lemma_digits_value_nonneg(s.drop_last());
    }
}

/// A prefix of a digit run never exceeds the whole run in value.
proof fn lemma_digits_value_prefix(s: Seq<char>, i: int)
    requires
        all_digits(s),
        0 <= i <= s.len(),
    ensures
        digits_value(s.subrange(0, i)) <= digits_value(s),
    decreases s.len(),
{
    if i == s.len() {
        assert(s.subrange(0, i) =~= s);
    } else {
        let t = s.drop_last();
        assert(s.subrange(0, i) =~= t.subrange(0, i));
        lemma_digits_value_prefix(t, i);
        lemma_digits_value_nonneg(t);
    }
}

/// Parses a decimal integer: an optional minus sign and a run of digits.
/// Succeeds exactly on well-formed inputs whose value fits in an `i64`.
pub fn parse_i64_decimal(s: &str) -> (r: Result<i64, String>)
    ensures
        r is Ok <==> is_decimal_int(s@) && i64::MIN <= decimal_value(s@) <= i64::MAX,
        r matches Ok(v) ==> v == decimal_value(s@),
{
    let n = s.unicode_len();
    if n == 0 {
        return Err("empty number".to_owned());
    }
    let negative = s.get_char(0) == '-';
    let start: usize = if negative {
        1
    } else {
        0
    };
    if start == n {
        return Err("no digits".to_owned());
    }
    let ghost digits = s@.subrange(start as int, n as int);
    let mut acc: i128 = 0;
    let mut i: usize = start;
    while i < n
        invariant
            start <= i <= n,
            n == s@.len(),
            start < n,
            negative ==> start == 1 && s@[0] == '-',
            !negative ==> start == 0 && s@[0] != '-',
            digits == s@.subrange(start as int, n as int),
            all_digits(s@.subrange(start as int, i as int)),
            acc == digits_value(s@.subrange(start as int, i as int)),
            0 <= acc <= 0x8000_0000_0000_0000i128,
        decreases n - i,
    {
        let c = s.get_char(i);
        let u = c as u32;
        if !(48 <= u && u <= 57) {
            proof {
                assert(!is_digit(s@[i as int]));
                assert(digits[i - start] == s@[i as int]);
                assert(!all_digits(digits));
                if negative {
                    assert(digits =~= s@.subrange(1, n as int));
                } else {
                    assert(digits =~= s@);
                }
            }
            return Err("invalid digit".to_owned());
        }
        let d = (u - 48) as i128;
        acc = acc * 10 + d;
        proof {
            assert(s@.subrange(start as int, i + 1).drop_last() =~= s@.subrange(
                start as int,
                i as int,
            ));
            assert(all_digits(s@.subrange(start as int, i + 1)));
        }
        i += 1;
        if acc > 0x8000_0000_0000_0000i128 {
            // The value can only grow with further digits, so it is out of
            // range whatever follows.
            proof {
                let done = s@.subrange(start as int, i as int);
                assert(done =~= digits.subrange(0, i - start));
                if negative {
                    assert(digits =~= s@.subrange(1, n as int));
                } else {
                    assert(digits =~= s@);
                }
                if all_digits(digits) {
                    lemma_digits_value_prefix(digits, i - start);
                    assert(digits_value(digits) >= acc);
                }
            }
            return Err("number out of range".to_owned());
        }
    }
    assert(s@.subrange(start as int, i as int) =~= digits);
    if negative {
        assert(digits =~= s@.subrange(1, n as int));
        assert(s@[0] == '-' && decimal_value(s@) == -digits_value(digits));
        Ok((-acc) as i64)
    } else {
        assert(s@.subrange(0, n as int) =~= s@);
        assert(decimal_value(s@) == digits_value(digits));
        if acc > 0x7FFF_FFFF_FFFF_FFFFi128 {
            return Err("number out of range".to_owned());
        }
        Ok(acc as i64)
    }
}

/// Renders `n` in decimal.
pub fn u64_to_string(n: u64) -> (s: String)
    ensures
        s@ == dec_str(n as nat),
    decreases n,
{
    if n < 10 {
        let mut s = String::new();
        push_char(&mut s, digit_char_exec(n));
        s
    } else {
        let mut s = u64_to_string(n / 10);
        push_char(&mut s, digit_char_exec(n % 10));
        s
    }
}

} // verus!
