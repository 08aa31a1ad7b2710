//! Decimal numerals: printing unsigned integers as strings, parsing signed
//! integers from strings, and recognising the strings that Rust reads as
//! floating-point literals.

use vstd::prelude::*;
use vstd::string::StrSliceExecFns;

verus! {

/// Character-by-character string equality.
pub fn str_eq(a: &str, b: &str) -> (r: bool)
    ensures
        r == (a@ == b@),
{
    let alen = a.unicode_len();
    let blen = b.unicode_len();
    if alen != blen {
        return false;
    }
    let mut i: usize = 0;
    while i < alen
        invariant
            alen == a@.len(),
            blen == b@.len(),
            alen == blen,
            0 <= i <= alen,
            forall|j: int| 0 <= j < i ==> a@[j] == b@[j],
        decreases alen - i,
    {
        if a.get_char(i) != b.get_char(i) {
            return false;
        }
        i += 1;
    }
    proof {
        assert(a@ =~= b@);
    }
    true
}

/// The character for a single decimal digit.
pub open spec fn spec_digit_char(d: nat) -> char
    recommends
        d < 10,
{
    (('0' as u8) + d as u8) as char
}

/// The decimal numeral of `n`, most significant digit first.
pub open spec fn spec_u64_str(n: nat) -> Seq<char>
    decreases n,
{
    if n < 10 {
        seq![spec_digit_char(n)]
    } else {
        spec_u64_str(n / 10) + seq![spec_digit_char(n % 10)]
    }
}

/// The one-character string for a decimal digit.
fn digit_str(d: u64) -> (r: &'static str)
    requires
        d < 10,
    ensures
        r@ == seq![spec_digit_char(d as nat)],
{
    proof {
        reveal_strlit("0");
        reveal_strlit("1");
        reveal_strlit("2");
        reveal_strlit("3");
        reveal_strlit("4");
        reveal_strlit("5");
        reveal_strlit("6");
        reveal_strlit("7");
        reveal_strlit("8");
        reveal_strlit("9");
    }
    if d == 0 {
        "0"
    } else if d == 1 {
        "1"
    } else if d == 2 {
        "2"
    } else if d == 3 {
        "3"
    } else if d == 4 {
        "4"
    } else if d == 5 {
        "5"
    } else if d == 6 {
        "6"
    } else if d == 7 {
        "7"
    } else if d == 8 {
        "8"
    } else {
        "9"
    }
}

/// Prints `n` as its decimal numeral.
pub fn u64_to_string(n: u64) -> (r: String)
    ensures
        r@ == spec_u64_str(n as nat),
    decreases n,
{
    if n < 10 {
        String::from_str(digit_str(n))
    } else {
        let high = u64_to_string(n / 10);
        high.concat(digit_str(n % 10))
    }
}

/// Whether `c` is a decimal digit.
pub open spec fn spec_is_digit(c: char) -> bool {
    '0' <= c && c <= '9'
}

/// The value of a decimal digit character.
pub open spec fn spec_digit_val(c: char) -> nat
    recommends
        spec_is_digit(c),
{
    (c as int - '0' as int) as nat
}

/// Whether every character of `s` is a decimal digit.
pub open spec fn spec_all_digits(s: Seq<char>) -> bool {
    forall|i: int| 0 <= i < s.len() ==> spec_is_digit(s[i])
}

/// The value of a digit string, most significant digit first.
pub open spec fn spec_digits_val(s: Seq<char>) -> nat
    decreases s.len(),
{
    if s.len() == 0 {
        0
    } else {
        spec_digits_val(s.drop_last()) * 10 + spec_digit_val(s.last())
    }
}

/// A digit string is worth at least any of its prefixes.
pub proof fn lemma_digits_val_prefix(s: Seq<char>, k: int)
    requires
        0 <= k <= s.len(),
    ensures
        spec_digits_val(s.take(k)) <= spec_digits_val(s),
    decreases s.len(),
{
    if k < s.len() {
        assert(s.drop_last().take(k) =~= s.take(k));
        lemma_digits_val_prefix(s.drop_last(), k);
    } else {
        assert(s.take(k) =~= s);
    }
}

/// What `i64::from_str` makes of a string: an optional sign, then at least
/// one decimal digit and nothing else, with the value in the type's range;
/// anything else is rejected.
pub open spec fn spec_parse_i64(s: Seq<char>) -> Option<i64> {
    let negative = s.len() > 0 && s[0] == '-';
    let digits = if s.len() > 0 && (s[0] == '-' || s[0] == '+') {
        s.drop_first()
    } else {
        s
    };
    if digits.len() == 0 || !spec_all_digits(digits) {
        None
    } else if negative {
        if spec_digits_val(digits) <= 0x8000000000000000 {
            Some((0 - spec_digits_val(digits) as int) as i64)
        } else {
            None
        }
    } else {
        if spec_digits_val(digits) <= 0x7fffffffffffffff {
            Some(spec_digits_val(digits) as i64)
        } else {
            None
        }
    }
}

/// Reads a signed 64-bit integer from its decimal string, exactly as
/// `spec_parse_i64` describes; `None` on any other input.
pub fn parse_i64(s: &str) -> (r: Option<i64>)
    ensures
        r == spec_parse_i64(s@),
{
    let n = s.unicode_len();
    if n == 0 {
        return None;
    }
    let first = s.get_char(0);
    let negative = first == '-';
    let start: usize = if first == '-' || first == '+' {
        1
    } else {
        0
    };
    if n == start {
        return None;
    }
    let ghost digits = if s@[0] == '-' || s@[0] == '+' {
        s@.drop_first()
    } else {
        s@
    };
    proof {
        assert(s@.subrange(start as int, n as int) =~= digits);
    }
    let limit: u64 = if negative {
        0x8000000000000000
    } else {
        0x7fffffffffffffff
    };
    let mut mag: u64 = 0;
    let mut i: usize = start;
    while i < n
        invariant
            n == s@.len(),
            0 < n,
            start <= i <= n,
            start == 1 || start == 0,
            (start == 1) == (s@[0] == '-' || s@[0] == '+'),
            start < n,
            negative == (s@[0] == '-'),
            digits == s@.subrange(start as int, n as int),
            limit == (if negative {
                0x8000000000000000u64
            } else {
                0x7fffffffffffffffu64
            }),
            forall|j: int| start <= j < i ==> spec_is_digit(s@[j]),
            mag == spec_digits_val(s@.subrange(start as int, i as int)),
            mag <= limit,
        decreases n - i,
    {
        let c = s.get_char(i);
        if c < '0' || c > '9' {
            proof {
                assert(digits[i - start] == s@[i as int]);
                assert(!spec_all_digits(digits));
            }
            return None;
        }
        let d: u64 = (c as u8 - ('0' as u8)) as u64;
        let ghost prefix = s@.subrange(start as int, i as int);
        let ghost extended = s@.subrange(start as int, i + 1 as int);
        proof {
            assert(extended.drop_last() =~= prefix);
            assert(extended.last() == s@[i as int]);
            assert(spec_digits_val(extended) == mag * 10 + d);
        }
        if mag > (limit - d) / 10 {
            proof {
                assert(mag * 10 + d > limit) by (nonlinear_arith)
                    requires
                        mag > (limit - d) / 10,
                        d <= limit,
                        limit <= 0x8000000000000000u64,
                        mag <= limit,
                ;
                assert(extended =~= digits.take(i + 1 - start));
                lemma_digits_val_prefix(digits, i + 1 - start);
                assert(spec_digits_val(digits) > limit);
                assert(digits.len() > 0);
                assert(digits == (if s@.len() > 0 && (s@[0] == '-' || s@[0] == '+') {
                    s@.drop_first()
                } else {
                    s@
                }));
                assert(negative == (s@.len() > 0 && s@[0] == '-'));
                if negative {
                    assert(!(spec_digits_val(digits) <= 0x8000000000000000));
                } else {
                    assert(!(spec_digits_val(digits) <= 0x7fffffffffffffff));
                }
                assert(spec_parse_i64(s@) is None);
            }
            return None;
        }
        mag = mag * 10 + d;
        i += 1;
    }
    proof {
        assert(s@.subrange(start as int, n as int) =~= digits);
        assert(mag == spec_digits_val(digits));
        assert forall|j: int| 0 <= j < digits.len() implies spec_is_digit(digits[j]) by {
            assert(digits[j] == s@[start + j]);
        }
        assert(spec_all_digits(digits));
    }
    if negative {
        if mag == 0x8000000000000000 {
            Some(-0x7fffffffffffffff - 1)
        } else {
            Some(-(mag as i64))
        }
    } else {
        Some(mag as i64)
    }
}

/// The lower-case form of an ASCII letter; other characters stand as they
/// are.
pub open spec fn spec_lower(c: char) -> char {
    if 'A' <= c && c <= 'Z' {
        ((c as u8) + 32) as char
    } else {
        c
    }
}

fn lower(c: char) -> (r: char)
    ensures
        r == spec_lower(c),
{
    if c >= 'A' && c <= 'Z' {
        ((c as u8) + 32) as char
    } else {
        c
    }
}

/// The first position in `s` holding `a` or `b`, or the length of `s`.
pub open spec fn spec_find2(s: Seq<char>, a: char, b: char) -> int
    decreases s.len(),
{
    if s.len() == 0 {
        0
    } else if s[0] == a || s[0] == b {
        0
    } else {
        1 + spec_find2(s.drop_first(), a, b)
    }
}

pub proof fn lemma_find2(s: Seq<char>, a: char, b: char)
    ensures
        0 <= spec_find2(s, a, b) <= s.len(),
        spec_find2(s, a, b) < s.len() ==> (s[spec_find2(s, a, b)] == a || s[spec_find2(s, a, b)]
            == b),
        forall|j: int| 0 <= j < spec_find2(s, a, b) ==> s[j] != a && s[j] != b,
    decreases s.len(),
{
    if s.len() > 0 && s[0] != a && s[0] != b {
        lemma_find2(s.drop_first(), a, b);
        assert forall|j: int| 0 <= j < spec_find2(s, a, b) implies s[j] != a && s[j] != b by {
            if j > 0 {
                assert(s.drop_first()[j - 1] == s[j]);
            }
        }
    }
}

fn find2(s: &str, a: char, b: char) -> (r: usize)
    ensures
        r == spec_find2(s@, a, b),
{
    let n = s.unicode_len();
    let mut i: usize = 0;
    while i < n
        invariant
            n == s@.len(),
            0 <= i <= n,
            forall|j: int| 0 <= j < i ==> s@[j] != a && s@[j] != b,
        decreases n - i,
    {
        let c = s.get_char(i);
        if c == a || c == b {
            proof {
                lemma_find2(s@, a, b);
            }
            return i;
        }
        i += 1;
    }
    proof {
        lemma_find2(s@, a, b);
    }
    n
}

/// Whether the characters of `s` from `from` up to `to` are all decimal
/// digits.
fn all_digits_range(s: &str, from: usize, to: usize) -> (r: bool)
    requires
        from <= to <= s@.len(),
    ensures
        r == spec_all_digits(s@.subrange(from as int, to as int)),
{
    let ghost range = s@.subrange(from as int, to as int);
    let mut i: usize = from;
    while i < to
        invariant
            from <= i <= to <= s@.len(),
            range == s@.subrange(from as int, to as int),
            forall|j: int| from <= j < i ==> spec_is_digit(s@[j]),
        decreases to - i,
    {
        let c = s.get_char(i);
        if c < '0' || c > '9' {
            proof {
                assert(range[i - from] == s@[i as int]);
            }
            return false;
        }
        i += 1;
    }
    proof {
        assert forall|k: int| 0 <= k < range.len() implies spec_is_digit(range[k]) by {
            assert(range[k] == s@[from + k]);
        }
    }
    true
}

/// The sign of `s` stripped, where it has one.
pub open spec fn spec_strip_sign(s: Seq<char>) -> Seq<char> {
    if s.len() > 0 && (s[0] == '+' || s[0] == '-') {
        s.drop_first()
    } else {
        s
    }
}

/// Whether `s` spells `inf`, `infinity` or `nan`, in any casing.
pub open spec fn spec_is_special(s: Seq<char>) -> bool {
    ||| (s.len() == 3 && spec_lower(s[0]) == 'i' && spec_lower(s[1]) == 'n' && spec_lower(s[2])
        == 'f')
    ||| (s.len() == 8 && spec_lower(s[0]) == 'i' && spec_lower(s[1]) == 'n' && spec_lower(s[2])
        == 'f' && spec_lower(s[3]) == 'i' && spec_lower(s[4]) == 'n' && spec_lower(s[5]) == 'i'
        && spec_lower(s[6]) == 't' && spec_lower(s[7]) == 'y')
    ||| (s.len() == 3 && spec_lower(s[0]) == 'n' && spec_lower(s[1]) == 'a' && spec_lower(s[2])
        == 'n')
}

fn is_special(s: &str) -> (r: bool)
    ensures
        r == spec_is_special(s@),
{
    let n = s.unicode_len();
    if n == 3 {
        let c0 = lower(s.get_char(0));
        let c1 = lower(s.get_char(1));
        let c2 = lower(s.get_char(2));
        (c0 == 'i' && c1 == 'n' && c2 == 'f') || (c0 == 'n' && c1 == 'a' && c2 == 'n')
    } else if n == 8 {
        let c0 = lower(s.get_char(0));
        let c1 = lower(s.get_char(1));
        let c2 = lower(s.get_char(2));
        let c3 = lower(s.get_char(3));
        let c4 = lower(s.get_char(4));
        let c5 = lower(s.get_char(5));
        let c6 = lower(s.get_char(6));
        let c7 = lower(s.get_char(7));
        c0 == 'i' && c1 == 'n' && c2 == 'f' && c3 == 'i' && c4 == 'n' && c5 == 'i' && c6 == 't'
            && c7 == 'y'
    } else {
        false
    }
}

/// A mantissa: digits, optionally with one point among them, at least one
/// digit in all.
pub open spec fn spec_is_mantissa(s: Seq<char>) -> bool {
    let d = spec_find2(s, '.', '.');
    if d == s.len() {
        s.len() > 0 && spec_all_digits(s)
    } else {
        spec_all_digits(s.take(d)) && spec_all_digits(s.skip(d + 1)) && s.len() > 1
    }
}

fn is_mantissa(s: &str) -> (r: bool)
    ensures
        r == spec_is_mantissa(s@),
{
    let n = s.unicode_len();
    let d = find2(s, '.', '.');
    if d == n {
        if n == 0 {
            false
        } else {
            proof {
                assert(s@.subrange(0, n as int) =~= s@);
            }
            all_digits_range(s, 0, n)
        }
    } else {
        proof {
            lemma_find2(s@, '.', '.');
            assert(s@.take(d as int) =~= s@.subrange(0, d as int));
            assert(s@.skip(d + 1) =~= s@.subrange(d + 1 as int, n as int));
        }
        let head = all_digits_range(s, 0, d);
        let tail = all_digits_range(s, d + 1, n);
        head && tail && n > 1
    }
}

/// An exponent part: an optional sign, then at least one digit and nothing
/// else.
pub open spec fn spec_is_exp(s: Seq<char>) -> bool {
    let t = spec_strip_sign(s);
    t.len() > 0 && spec_all_digits(t)
}

fn is_exp(s: &str) -> (r: bool)
    ensures
        r == spec_is_exp(s@),
{
    let n = s.unicode_len();
    let mut start: usize = 0;
    if n > 0 {
        let c = s.get_char(0);
        if c == '+' || c == '-' {
            start = 1;
        }
    }
    proof {
        assert(s@.subrange(start as int, n as int) =~= spec_strip_sign(s@));
    }
    if start == n {
        false
    } else {
        all_digits_range(s, start, n)
    }
}

/// The strings `f64::from_str` accepts: an optional sign, then `inf`,
/// `infinity` or `nan` in any casing, or a mantissa of digits with an
/// optional point, optionally followed by `e` or `E` and an exponent.
pub open spec fn spec_is_float(s: Seq<char>) -> bool {
    let body = spec_strip_sign(s);
    let e = spec_find2(body, 'e', 'E');
    ||| spec_is_special(body)
    ||| (e == body.len() && spec_is_mantissa(body))
    ||| (e < body.len() && spec_is_mantissa(body.take(e)) && spec_is_exp(body.skip(e + 1)))
}

/// Whether `s` would be read by `f64::from_str` as a floating-point value,
/// exactly as `spec_is_float` describes.
pub fn is_float_literal(s: &str) -> (r: bool)
    ensures
        r == spec_is_float(s@),
{
    let n = s.unicode_len();
    let mut start: usize = 0;
    if n > 0 {
        let c = s.get_char(0);
        if c == '+' || c == '-' {
            start = 1;
        }
    }
    let body = s.substring_char(start, n);
    proof {
        assert(body@ =~= spec_strip_sign(s@));
    }
    if is_special(body) {
        return true;
    }
    let m = body.unicode_len();
    let e = find2(body, 'e', 'E');
    if e == m {
        is_mantissa(body)
    } else {
        proof {
            lemma_find2(body@, 'e', 'E');
        }
        let mantissa = body.substring_char(0, e);
        let exp = body.substring_char(e + 1, m);
        proof {
            assert(mantissa@ =~= body@.take(e as int));
            assert(exp@ =~= body@.skip(e + 1));
        }
        let head = is_mantissa(mantissa);
        let tail = is_exp(exp);
        head && tail
    }
}

} // verus!
