//! Character-level helpers shared by the parsers: splitting on separators,
//! Unicode whitespace trimming, decimal integer parsing and formatting.

use vstd::prelude::*;
use crate::find::{first_match, lemma_first_match_is, lemma_first_match_none};

verus! {

/// Predicate "is the character `c`".
pub open spec fn is_char(c: char) -> spec_fn(char) -> bool {
    |x: char| x == c
}

/// Unicode `White_Space`, the set `char::is_whitespace` and `str::trim` use.
pub open spec fn is_unicode_ws(c: char) -> bool {
    ||| ('\u{9}' <= c && c <= '\u{d}')
    ||| c == ' '
    ||| c == '\u{85}'
    ||| c == '\u{a0}'
    ||| c == '\u{1680}'
    ||| ('\u{2000}' <= c && c <= '\u{200a}')
    ||| c == '\u{2028}'
    ||| c == '\u{2029}'
    ||| c == '\u{202f}'
    ||| c == '\u{205f}'
    ||| c == '\u{3000}'
}

/// `s` without its leading whitespace.
pub open spec fn trim_start(s: Seq<char>) -> Seq<char>
    decreases s.len(),
{
    if s.len() > 0 && is_unicode_ws(s[0]) {
        trim_start(s.drop_first())
    } else {
        s
    }
}

/// `s` without its trailing whitespace.
pub open spec fn trim_end(s: Seq<char>) -> Seq<char>
    decreases s.len(),
{
    if s.len() > 0 && is_unicode_ws(s.last()) {
        trim_end(s.drop_last())
    } else {
        s
    }
}

/// `s` without leading and trailing whitespace (`str::trim`).
pub open spec fn trim(s: Seq<char>) -> Seq<char> {
    trim_end(trim_start(s))
}

/// `s` without any trailing `'\r'` or `'\n'` characters.
pub open spec fn trim_line_end(s: Seq<char>) -> Seq<char>
    decreases s.len(),
{
    if s.len() > 0 && (s.last() == '\r' || s.last() == '\n') {
        trim_line_end(s.drop_last())
    } else {
        s
    }
}

/// The text before the first `c`, and the text after it when `c` occurs
/// (`str::split_once`, and the first two items of `splitn`).
pub open spec fn split_first(s: Seq<char>, c: char) -> (Seq<char>, Option<Seq<char>>) {
    match first_match(s, is_char(c)) {
        Some(i) => (s.subrange(0, i), Some(s.subrange(i + 1, s.len() as int))),
        None => (s, None),
    }
}

/// An ASCII decimal digit.
pub open spec fn is_digit(c: char) -> bool {
    '0' <= c && c <= '9'
}

/// Numeric value of a run of decimal digits.
pub open spec fn digits_value(s: Seq<char>) -> int
    decreases s.len(),
{
    if s.len() == 0 {
        0
    } else {
        digits_value(s.drop_last()) * 10 + (s.last() as int - '0' as int)
    }
}

/// The text after an optional leading `+` or `-`.
pub open spec fn unsigned_part(s: Seq<char>) -> Seq<char> {
    if s.len() > 0 && (s[0] == '-' || s[0] == '+') {
        s.drop_first()
    } else {
        s
    }
}

/// Every character is an ASCII decimal digit.
pub open spec fn all_digits(s: Seq<char>) -> bool {
    forall|i: int| 0 <= i < s.len() ==> is_digit(#[trigger] s[i])
}

/// `str::parse::<i32>`: an optional `+` or `-`, then one or more ASCII
/// digits whose value fits an `i32`.
pub open spec fn parse_i32_spec(s: Seq<char>) -> Option<i32> {
    let body = unsigned_part(s);
    if body.len() == 0 || !all_digits(body) {
        None
    } else {
        let value = if s[0] == '-' { -digits_value(body) } else { digits_value(body) };
        if i32::MIN <= value <= i32::MAX {
            Some(value as i32)
        } else {
            None
        }
    }
}

/// Decimal digits of a natural number, most significant first.
pub open spec fn nat_digits(n: nat) -> Seq<char>
    decreases n,
{
    if n < 10 {
        seq![(n + '0' as nat) as char]
    } else {
        nat_digits(n / 10).push(((n % 10) + '0' as nat) as char)
    }
}

/// Decimal rendering of an integer (`i32::to_string`).
pub open spec fn int_to_decimal(v: int) -> Seq<char> {
    if v < 0 {
        seq!['-'] + nat_digits((-v) as nat)
    } else {
        nat_digits(v as nat)
    }
}

/// Characters of an optional string.
pub open spec fn opt_text(o: Option<String>) -> Option<Seq<char>> {
    match o {
        Some(s) => Some(s@),
        None => None,
    }
}

/// ASCII lower-casing of one character (`char::to_ascii_lowercase`).
pub open spec fn ascii_lower(c: char) -> char {
    if 'A' <= c && c <= 'Z' {
        ((c as u32) + 32) as char
    } else {
        c
    }
}

/// ASCII lower-casing of every character of `s`.
pub open spec fn ascii_lower_seq(s: Seq<char>) -> Seq<char> {
    s.map_values(|c: char| ascii_lower(c))
}

/// `char::to_ascii_lowercase`.
pub fn to_ascii_lower(c: char) -> (r: char)
    ensures
        r == ascii_lower(c),
{
    if 'A' <= c && c <= 'Z' {
        ((c as u8) + 32) as char
    } else {
        c
    }
}

/// Does `s`, lower-cased in ASCII, spell exactly `lit`?
pub fn eq_ignore_ascii_case(s: &str, lit: &str) -> (r: bool)
    ensures
        r == (ascii_lower_seq(s@) == lit@),
{
    let n = s.unicode_len();
    if n != lit.unicode_len() {
        assert(ascii_lower_seq(s@).len() != lit@.len());
        return false;
    }
    let mut k: usize = 0;
    while k < n
        invariant
            n == s@.len() == lit@.len(),
            k <= n,
            forall|j: int| 0 <= j < k ==> ascii_lower(s@[j]) == #[trigger] lit@[j],
        decreases n - k,
    {
        if to_ascii_lower(s.get_char(k)) != lit.get_char(k) {
            assert(ascii_lower_seq(s@)[k as int] != lit@[k as int]);
            return false;
        }
        k += 1;
    }
    assert(ascii_lower_seq(s@) =~= lit@);
    true
}

/// The decimal digits of `n` are digits, at least one, and read back as `n`.
pub proof fn lemma_nat_digits(n: nat)
    ensures
        nat_digits(n).len() >= 1,
        all_digits(nat_digits(n)),
        digits_value(nat_digits(n)) == n,
    decreases n,
{
    let c = ((n % 10) + '0' as nat) as char;
    assert(c as int == (n % 10) + 48);
    if n < 10 {
        let d = nat_digits(n);
        assert(d.drop_last() =~= Seq::<char>::empty());
        assert(digits_value(d.drop_last()) == 0);
        assert(d.last() == c);
        assert(digits_value(d) == digits_value(d.drop_last()) * 10 + (d.last() as int - '0' as int));
    } else {
        lemma_nat_digits(n / 10);
        let d = nat_digits(n);
        assert(d.drop_last() =~= nat_digits(n / 10));
        assert(d.last() == c);
        assert(digits_value(d) == digits_value(d.drop_last()) * 10 + (d.last() as int - '0' as int));
        assert((n / 10) * 10 + n % 10 == n);
        assert forall|i: int| 0 <= i < d.len() implies is_digit(#[trigger] d[i]) by {
            if i < d.len() - 1 {
                assert(d[i] == nat_digits(n / 10)[i]);
            }
        }
    }
}

/// A decimal rendering holds no whitespace, so trimming keeps it.
pub proof fn lemma_decimal_untrimmed(v: int)
    ensures
        trim(int_to_decimal(v)) == int_to_decimal(v),
        forall|i: int| 0 <= i < int_to_decimal(v).len() ==> {
            let c = #[trigger] int_to_decimal(v)[i];
            c == '-' || is_digit(c)
        },
{
    let s = int_to_decimal(v);
    if v < 0 {
        lemma_nat_digits((-v) as nat);
        assert forall|i: int| 0 <= i < s.len() implies {
            let c = #[trigger] s[i];
            c == '-' || is_digit(c)
        } by {
            if i > 0 {
                assert(s[i] == nat_digits((-v) as nat)[i - 1]);
            }
        }
    } else {
        lemma_nat_digits(v as nat);
    }
    assert(s.len() >= 1);
    assert(!is_unicode_ws(s[0]));
    assert(!is_unicode_ws(s.last()));
    assert(trim_start(s) == s);
    assert(trim_end(s) == s);
}

/// Formatting an `i32` in decimal and parsing it back gives the same number.
pub proof fn lemma_i32_decimal_round_trip(v: i32)
    ensures
        parse_i32_spec(int_to_decimal(v as int)) == Some(v),
{
    let s = int_to_decimal(v as int);
    if v < 0 {
        lemma_nat_digits((-v) as nat);
        assert(unsigned_part(s) =~= nat_digits((-v) as nat));
    } else {
        lemma_nat_digits(v as nat);
        lemma_decimal_untrimmed(v as int);
        assert(is_digit(s[0]));
        assert(unsigned_part(s) == s);
    }
}

/// Copy the characters of `s` into a vector.
pub fn chars_of(s: &str) -> (v: Vec<char>)
    ensures
        v@ == s@,
{
    let mut v: Vec<char> = Vec::new();
    for c in it: s.chars()
        invariant
            it.seq() == s@,
            v@ == it.seq().take(it.index() as int),
    {
        v.push(c);
        assert(v@ =~= it.seq().take(it.index() as int + 1));
    }
    assert(v@ =~= s@);
    v
}

/// Owned copy of the characters `lo..hi` of `s`.
pub fn substring(s: &str, lo: usize, hi: usize) -> (r: String)
    requires
        lo <= hi <= s@.len(),
    ensures
        r@ == s@.subrange(lo as int, hi as int),
{
    s.substring_char(lo, hi).to_owned()
}

/// Position of the first `c` in `v[lo..hi]`.
pub fn find_char(v: &Vec<char>, lo: usize, hi: usize, c: char) -> (r: Option<usize>)
    requires
        lo <= hi <= v@.len(),
    ensures
        match r {
            Some(i) => lo <= i < hi && first_match(v@.subrange(lo as int, hi as int), is_char(c))
                == Some(i - lo),
            None => first_match(v@.subrange(lo as int, hi as int), is_char(c)) is None,
        },
{
    let ghost sub = v@.subrange(lo as int, hi as int);
    let mut i = lo;
    while i < hi
        invariant
            lo <= i <= hi <= v@.len(),
            sub == v@.subrange(lo as int, hi as int),
            forall|j: int| 0 <= j < i - lo ==> !is_char(c)(#[trigger] sub[j]),
        decreases hi - i,
    {
        if v[i] == c {
            proof {
                lemma_first_match_is(sub, is_char(c), i - lo);
            }
            return Some(i);
        }
        i += 1;
    }
    proof {
        lemma_first_match_none(sub, is_char(c));
    }
    None
}

/// Does `v[lo..hi]` spell exactly `lit`?
pub fn matches_literal(v: &Vec<char>, lo: usize, hi: usize, lit: &str) -> (r: bool)
    requires
        lo <= hi <= v@.len(),
    ensures
        r == (v@.subrange(lo as int, hi as int) == lit@),
{
    let n = lit.unicode_len();
    if hi - lo != n {
        return false;
    }
    let mut k: usize = 0;
    while k < n
        invariant
            lo <= hi <= v@.len(),
            hi - lo == n == lit@.len(),
            k <= n,
            forall|j: int| 0 <= j < k ==> v@[lo + j] == #[trigger] lit@[j],
        decreases n - k,
    {
        if v[lo + k] != lit.get_char(k) {
            assert(v@.subrange(lo as int, hi as int)[k as int] != lit@[k as int]);
            return false;
        }
        k += 1;
    }
    assert(v@.subrange(lo as int, hi as int) =~= lit@);
    true
}

/// `s` ends with `suffix`.
pub open spec fn ends_with(s: Seq<char>, suffix: Seq<char>) -> bool {
    s.len() >= suffix.len() && s.subrange(s.len() - suffix.len(), s.len() as int) == suffix
}

/// `str::ends_with` for a text suffix.
pub fn str_ends_with(s: &str, suffix: &str) -> (r: bool)
    ensures
        r == ends_with(s@, suffix@),
{
    let v = chars_of(s);
    let n = v.len();
    let m = suffix.unicode_len();
    if n >= m {
        matches_literal(&v, n - m, n, suffix)
    } else {
        false
    }
}

/// Is `c` Unicode whitespace?
pub fn is_whitespace(c: char) -> (r: bool)
    ensures
        r == is_unicode_ws(c),
{
    ('\u{9}' <= c && c <= '\u{d}') || c == ' ' || c == '\u{85}' || c == '\u{a0}' || c
        == '\u{1680}' || ('\u{2000}' <= c && c <= '\u{200a}') || c == '\u{2028}' || c
        == '\u{2029}' || c == '\u{202f}' || c == '\u{205f}' || c == '\u{3000}'
}

proof fn lemma_trim_start_skip(s: Seq<char>, k: int)
    requires
        0 <= k <= s.len(),
        forall|j: int| 0 <= j < k ==> is_unicode_ws(#[trigger] s[j]),
    ensures
        trim_start(s) == trim_start(s.subrange(k, s.len() as int)),
    decreases k,
{
    if k == 0 {
        assert(s.subrange(0, s.len() as int) =~= s);
    } else {
        let t = s.drop_first();
        assert forall|j: int| 0 <= j < k - 1 implies is_unicode_ws(#[trigger] t[j]) by {
            assert(t[j] == s[j + 1]);
        }
        lemma_trim_start_skip(t, k - 1);
        assert(t.subrange(k - 1, t.len() as int) =~= s.subrange(k, s.len() as int));
    }
}

proof fn lemma_trim_end_skip(s: Seq<char>, k: int)
    requires
        0 <= k <= s.len(),
        forall|j: int| k <= j < s.len() ==> is_unicode_ws(#[trigger] s[j]),
    ensures
        trim_end(s) == trim_end(s.subrange(0, k)),
    decreases s.len() - k,
{
    if k == s.len() {
        assert(s.subrange(0, k) =~= s);
    } else {
        let t = s.drop_last();
        assert forall|j: int| k <= j < t.len() implies is_unicode_ws(#[trigger] t[j]) by {
            assert(t[j] == s[j]);
        }
        lemma_trim_end_skip(t, k);
        assert(t.subrange(0, k) =~= s.subrange(0, k));
    }
}

proof fn lemma_trim_line_end_skip(s: Seq<char>, k: int)
    requires
        0 <= k <= s.len(),
        forall|j: int| k <= j < s.len() ==> (#[trigger] s[j] == '\r' || s[j] == '\n'),
    ensures
        trim_line_end(s) == trim_line_end(s.subrange(0, k)),
    decreases s.len() - k,
{
    if k == s.len() {
        assert(s.subrange(0, k) =~= s);
    } else {
        let t = s.drop_last();
        assert forall|j: int| k <= j < t.len() implies (#[trigger] t[j] == '\r' || t[j] == '\n') by {
            assert(t[j] == s[j]);
        }
        lemma_trim_line_end_skip(t, k);
        assert(t.subrange(0, k) =~= s.subrange(0, k));
    }
}

/// Bounds of `str::trim` applied to `v[lo..hi]`.
pub fn trim_bounds(v: &Vec<char>, lo: usize, hi: usize) -> (r: (usize, usize))
    requires
        lo <= hi <= v@.len(),
    ensures
        lo <= r.0 <= r.1 <= hi,
        v@.subrange(r.0 as int, r.1 as int) == trim(v@.subrange(lo as int, hi as int)),
{
    let ghost s = v@.subrange(lo as int, hi as int);
    let mut a = lo;
    while a < hi && is_whitespace(v[a])
        invariant
            lo <= a <= hi <= v@.len(),
            s == v@.subrange(lo as int, hi as int),
            forall|j: int| 0 <= j < a - lo ==> is_unicode_ws(#[trigger] s[j]),
        decreases hi - a,
    {
        a += 1;
    }
    proof {
        lemma_trim_start_skip(s, a - lo);
        assert(s.subrange(a - lo, s.len() as int) =~= v@.subrange(a as int, hi as int));
    }
    let ghost t = v@.subrange(a as int, hi as int);
    assert(trim_start(s) == t);
    let mut b = hi;
    while b > a && is_whitespace(v[b - 1])
        invariant
            lo <= a <= b <= hi <= v@.len(),
            t == v@.subrange(a as int, hi as int),
            forall|j: int| b - a <= j < t.len() ==> is_unicode_ws(#[trigger] t[j]),
        decreases b - a,
    {
        b -= 1;
    }
    proof {
        lemma_trim_end_skip(t, b - a);
        assert(t.subrange(0, b - a) =~= v@.subrange(a as int, b as int));
    }
    (a, b)
}

/// End of `v[lo..hi]` once trailing `'\r'` / `'\n'` are removed.
pub fn trim_line_end_bound(v: &Vec<char>, lo: usize, hi: usize) -> (r: usize)
    requires
        lo <= hi <= v@.len(),
    ensures
        lo <= r <= hi,
        v@.subrange(lo as int, r as int) == trim_line_end(v@.subrange(lo as int, hi as int)),
{
    let ghost t = v@.subrange(lo as int, hi as int);
    let mut b = hi;
    while b > lo && (v[b - 1] == '\r' || v[b - 1] == '\n')
        invariant
            lo <= b <= hi <= v@.len(),
            t == v@.subrange(lo as int, hi as int),
            forall|j: int| b - lo <= j < t.len() ==> (#[trigger] t[j] == '\r' || t[j] == '\n'),
        decreases b - lo,
    {
        b -= 1;
    }
    proof {
        lemma_trim_line_end_skip(t, b - lo);
        assert(t.subrange(0, b - lo) =~= v@.subrange(lo as int, b as int));
    }
    b
}

proof fn lemma_digits_value_nonneg(s: Seq<char>)
    requires
        forall|i: int| 0 <= i < s.len() ==> is_digit(#[trigger] s[i]),
    ensures
        digits_value(s) >= 0,
    decreases s.len(),
{
    if s.len() > 0 {
        let t = s.drop_last();
        assert forall|i: int| 0 <= i < t.len() implies is_digit(#[trigger] t[i]) by {
            assert(t[i] == s[i]);
        }
        lemma_digits_value_nonneg(t);
    }
}

proof fn lemma_digits_value_monotone(s: Seq<char>, k: int)
    requires
        0 <= k <= s.len(),
        forall|i: int| 0 <= i < s.len() ==> is_digit(#[trigger] s[i]),
    ensures
        digits_value(s.subrange(0, k)) <= digits_value(s),
    decreases s.len() - k,
{
    if k == s.len() {
        assert(s.subrange(0, k) =~= s);
    } else {
        let t = s.drop_last();
        assert forall|i: int| 0 <= i < t.len() implies is_digit(#[trigger] t[i]) by {
            assert(t[i] == s[i]);
        }
        lemma_digits_value_monotone(t, k);
        assert(t.subrange(0, k) =~= s.subrange(0, k));
        lemma_digits_value_nonneg(t);
    }
}

/// `str::parse::<i32>` on `v[lo..hi]`.
pub fn parse_i32(v: &Vec<char>, lo: usize, hi: usize) -> (r: Option<i32>)
    requires
        lo <= hi <= v@.len(),
    ensures
        r == parse_i32_spec(v@.subrange(lo as int, hi as int)),
{
    let ghost s = v@.subrange(lo as int, hi as int);
    let mut start = lo;
    let mut negative = false;
    if lo < hi && v[lo] == '-' {
        negative = true;
        start = lo + 1;
    } else if lo < hi && v[lo] == '+' {
        start = lo + 1;
    }
    let ghost body = v@.subrange(start as int, hi as int);
    assert(body =~= unsigned_part(s));
    if start == hi {
        return None;
    }
    let mut acc: i64 = 0;
    let mut i = start;
    while i < hi
        invariant
            lo <= start <= i <= hi <= v@.len(),
            body == v@.subrange(start as int, hi as int),
            s == v@.subrange(lo as int, hi as int),
            body == unsigned_part(s),
            negative == (s[0] == '-'),
            body.len() > 0,
            forall|j: int| 0 <= j < i - start ==> is_digit(#[trigger] body[j]),
            acc == digits_value(body.subrange(0, i - start)),
            0 <= acc <= 2147483648,
        decreases hi - i,
    {
        let c = v[i];
        if !('0' <= c && c <= '9') {
            assert(!is_digit(body[i - start]));
            return None;
        }
        let d = (c as u32 - '0' as u32) as i64;
        assert(body.subrange(0, i + 1 - start).drop_last() =~= body.subrange(0, i - start));
        acc = acc * 10 + d;
        i += 1;
        if acc > 2147483648 {
            proof {
                if all_digits(body) {
                    lemma_digits_value_monotone(body, i - start);
                }
            }
            return None;
        }
    }
    assert(body.subrange(0, body.len() as int) =~= body);
    if negative {
        Some((0 - acc) as i32)
    } else if acc <= 2147483647 {
        Some(acc as i32)
    } else {
        None
    }
}

/// Append the decimal digits of `n` to `out`.
fn push_decimal(out: &mut String, n: u64)
    ensures
        final(out)@ == old(out)@ + nat_digits(n as nat),
    decreases n,
{
    if n >= 10 {
        push_decimal(out, n / 10);
    }
    let digit = (n % 10) as usize;
    let digits = "0123456789";
    proof {
        reveal_strlit("0123456789");
    }
    let piece = digits.substring_char(digit, digit + 1);
    assert(piece@ =~= seq![((n % 10) as nat + '0' as nat) as char]);
    out.append(piece);
}

/// Decimal rendering of `n` (`u64::to_string`).
pub fn u64_to_string(n: u64) -> (r: String)
    ensures
        r@ == nat_digits(n as nat),
{
    let mut out = String::new();
    push_decimal(&mut out, n);
    out
}

/// Decimal rendering of `v` (`i64::to_string`).
pub fn i64_to_string(v: i64) -> (r: String)
    ensures
        r@ == int_to_decimal(v as int),
{
    let mut out = String::new();
    if v < 0 {
        let minus = "-";
        proof {
            reveal_strlit("-");
        }
        out.append(minus);
        let magnitude = (0 - (v as i128)) as u64;
        push_decimal(&mut out, magnitude);
    } else {
        push_decimal(&mut out, v as u64);
    }
    out
}

/// Decimal rendering of `v` (`i32::to_string`).
pub fn i32_to_string(v: i32) -> (r: String)
    ensures
        r@ == int_to_decimal(v as int),
{
    let mut out = String::new();
    if v < 0 {
        let minus = "-";
        proof {
            reveal_strlit("-");
        }
        out.append(minus);
        let magnitude = (0 - (v as i64)) as u64;
        push_decimal(&mut out, magnitude);
    } else {
        push_decimal(&mut out, v as u64);
    }
    out
}

/// `(before, after)` indices of the first `c` in `v[lo..hi]`: the first
/// piece is `v[lo..r.0]`, the rest (when `c` occurs) is `v[r.1..hi]`.
pub fn split_at_first(v: &Vec<char>, lo: usize, hi: usize, c: char) -> (r: (usize, Option<usize>))
    requires
        lo <= hi <= v@.len(),
    ensures
        lo <= r.0 <= hi,
        split_first(v@.subrange(lo as int, hi as int), c).0 == v@.subrange(lo as int, r.0 as int),
        match r.1 {
            Some(b) => r.0 < b <= hi && split_first(v@.subrange(lo as int, hi as int), c).1 == Some(
                v@.subrange(b as int, hi as int),
            ),
            None => r.0 == hi && split_first(v@.subrange(lo as int, hi as int), c).1 is None,
        },
{
    let ghost s = v@.subrange(lo as int, hi as int);
    match find_char(v, lo, hi, c) {
        Some(i) => {
            assert(s.subrange(0, i - lo) =~= v@.subrange(lo as int, i as int));
            assert(s.subrange(i - lo + 1, s.len() as int) =~= v@.subrange(i + 1, hi as int));
            (i, Some(i + 1))
        },
        None => {
            assert(s =~= v@.subrange(lo as int, hi as int));
            (hi, None)
        },
    }
}

/// Words completed so far and the word being read (`str::split_whitespace`,
/// scanning left to right).
pub open spec fn word_scan(s: Seq<char>) -> (Seq<Seq<char>>, Seq<char>)
    decreases s.len(),
{
    if s.len() == 0 {
        (Seq::empty(), Seq::empty())
    } else {
        let (done, cur) = word_scan(s.drop_last());
        if is_unicode_ws(s.last()) {
            (if cur.len() > 0 {
                done.push(cur)
            } else {
                done
            }, Seq::empty())
        } else {
            (done, cur.push(s.last()))
        }
    }
}

/// The whitespace-separated words of `s`.
pub open spec fn words(s: Seq<char>) -> Seq<Seq<char>> {
    let (done, cur) = word_scan(s);
    if cur.len() > 0 {
        done.push(cur)
    } else {
        done
    }
}

/// The words of `s` (`str::split_whitespace`).
pub fn words_of(s: &str) -> (r: Vec<String>)
    ensures
        r@.map_values(|w: String| w@) == words(s@),
{
    let v = chars_of(s);
    let mut out: Vec<String> = Vec::new();
    let mut start: usize = 0;
    let mut i: usize = 0;
    while i < v.len()
        invariant
            v@ == s@,
            start <= i <= v@.len(),
            out@.map_values(|w: String| w@) == word_scan(v@.take(i as int)).0,
            word_scan(v@.take(i as int)).1 == v@.subrange(start as int, i as int),
        decreases v@.len() - i,
    {
        assert(v@.take(i as int + 1).drop_last() =~= v@.take(i as int));
        if is_whitespace(v[i]) {
            if start < i {
                let w = substring(s, start, i);
                let ghost before = out@;
                out.push(w);
                assert(out@.map_values(|w: String| w@) =~= before.map_values(|w: String| w@).push(
                    w@,
                ));
            }
            start = i + 1;
            assert(v@.subrange(start as int, i as int + 1) =~= Seq::<char>::empty());
        } else {
            assert(v@.subrange(start as int, i as int + 1) =~= v@.subrange(start as int, i as int).push(
                v@[i as int],
            ));
        }
        i += 1;
    }
    assert(v@.take(v@.len() as int) =~= v@);
    if start < v.len() {
        let w = substring(s, start, v.len());
        let ghost before = out@;
        out.push(w);
        assert(out@.map_values(|w: String| w@) =~= before.map_values(|w: String| w@).push(w@));
    }
    out
}


/// `str::parse::<u32>`: an optional `+`, then one or more ASCII digits
/// whose value fits a `u32`.
pub open spec fn parse_u32_spec(s: Seq<char>) -> Option<u32> {
    let body = if s.len() > 0 && s[0] == '+' {
        s.drop_first()
    } else {
        s
    };
    if body.len() == 0 || !all_digits(body) {
        None
    } else if digits_value(body) <= u32::MAX {
        Some(digits_value(body) as u32)
    } else {
        None
    }
}

/// `str::parse::<u32>` on `v[lo..hi]`.
pub fn parse_u32(v: &Vec<char>, lo: usize, hi: usize) -> (r: Option<u32>)
    requires
        lo <= hi <= v@.len(),
    ensures
        r == parse_u32_spec(v@.subrange(lo as int, hi as int)),
{
    let ghost s = v@.subrange(lo as int, hi as int);
    let start = if lo < hi && v[lo] == '+' { lo + 1 } else { lo };
    let ghost body = v@.subrange(start as int, hi as int);
    assert(body =~= (if s.len() > 0 && s[0] == '+' { s.drop_first() } else { s }));
    if start == hi {
        return None;
    }
    let mut acc: u64 = 0;
    let mut i = start;
    while i < hi
        invariant
            lo <= start <= i <= hi <= v@.len(),
            s == v@.subrange(lo as int, hi as int),
            body == v@.subrange(start as int, hi as int),
            body == (if s.len() > 0 && s[0] == '+' {
                s.drop_first()
            } else {
                s
            }),
            body.len() > 0,
            forall|j: int| 0 <= j < i - start ==> is_digit(#[trigger] body[j]),
            acc == digits_value(body.subrange(0, i - start)),
            acc <= u32::MAX,
        decreases hi - i,
    {
        let c = v[i];
        if !('0' <= c && c <= '9') {
            assert(!is_digit(body[i - start]));
            return None;
        }
        let d = (c as u32 - '0' as u32) as u64;
        assert(body.subrange(0, i + 1 - start).drop_last() =~= body.subrange(0, i - start));
        acc = acc * 10 + d;
        i += 1;
        if acc > 0xffff_ffff {
            proof {
                if all_digits(body) {
                    lemma_digits_value_monotone(body, i - start);
                }
            }
            return None;
        }
    }
    assert(body.subrange(0, body.len() as int) =~= body);
    Some(acc as u32)
}

/// `needle` occurs in `s`.
pub open spec fn contains_text(s: Seq<char>, needle: Seq<char>) -> bool {
    exists|i: int| 0 <= i && i + needle.len() <= s.len() && #[trigger] s.subrange(i, i + needle.len()) == needle
}

/// `str::contains` for a text needle.
pub fn str_contains(s: &str, needle: &str) -> (r: bool)
    ensures
        r == contains_text(s@, needle@),
{
    let v = chars_of(s);
    let n = v.len();
    let m = needle.unicode_len();
    if m == 0 {
        assert(s@.subrange(0int, 0int + needle@.len()) =~= needle@);
        return true;
    }
    let mut i: usize = 0;
    while i < n
        invariant
            v@ == s@,
            n == v@.len(),
            m == needle@.len(),
            m >= 1,
            i <= n,
            forall|j: int| 0 <= j < i && j + m <= n ==> #[trigger] v@.subrange(j, j + m) != needle@,
        decreases n - i,
    {
        if m <= n - i && matches_literal(&v, i, i + m, needle) {
            return true;
        }
        i += 1;
    }
    false
}

/// Pieces of `s` between the `c`s (`str::split`), read left to right: the
/// complete pieces and the piece being read.
pub open spec fn split_scan(s: Seq<char>, c: char) -> (Seq<Seq<char>>, Seq<char>)
    decreases s.len(),
{
    if s.len() == 0 {
        (Seq::empty(), Seq::empty())
    } else {
        let (done, cur) = split_scan(s.drop_last(), c);
        if s.last() == c {
            (done.push(cur), Seq::empty())
        } else {
            (done, cur.push(s.last()))
        }
    }
}

/// The pieces of `s` between the `c`s; always at least one.
pub open spec fn split_pieces(s: Seq<char>, c: char) -> Seq<Seq<char>> {
    let (done, cur) = split_scan(s, c);
    done.push(cur)
}

/// The pieces of `s` between the `c`s (see [`split_pieces`]).
pub fn split_all(s: &str, c: char) -> (r: Vec<String>)
    ensures
        r@.map_values(|p: String| p@) == split_pieces(s@, c),
{
    let v = chars_of(s);
    let mut out: Vec<String> = Vec::new();
    let mut start: usize = 0;
    let mut i: usize = 0;
    while i < v.len()
        invariant
            v@ == s@,
            start <= i <= v@.len(),
            out@.map_values(|p: String| p@) == split_scan(v@.take(i as int), c).0,
            split_scan(v@.take(i as int), c).1 == v@.subrange(start as int, i as int),
        decreases v@.len() - i,
    {
        assert(v@.take(i as int + 1).drop_last() =~= v@.take(i as int));
        if v[i] == c {
            let piece = substring(s, start, i);
            let ghost before = out@;
            out.push(piece);
            assert(out@.map_values(|p: String| p@) =~= before.map_values(|p: String| p@).push(piece@));
            start = i + 1;
            assert(v@.subrange(start as int, i as int + 1) =~= Seq::<char>::empty());
        } else {
            assert(v@.subrange(start as int, i as int + 1) =~= v@.subrange(start as int, i as int).push(
                v@[i as int],
            ));
        }
        i += 1;
    }
    assert(v@.take(v@.len() as int) =~= v@);
    let last = substring(s, start, v.len());
    let ghost before = out@;
    out.push(last);
    assert(out@.map_values(|p: String| p@) =~= before.map_values(|p: String| p@).push(last@));
    out
}

} // verus!
