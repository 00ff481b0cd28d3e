//! Unsigned decimal numbers as text, and the whitespace around them.
use vstd::prelude::*;
use vstd::string::StrSliceExecFns;
use vstd::string::StringExecFns;

verus! {

/// The whitespace that trimming removes: the characters of Unicode's
/// `White_Space` property, as `char::is_whitespace` accepts them.
pub open spec fn is_space(c: char) -> bool {
    c == ' ' || ('\t' <= c && c <= '\r') || c == '\u{85}' || c == '\u{a0}' || c == '\u{1680}'
        || ('\u{2000}' <= c && c <= '\u{200a}') || c == '\u{2028}' || c == '\u{2029}'
        || c == '\u{202f}' || c == '\u{205f}' || c == '\u{3000}'
}

pub open spec fn is_digit(c: char) -> bool {
    '0' <= c && c <= '9'
}

pub open spec fn digit_value(c: char) -> int {
    c as int - '0' as int
}

/// The character of a decimal digit `d < 10`.
pub open spec fn digit_char(d: nat) -> char {
    ((d + 48) as u32) as char
}

pub open spec fn all_digits(s: Seq<char>) -> bool {
    forall|i: int| 0 <= i < s.len() ==> is_digit(#[trigger] s[i])
}

/// The number that a string of decimal digits denotes.
pub open spec fn value_of(s: Seq<char>) -> int
    decreases s.len(),
{
    if s.len() == 0 {
        0
    } else {
        value_of(s.drop_last()) * 10 + digit_value(s.last())
    }
}

/// The shortest decimal text of `n`, without sign or leading zeros.
pub open spec fn decimal_chars(n: nat) -> Seq<char>
    decreases n,
{
    if n < 10 {
        seq![digit_char(n)]
    } else {
        decimal_chars(n / 10).push(digit_char(n % 10))
    }
}

pub open spec fn trim_start(s: Seq<char>) -> Seq<char>
    decreases s.len(),
{
    if s.len() > 0 && is_space(s[0]) {
        trim_start(s.drop_first())
    } else {
        s
    }
}

pub open spec fn trim_end(s: Seq<char>) -> Seq<char>
    decreases s.len(),
{
    if s.len() > 0 && is_space(s.last()) {
        trim_end(s.drop_last())
    } else {
        s
    }
}

/// `s` without the whitespace at either end.
pub open spec fn trimmed(s: Seq<char>) -> Seq<char> {
    trim_end(trim_start(s))
}

/// The digits of an unsigned number `t`: `t` without one leading `+`.
pub open spec fn unsigned_digits(t: Seq<char>) -> Seq<char> {
    if t.len() > 0 && t[0] == '+' {
        t.drop_first()
    } else {
        t
    }
}

/// The number that `s` holds once trimmed, where it is a non-empty string
/// of decimal digits after at most one leading `+`.
pub open spec fn decimal_in(s: Seq<char>) -> Option<int> {
    let d = unsigned_digits(trimmed(s));
    if d.len() > 0 && all_digits(d) {
        Some(value_of(d))
    } else {
        None
    }
}

/// The decimal text of `n` denotes `n`, and is made of digits alone.
pub proof fn lemma_decimal_chars_value(n: nat)
    ensures
        decimal_chars(n).len() > 0,
        all_digits(decimal_chars(n)),
        value_of(decimal_chars(n)) == n,
        !is_space(decimal_chars(n)[0]),
        !is_space(decimal_chars(n).last()),
    decreases n,
{
    lemma_digit_char(n % 10);
    if n >= 10 {
        lemma_decimal_chars_value(n / 10);
        let s = decimal_chars(n);
        assert(s.drop_last() =~= decimal_chars(n / 10));
        assert(s[0] == decimal_chars(n / 10)[0]);
        assert(value_of(s) == value_of(decimal_chars(n / 10)) * 10 + digit_value(s.last()));
        assert(n == (n / 10) * 10 + n % 10);
    } else {
        let s = decimal_chars(n);
        assert(s.drop_last() =~= Seq::<char>::empty());
        assert(value_of(s) == value_of(s.drop_last()) * 10 + digit_value(s.last()));
    }
}

proof fn lemma_digit_char(d: nat)
    requires
        d < 10,
    ensures
        is_digit(digit_char(d)),
        digit_value(digit_char(d)) == d,
        !is_space(digit_char(d)),
{
}

/// Text that neither starts nor ends with whitespace is its own trim.
pub proof fn lemma_trimmed_unchanged(s: Seq<char>)
    requires
        s.len() > 0,
        !is_space(s[0]),
        !is_space(s.last()),
    ensures
        trimmed(s) == s,
{
}

/// A string of digits denotes at least what any of its prefixes does.
proof fn lemma_value_of_prefix(s: Seq<char>, k: int)
    requires
        all_digits(s),
        0 <= k <= s.len(),
    ensures
        value_of(s) >= value_of(s.subrange(0, k)),
        value_of(s.subrange(0, k)) >= 0,
    decreases s.len(),
{
    if s.len() > 0 {
        let p = s.drop_last();
        assert(all_digits(p)) by {
            assert forall|i: int| 0 <= i < p.len() implies is_digit(#[trigger] p[i]) by {
                assert(p[i] == s[i]);
            }
        }
        assert(is_digit(s[s.len() - 1]));
        if k == s.len() {
            assert(s.subrange(0, k) =~= s);
            lemma_value_of_prefix(p, k - 1);
        } else {
            assert(p.subrange(0, k) =~= s.subrange(0, k));
            lemma_value_of_prefix(p, k);
        }
    }
}

/// The text of one digit.
fn digit_text(d: u8) -> (r: &'static str)
    requires
        d < 10,
    ensures
        r@ == seq![digit_char(d as nat)],
{
    let r = if d == 0 {
        "0"
    } else if d == 1 {
        "1"
    } else if d == 2 {
        "2"
    } else if d == 3 {
        "3"
    } else if d == 4 {
        "4"
    } else if d == 5 {
        "5"
    } else if d == 6 {
        "6"
    } else if d == 7 {
        "7"
    } else if d == 8 {
        "8"
    } else {
        "9"
    };
    proof {
        reveal_strlit("0");
        reveal_strlit("1");
        reveal_strlit("2");
        reveal_strlit("3");
        reveal_strlit("4");
        reveal_strlit("5");
        reveal_strlit("6");
        reveal_strlit("7");
        reveal_strlit("8");
        reveal_strlit("9");
        assert(r@ =~= seq![digit_char(d as nat)]);
    }
    r
}

/// The decimal text of `n`.
pub fn decimal_text(n: u8) -> (r: String)
    ensures
        r@ == decimal_chars(n as nat),
{
    let mut r = String::new();
    if n >= 100 {
        r.append(digit_text(n / 100));
    }
    if n >= 10 {
        r.append(digit_text((n / 10) % 10));
    }
    r.append(digit_text(n % 10));
    proof {
        let m = n as nat;
        if m >= 10 {
            if m >= 100 {
                assert(decimal_chars(m / 100) =~= seq![digit_char(m / 100)]);
                assert((m / 10) / 10 == m / 100);
                assert((m / 10) % 10 == (n / 10) % 10);
            }
            assert(decimal_chars(m / 10) =~= if m >= 100 {
                seq![digit_char(m / 100), digit_char((m / 10) % 10)]
            } else {
                seq![digit_char(m / 10)]
            });
        }
        assert(r@ =~= decimal_chars(m));
    }
    r
}

/// Where the trimmed text of `s` starts and ends, in characters.
pub fn trimmed_bounds(s: &str) -> (r: (usize, usize))
    ensures
        r.0 <= r.1 <= s@.len(),
        r.0 == s@.len() - trim_start(s@).len(),
        r.1 == r.0 + trimmed(s@).len(),
        s@.subrange(r.0 as int, r.1 as int) == trimmed(s@),
{
    let n = s.unicode_len();
    let mut i: usize = 0;
    assert(s@.subrange(0, n as int) =~= s@);
    while i < n && is_space_char(s.get_char(i))
        invariant
            n == s@.len(),
            i <= n,
            trim_start(s@) == trim_start(s@.subrange(i as int, n as int)),
        decreases n - i,
    {
        assert(s@.subrange(i as int, n as int).drop_first() =~= s@.subrange(i + 1, n as int));
        i = i + 1;
    }
    assert(trim_start(s@) == s@.subrange(i as int, n as int));
    let mut j: usize = n;
    while j > i && is_space_char(s.get_char(j - 1))
        invariant
            n == s@.len(),
            i <= j <= n,
            trimmed(s@) == trim_end(s@.subrange(i as int, j as int)),
        decreases j - i,
    {
        assert(s@.subrange(i as int, j as int).drop_last() =~= s@.subrange(i as int, j - 1));
        j = j - 1;
    }
    (i, j)
}

fn is_space_char(c: char) -> (r: bool)
    ensures
        r == is_space(c),
{
    c == ' ' || ('\t' <= c && c <= '\r') || c == '\u{85}' || c == '\u{a0}' || c == '\u{1680}'
        || ('\u{2000}' <= c && c <= '\u{200a}') || c == '\u{2028}' || c == '\u{2029}'
        || c == '\u{202f}' || c == '\u{205f}' || c == '\u{3000}'
}

/// The value of the number that `s` holds between surrounding whitespace,
/// where it is a non-empty string of decimal digits, after at most one `+`,
/// that fits in a `u8`.
pub fn parse_u8(s: &str) -> (r: Option<u8>)
    ensures
        r is Some <==> (decimal_in(s@) is Some && decimal_in(s@).unwrap() <= 255),
        r is Some ==> r.unwrap() == decimal_in(s@).unwrap(),
{
    let (start, end) = trimmed_bounds(s);
    let ghost t = trimmed(s@);
    let mut first: usize = start;
    if start < end && s.get_char(start) == '+' {
        first = start + 1;
    }
    let ghost dg = unsigned_digits(t);
    assert(dg =~= s@.subrange(first as int, end as int));
    if first == end {
        assert(dg.len() == 0);
        return None;
    }
    let mut acc: u32 = 0;
    let mut k: usize = first;
    while k < end
        invariant
            first <= k <= end <= s@.len(),
            dg == s@.subrange(first as int, end as int),
            dg == unsigned_digits(trimmed(s@)),
            all_digits(dg.subrange(0, k - first)),
            acc == value_of(dg.subrange(0, k - first)),
            acc <= 255,
        decreases end - k,
    {
        let c = s.get_char(k);
        assert(c == dg[k - first]);
        if !('0' <= c && c <= '9') {
            assert(!is_digit(dg[k - first]));
            return None;
        }
        let d = (c as u32) - ('0' as u32);
        let next = acc * 10 + d;
        assert(d == digit_value(c));
        let ghost p = dg.subrange(0, k + 1 - first);
        assert(p.drop_last() =~= dg.subrange(0, k - first));
        assert(all_digits(p)) by {
            assert forall|i: int| 0 <= i < p.len() implies is_digit(#[trigger] p[i]) by {
                if i < p.len() - 1 {
                    assert(p[i] == dg.subrange(0, k - first)[i]);
                }
            }
        }
        assert(p.last() == c);
        assert(value_of(p) == value_of(p.drop_last()) * 10 + digit_value(c));
        if next > 255 {
            proof {
                if all_digits(dg) {
                    lemma_value_of_prefix(dg, k + 1 - first);
                    assert(value_of(dg) > 255);
                }
            }
            return None;
        }
        acc = next;
        k = k + 1;
    }
    assert(dg.subrange(0, end - first) =~= dg);
    Some(acc as u8)
}

} // verus!
