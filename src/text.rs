//! Character and string helpers used by the configuration logic.

use vstd::prelude::*;
use vstd::string::*;

verus! {

/// The application name: the base of directory names and of the
/// environment-variable prefix.
pub const APP_NAME: &'static str = "rust-workspace";

/// Whether `c` is an ASCII letter or digit.
pub open spec fn is_alnum(c: char) -> bool {
    ('a' <= c && c <= 'z') || ('A' <= c && c <= 'Z') || ('0' <= c && c <= '9')
}

/// The ASCII upper-case form of `c`; other characters are unchanged.
pub open spec fn upper(c: char) -> char {
    if 'a' <= c && c <= 'z' {
        ((c as u8) - 32) as u8 as char
    } else {
        c
    }
}

/// The environment-variable form of a name: ASCII letters upper-cased,
/// digits kept, every other character replaced by `_`.
pub open spec fn prefix_of(name: Seq<char>) -> Seq<char> {
    name.map_values(|c: char| if is_alnum(c) { upper(c) } else { '_' })
}

/// Relies on `String::push`: appends one character at the end.
#[verifier::external_body]
pub(crate) fn push_char(s: &mut String, c: char)
    ensures
        final(s)@ == old(s)@.push(c),
{
    s.push(c)
}

pub(crate) fn upper_char(c: char) -> (r: char)
    ensures
        r == upper(c),
{
    if 'a' <= c && c <= 'z' {
        ((c as u8) - 32) as char
    } else {
        c
    }
}

/// The prefix of every environment variable read for the application.
pub fn env_prefix() -> (r: String)
    ensures
        r@ == prefix_of(APP_NAME@),
{
    let name = APP_NAME;
    let n = name.unicode_len();
    let mut out = String::new();
    let mut i: usize = 0;
    while i < n
        invariant
            n == name@.len(),
            i <= n,
            out@ == prefix_of(name@.subrange(0, i as int)),
        decreases n - i,
    {
        let c = name.get_char(i);
        if ('a' <= c && c <= 'z') || ('A' <= c && c <= 'Z') || ('0' <= c && c <= '9') {
            push_char(&mut out, upper_char(c));
        } else {
            push_char(&mut out, '_');
        }
        assert(name@.subrange(0, i + 1) == name@.subrange(0, i as int).push(c));
        i = i + 1;
    }
    assert(name@.subrange(0, n as int) == name@);
    out
}


/// Whether `c` is an ASCII decimal digit.
pub open spec fn is_digit(c: char) -> bool {
    '0' <= c && c <= '9'
}

/// The value of a decimal digit.
pub open spec fn digit_value(c: char) -> int {
    (c as u32) - ('0' as u32)
}

/// The number that a string of decimal digits denotes.
pub open spec fn decimal_value(s: Seq<char>) -> int
    decreases s.len(),
{
    if s.len() == 0 {
        0
    } else {
        10 * decimal_value(s.drop_last()) + digit_value(s.last())
    }
}

/// Whether `s` is a non-empty run of decimal digits.
pub open spec fn is_decimal(s: Seq<char>) -> bool {
    s.len() > 0 && forall|i: int| 0 <= i < s.len() ==> #[trigger] is_digit(s[i])
}

/// The positive integer at most `max` that `s` writes in decimal, if any.
pub open spec fn positive_decimal(s: Seq<char>, max: u64) -> Option<u64> {
    if is_decimal(s) && 0 < decimal_value(s) <= max {
        Some(decimal_value(s) as u64)
    } else {
        None
    }
}

proof fn lemma_decimal_nonneg(s: Seq<char>)
    requires
        forall|i: int| 0 <= i < s.len() ==> #[trigger] is_digit(s[i]),
    ensures
        decimal_value(s) >= 0,
    decreases s.len(),
{
    if s.len() > 0 {
        let t = s.drop_last();
        assert forall|i: int| 0 <= i < t.len() implies #[trigger] is_digit(t[i]) by {
            assert(is_digit(s[i]));
        }
        assert(is_digit(s[s.len() - 1]));
        lemma_decimal_nonneg(t);
    }
}

/// Reads a positive decimal integer no greater than `max`.
pub fn parse_positive(s: &str, max: u64) -> (r: Option<u64>)
    ensures
        r == positive_decimal(s@, max),
{
    let n = s.unicode_len();
    if n == 0 {
        return None;
    }
    let mut acc: u64 = 0;
    let mut too_big = false;
    let mut i: usize = 0;
    while i < n
        invariant
            n == s@.len(),
            i <= n,
            forall|j: int| 0 <= j < i ==> #[trigger] is_digit(s@[j]),
            !too_big ==> acc == decimal_value(s@.subrange(0, i as int)),
            !too_big ==> acc <= max,
            too_big ==> decimal_value(s@.subrange(0, i as int)) > max,
        decreases n - i,
    {
        let c = s.get_char(i);
        if !('0' <= c && c <= '9') {
            assert(!is_digit(s@[i as int]));
            assert(!is_decimal(s@));
            return None;
        }
        let ghost prev = s@.subrange(0, i as int);
        let ghost next = s@.subrange(0, i + 1);
        assert(next.drop_last() == prev);
        assert(next.last() == c);
        proof {
            lemma_decimal_nonneg(prev);
        }
        let d = (c as u32 - '0' as u32) as u64;
        assert(d as int == digit_value(c));
        if !too_big {
            if d > max || acc > (max - d) / 10 {
                assert(10 * acc + d > max) by (nonlinear_arith)
                    requires d > max || acc > (max - d) / 10, d <= max ==> max - d >= 0;
                too_big = true;
            } else {
                assert(10 * acc + d <= max) by (nonlinear_arith)
                    requires acc <= (max - d) / 10, d <= 9;
                acc = 10 * acc + d;
            }
        } else {
            assert(10 * decimal_value(prev) + digit_value(c) > max) by (nonlinear_arith)
                requires decimal_value(prev) > max, digit_value(c) >= 0;
        }
        i = i + 1;
    }
    assert(s@.subrange(0, n as int) == s@);
    if too_big || acc == 0 {
        None
    } else {
        Some(acc)
    }
}

/// Whether two strings hold the same characters.
pub fn str_eq(a: &str, b: &str) -> (r: bool)
    ensures
        r == (a@ == b@),
{
    let n = a.unicode_len();
    if n != b.unicode_len() {
        return false;
    }
    let mut i: usize = 0;
    while i < n
        invariant
            n == a@.len(),
            n == b@.len(),
            i <= n,
            forall|j: int| 0 <= j < i ==> a@[j] == b@[j],
        decreases n - i,
    {
        if a.get_char(i) != b.get_char(i) {
            return false;
        }
        i = i + 1;
    }
    assert(a@ == b@);
    true
}

/// Appends the characters of `t` to `s`.
pub(crate) fn push_str(s: &mut String, t: &str)
    ensures
        final(s)@ == old(s)@ + t@,
{
    s.append(t);
}

} // verus!
