use vstd::prelude::*;

use crate::error::ConfigError;

verus! {

/// The smallest duration, in milliseconds, that a duration string yields.
pub const MIN_DURATION_MS: u64 = 10;

/// Unicode white space, the characters that surrounding trimming removes.
pub open spec fn is_space(c: char) -> bool {
    let u = c as u32;
    (0x9 <= u && u <= 0xd) || u == 0x20 || u == 0x85 || u == 0xa0 || u == 0x1680 || (0x2000 <= u
        && u <= 0x200a) || u == 0x2028 || u == 0x2029 || u == 0x202f || u == 0x205f || u == 0x3000
}

/// An ASCII decimal digit.
pub open spec fn is_digit(c: char) -> bool {
    '0' <= c && c <= '9'
}

/// An ASCII letter.
pub open spec fn is_letter(c: char) -> bool {
    ('a' <= c && c <= 'z') || ('A' <= c && c <= 'Z')
}

/// The first index at or after `i` that holds no white space.
pub open spec fn skip_space(s: Seq<char>, i: int) -> int
    decreases s.len() - i,
{
    if 0 <= i < s.len() && is_space(s[i]) {
        skip_space(s, i + 1)
    } else {
        i
    }
}

/// The end of `s[lo..j]` once trailing white space is dropped.
pub open spec fn skip_space_back(s: Seq<char>, lo: int, j: int) -> int
    decreases j - lo,
{
    if lo < j <= s.len() && is_space(s[j - 1]) {
        skip_space_back(s, lo, j - 1)
    } else {
        j
    }
}

/// Where the text of `s` starts once leading white space is dropped.
pub open spec fn trim_lo(s: Seq<char>) -> int {
    skip_space(s, 0)
}

/// Where the text of `s` ends once trailing white space is dropped.
pub open spec fn trim_hi(s: Seq<char>) -> int {
    skip_space_back(s, trim_lo(s), s.len() as int)
}

/// The end of the run of digits that starts at `i`, not past `hi`.
pub open spec fn digits_end(s: Seq<char>, i: int, hi: int) -> int
    decreases hi - i,
{
    if 0 <= i < hi && hi <= s.len() && is_digit(s[i]) {
        digits_end(s, i + 1, hi)
    } else {
        i
    }
}

/// The number that the digits `s[lo..e]` write in base ten.
pub open spec fn digits_value(s: Seq<char>, lo: int, e: int) -> nat
    decreases e - lo,
{
    if lo < e {
        digits_value(s, lo, e - 1) * 10 + (s[e - 1] as nat - '0' as nat) as nat
    } else {
        0
    }
}

/// Every character of `s[from..to]` is an ASCII letter.
pub open spec fn all_letters(s: Seq<char>, from: int, to: int) -> bool {
    forall|i: int| from <= i < to ==> is_letter(#[trigger] s[i])
}

/// `c` is the letter `lower` in either case.
pub open spec fn is_letter_ci(c: char, lower: char, upper: char) -> bool {
    c == lower || c == upper
}

/// The number of milliseconds in one unit named by `s[from..to]`, in either case;
/// no unit at all stands for seconds.
pub open spec fn unit_factor(s: Seq<char>, from: int, to: int) -> Option<nat> {
    if to - from == 0 {
        Some(1000)
    } else if to - from == 1 {
        if is_letter_ci(s[from], 's', 'S') {
            Some(1000)
        } else if is_letter_ci(s[from], 'm', 'M') {
            Some(60_000)
        } else if is_letter_ci(s[from], 'h', 'H') {
            Some(3_600_000)
        } else if is_letter_ci(s[from], 'd', 'D') {
            Some(86_400_000)
        } else {
            None
        }
    } else if to - from == 2 && is_letter_ci(s[from], 'm', 'M') && is_letter_ci(
        s[from + 1],
        's',
        'S',
    ) {
        Some(1)
    } else {
        None
    }
}

/// A number of milliseconds as a duration: raised to the minimum, and refused
/// where it does not fit in 64 bits.
pub open spec fn clamp_ms(ms: nat) -> Result<u64, ConfigError> {
    if ms > u64::MAX {
        Err(ConfigError::Overflow)
    } else if ms < MIN_DURATION_MS {
        Ok(MIN_DURATION_MS)
    } else {
        Ok(ms as u64)
    }
}

/// The text, after trimming, is digits followed by letters.
pub open spec fn is_number_with_unit(s: Seq<char>) -> bool {
    let lo = trim_lo(s);
    let hi = trim_hi(s);
    let e = digits_end(s, lo, hi);
    lo < e && all_letters(s, e, hi)
}

/// The whole string is a plus sign followed by digits.
pub open spec fn is_signed_number(s: Seq<char>) -> bool {
    s.len() >= 2 && s[0] == '+' && digits_end(s, 1, s.len() as int) == s.len()
}

/// What a duration string means, in milliseconds.
///
/// After trimming white space, the text is a number and an optional unit
/// (ms, s, m, h or d, in either case; seconds when absent). Failing that, the
/// untrimmed text may still be a plus sign and a number of seconds.
pub open spec fn duration_result(s: Seq<char>) -> Result<u64, ConfigError> {
    let lo = trim_lo(s);
    let hi = trim_hi(s);
    let e = digits_end(s, lo, hi);
    if is_number_with_unit(s) {
        let n = digits_value(s, lo, e);
        if n > u64::MAX {
            Err(ConfigError::InvalidNumber)
        } else {
            match unit_factor(s, e, hi) {
                Some(f) => clamp_ms(n * f),
                None => Err(ConfigError::UnknownUnit),
            }
        }
    } else if is_signed_number(s) {
        let n = digits_value(s, 1, s.len() as int);
        if n > u64::MAX {
            Err(ConfigError::InvalidFormat)
        } else {
            clamp_ms(n * 1000)
        }
    } else {
        Err(ConfigError::InvalidFormat)
    }
}

/// Unicode white space.
pub(crate) fn char_is_space(c: char) -> (r: bool)
    ensures
        r == is_space(c),
{
    let u = c as u32;
    (0x9 <= u && u <= 0xd) || u == 0x20 || u == 0x85 || u == 0xa0 || u == 0x1680 || (0x2000 <= u
        && u <= 0x200a) || u == 0x2028 || u == 0x2029 || u == 0x202f || u == 0x205f || u == 0x3000
}

fn char_is_letter(c: char) -> (r: bool)
    ensures
        r == is_letter(c),
{
    ('a' <= c && c <= 'z') || ('A' <= c && c <= 'Z')
}

proof fn lemma_digits_value_monotone(s: Seq<char>, lo: int, p: int, e: int)
    requires
        lo <= p <= e,
        forall|i: int| lo <= i < e ==> is_digit(#[trigger] s[i]),
    ensures
        digits_value(s, lo, p) <= digits_value(s, lo, e),
    decreases e - p,
{
    if p < e {
        lemma_digits_value_monotone(s, lo, p, e - 1);
        assert(is_digit(s[e - 1]));
    }
}

/// The value of the digits `s[lo..e]`, or `None` where it does not fit in 64 bits.
fn parse_digits(s: &str, lo: usize, e: usize) -> (r: Option<u64>)
    requires
        lo <= e <= s@.len(),
        forall|i: int| lo <= i < e ==> is_digit(#[trigger] s@[i]),
    ensures
        r == (if digits_value(s@, lo as int, e as int) <= u64::MAX {
            Some(digits_value(s@, lo as int, e as int) as u64)
        } else {
            None
        }),
{
    let mut v: u64 = 0;
    let mut p: usize = lo;
    while p < e
        invariant
            lo <= p <= e <= s@.len(),
            forall|i: int| lo <= i < e ==> is_digit(#[trigger] s@[i]),
            v as nat == digits_value(s@, lo as int, p as int),
        decreases e - p,
    {
        let c = s.get_char(p);
        assert(is_digit(s@[p as int]));
        let d = (c as u32 - '0' as u32) as u64;
        assert(digits_value(s@, lo as int, (p + 1) as int) == v * 10 + d);
        if v > (u64::MAX - d) / 10 {
            proof {
                lemma_digits_value_monotone(s@, lo as int, (p + 1) as int, e as int);
            }
            return None;
        }
        v = v * 10 + d;
        p = p + 1;
    }
    Some(v)
}

/// Multiplies a count of units by the unit's size and applies the minimum.
fn scale(n: u64, factor: u64) -> (r: Result<u64, ConfigError>)
    ensures
        r == clamp_ms(n as nat * factor as nat),
{
    match n.checked_mul(factor) {
        Some(ms) => {
            if ms < MIN_DURATION_MS {
                Ok(MIN_DURATION_MS)
            } else {
                Ok(ms)
            }
        },
        None => Err(ConfigError::Overflow),
    }
}

/// Parses a duration such as `"200ms"`, `"10s"`, `"5m"`, `"1h"`, `"1d"` or `"5"`
/// (seconds) into milliseconds, never less than ten.
pub fn parse_duration_to_ms(duration_str: &str) -> (r: Result<u64, ConfigError>)
    ensures
        r == duration_result(duration_str@),
{
    let ghost s = duration_str@;
    let n = duration_str.unicode_len();

    // leading white space
    let mut lo: usize = 0;
    while lo < n && char_is_space(duration_str.get_char(lo))
        invariant
            s == duration_str@,
            n == s.len(),
            lo <= n,
            skip_space(s, lo as int) == trim_lo(s),
        decreases n - lo,
    {
        lo = lo + 1;
    }

    // trailing white space
    let mut hi: usize = n;
    while hi > lo && char_is_space(duration_str.get_char(hi - 1))
        invariant
            s == duration_str@,
            n == s.len(),
            lo == trim_lo(s),
            lo <= hi <= n,
            skip_space_back(s, lo as int, hi as int) == trim_hi(s),
        decreases hi - lo,
    {
        hi = hi - 1;
    }

    // the number
    let mut e: usize = lo;
    while e < hi && '0' <= duration_str.get_char(e) && duration_str.get_char(e) <= '9'
        invariant
            s == duration_str@,
            n == s.len(),
            lo <= e <= hi <= n,
            digits_end(s, e as int, hi as int) == digits_end(s, lo as int, hi as int),
            forall|i: int| lo <= i < e ==> is_digit(#[trigger] s[i]),
        decreases hi - e,
    {
        e = e + 1;
    }

    // the unit
    let mut u: usize = e;
    while u < hi && char_is_letter(duration_str.get_char(u))
        invariant
            s == duration_str@,
            n == s.len(),
            e <= u <= hi <= n,
            all_letters(s, e as int, u as int),
        decreases hi - u,
    {
        u = u + 1;
    }

    if lo < e && u == hi {
        let value = match parse_digits(duration_str, lo, e) {
            Some(v) => v,
            None => {
                return Err(ConfigError::InvalidNumber);
            },
        };
        let factor: u64 = if hi - e == 0 {
            1000
        } else if hi - e == 1 {
            let c = duration_str.get_char(e);
            if c == 's' || c == 'S' {
                1000
            } else if c == 'm' || c == 'M' {
                60_000
            } else if c == 'h' || c == 'H' {
                3_600_000
            } else if c == 'd' || c == 'D' {
                86_400_000
            } else {
                return Err(ConfigError::UnknownUnit);
            }
        } else if hi - e == 2 {
            let c0 = duration_str.get_char(e);
            let c1 = duration_str.get_char(e + 1);
            if (c0 == 'm' || c0 == 'M') && (c1 == 's' || c1 == 'S') {
                1
            } else {
                return Err(ConfigError::UnknownUnit);
            }
        } else {
            return Err(ConfigError::UnknownUnit);
        };
        scale(value, factor)
    } else {
        proof {
            if lo < e {
                assert(!all_letters(s, e as int, hi as int)) by {
                    assert(!is_letter(s[u as int]));
                }
            }
        }
        // a plus sign and a number of seconds
        if n < 2 || duration_str.get_char(0) != '+' {
            return Err(ConfigError::InvalidFormat);
        }
        let mut p: usize = 1;
        while p < n && '0' <= duration_str.get_char(p) && duration_str.get_char(p) <= '9'
            invariant
                s == duration_str@,
                n == s.len(),
                1 <= p <= n,
                digits_end(s, p as int, n as int) == digits_end(s, 1, n as int),
                forall|i: int| 1 <= i < p ==> is_digit(#[trigger] s[i]),
            decreases n - p,
        {
            p = p + 1;
        }
        if p < n {
            return Err(ConfigError::InvalidFormat);
        }
        match parse_digits(duration_str, 1, n) {
            Some(v) => scale(v, 1000),
            None => Err(ConfigError::InvalidFormat),
        }
    }
}


/// The digits `d` followed by the letters `u`: the run of digits ends where the
/// letters begin, and no white space is trimmed.
proof fn lemma_digits_then_letters(d: Seq<char>, u: Seq<char>)
    requires
        d.len() > 0,
        forall|i: int| 0 <= i < d.len() ==> is_digit(#[trigger] d[i]),
        forall|i: int| 0 <= i < u.len() ==> is_letter(#[trigger] u[i]),
    ensures
        trim_lo(d + u) == 0,
        trim_hi(d + u) == (d + u).len(),
        digits_end(d + u, 0, (d + u).len() as int) == d.len(),
        all_letters(d + u, d.len() as int, (d + u).len() as int),
        digits_value(d + u, 0, d.len() as int) == digits_value(d, 0, d.len() as int),
        unit_factor(d + u, d.len() as int, (d + u).len() as int) == unit_factor(
            u,
            0,
            u.len() as int,
        ),
{
    let s = d + u;
    assert(s[0] == d[0]);
    assert(is_digit(d[0]));
    assert(!is_space(s[0]));
    let n = s.len() as int;
    if u.len() > 0 {
        assert(s[n - 1] == u[u.len() - 1]);
        assert(is_letter(u[u.len() - 1]));
    } else {
        assert(s[n - 1] == d[d.len() - 1]);
        assert(is_digit(d[d.len() - 1]));
    }
    assert(!is_space(s[n - 1]));
    lemma_digits_end_at(d, u, 0);
    lemma_digits_value_prefix(d, u, d.len() as int);
    assert forall|i: int| d.len() <= i < n implies is_letter(#[trigger] s[i]) by {
        assert(s[i] == u[i - d.len()]);
    }
    if u.len() > 0 {
        assert(s[d.len() as int] == u[0]);
    }
    if u.len() > 1 {
        assert(s[d.len() + 1int] == u[1]);
    }
}

proof fn lemma_digits_end_at(d: Seq<char>, u: Seq<char>, i: int)
    requires
        0 <= i <= d.len(),
        forall|k: int| 0 <= k < d.len() ==> is_digit(#[trigger] d[k]),
        forall|k: int| 0 <= k < u.len() ==> is_letter(#[trigger] u[k]),
    ensures
        digits_end(d + u, i, (d + u).len() as int) == d.len(),
    decreases d.len() - i,
{
    let s = d + u;
    if i < d.len() {
        assert(s[i] == d[i]);
        assert(is_digit(d[i]));
        lemma_digits_end_at(d, u, i + 1);
    } else if u.len() > 0 {
        assert(s[i] == u[0]);
        assert(is_letter(u[0]));
    }
}

proof fn lemma_digits_value_prefix(d: Seq<char>, u: Seq<char>, e: int)
    requires
        0 <= e <= d.len(),
    ensures
        digits_value(d + u, 0, e) == digits_value(d, 0, e),
    decreases e,
{
    if e > 0 {
        lemma_digits_value_prefix(d, u, e - 1);
        assert((d + u)[e - 1] == d[e - 1]);
    }
}

/// A number followed by one of the units ms, s, m, h or d, in either case, or by
/// no unit (seconds), means that many units in milliseconds, raised to the
/// minimum; it is refused only where the milliseconds do not fit in 64 bits.
pub proof fn lemma_valid_duration(digits: Seq<char>, unit: Seq<char>)
    requires
        digits.len() > 0,
        forall|i: int| 0 <= i < digits.len() ==> is_digit(#[trigger] digits[i]),
        forall|i: int| 0 <= i < unit.len() ==> is_letter(#[trigger] unit[i]),
        digits_value(digits, 0, digits.len() as int) <= u64::MAX,
        unit_factor(unit, 0, unit.len() as int) is Some,
    ensures
        duration_result(digits + unit) == clamp_ms(
            digits_value(digits, 0, digits.len() as int) * unit_factor(
                unit,
                0,
                unit.len() as int,
            )->0,
        ),
{
    lemma_digits_then_letters(digits, unit);
}

/// A number followed by letters that name no unit is refused.
pub proof fn lemma_unknown_unit(digits: Seq<char>, unit: Seq<char>)
    requires
        digits.len() > 0,
        forall|i: int| 0 <= i < digits.len() ==> is_digit(#[trigger] digits[i]),
        forall|i: int| 0 <= i < unit.len() ==> is_letter(#[trigger] unit[i]),
        digits_value(digits, 0, digits.len() as int) <= u64::MAX,
        unit_factor(unit, 0, unit.len() as int) is None,
    ensures
        duration_result(digits + unit) == Err::<u64, ConfigError>(ConfigError::UnknownUnit),
{
    lemma_digits_then_letters(digits, unit);
}

/// A text whose first character after white space is a minus sign is refused.
pub proof fn lemma_negative_refused(s: Seq<char>)
    requires
        0 <= trim_lo(s) < s.len(),
        s[trim_lo(s)] == '-',
    ensures
        duration_result(s) is Err,
{
    lemma_skip_space_bounds(s, 0);
    assert(!is_digit(s[trim_lo(s)]));
    if trim_lo(s) < trim_hi(s) {
        assert(digits_end(s, trim_lo(s), trim_hi(s)) == trim_lo(s));
    } else {
        assert(digits_end(s, trim_lo(s), trim_hi(s)) == trim_lo(s));
    }
    if trim_lo(s) > 0 {
        assert(is_space(s[0]));
    }
}

/// A text without a single decimal digit is refused.
pub proof fn lemma_non_numeric_refused(s: Seq<char>)
    requires
        forall|i: int| 0 <= i < s.len() ==> !is_digit(#[trigger] s[i]),
    ensures
        duration_result(s) is Err,
{
    lemma_skip_space_bounds(s, 0);
    let lo = trim_lo(s);
    if 0 <= lo < trim_hi(s) && trim_hi(s) <= s.len() {
        assert(!is_digit(s[lo]));
    }
    if s.len() >= 2 {
        assert(!is_digit(s[1]));
        assert(digits_end(s, 1, s.len() as int) == 1);
    }
}

proof fn lemma_skip_space_bounds(s: Seq<char>, i: int)
    requires
        0 <= i <= s.len(),
    ensures
        i <= skip_space(s, i) <= s.len(),
        forall|k: int| i <= k < skip_space(s, i) ==> is_space(#[trigger] s[k]),
    decreases s.len() - i,
{
    if i < s.len() && is_space(s[i]) {
        lemma_skip_space_bounds(s, i + 1);
    }
}

proof fn lemma_skip_space_back_bounds(s: Seq<char>, lo: int, j: int)
    requires
        0 <= lo <= j <= s.len(),
    ensures
        lo <= skip_space_back(s, lo, j) <= j,
    decreases j - lo,
{
    if lo < j && is_space(s[j - 1]) {
        lemma_skip_space_back_bounds(s, lo, j - 1);
    }
}

proof fn lemma_digits_end_bounds(s: Seq<char>, i: int, hi: int)
    requires
        0 <= i <= hi <= s.len(),
    ensures
        i <= digits_end(s, i, hi) <= hi,
        forall|k: int| i <= k < digits_end(s, i, hi) ==> is_digit(#[trigger] s[k]),
    decreases hi - i,
{
    if i < hi && is_digit(s[i]) {
        lemma_digits_end_bounds(s, i + 1, hi);
    }
}

/// Only two shapes of text are accepted as a duration: once trimmed, a digit
/// followed by nothing but ASCII digits and letters, the letters naming a unit;
/// or a plus sign followed by digits alone. So an empty or blank text, a minus
/// sign, a decimal point, inner white space, a letter first or an unknown unit
/// is refused.
pub proof fn lemma_accepted_shape(s: Seq<char>)
    ensures
        duration_result(s) is Ok ==> ((trim_lo(s) < trim_hi(s) && is_digit(s[trim_lo(s)])
            && (forall|i: int|
            trim_lo(s) <= i < trim_hi(s) ==> is_digit(#[trigger] s[i]) || is_letter(s[i]))
            && unit_factor(s, digits_end(s, trim_lo(s), trim_hi(s)), trim_hi(s)) is Some) || (
        s.len() >= 2 && s[0] == '+' && forall|i: int|
            1 <= i < s.len() ==> is_digit(#[trigger] s[i]))),
{
    lemma_skip_space_bounds(s, 0);
    let lo = trim_lo(s);
    lemma_skip_space_back_bounds(s, lo, s.len() as int);
    let hi = trim_hi(s);
    lemma_digits_end_bounds(s, lo, hi);
    if s.len() >= 1 {
        lemma_digits_end_bounds(s, 1, s.len() as int);
    }
}

} // verus!
