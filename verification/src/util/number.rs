use vstd::prelude::*;

use crate::util::chars::{chars_of, is_whitespace, spec_trim, spec_trim_end, spec_trim_start, string_of};

verus! {

/// The decimal digit character for `d` (`0 <= d < 10`).
pub open spec fn digit_char(d: int) -> char {
    (d + 48) as char
}

/// Whether `c` is an ASCII decimal digit.
pub open spec fn is_digit(c: char) -> bool {
    '0' <= c && c <= '9'
}

/// The value of the digit character `c`.
pub open spec fn digit_value(c: char) -> int {
    c as int - 48
}

/// The shortest decimal digits of `n`.
pub open spec fn spec_digits(n: nat) -> Seq<char>
    decreases n,
{
    if n < 10 {
        seq![digit_char(n as int)]
    } else {
        spec_digits(n / 10).push(digit_char((n % 10) as int))
    }
}

/// The decimal text of `n`, with a leading '-' for negative values.
pub open spec fn spec_decimal(n: int) -> Seq<char> {
    if n < 0 {
        seq!['-'] + spec_digits((-n) as nat)
    } else {
        spec_digits(n as nat)
    }
}

/// Whether every character of `s` is a decimal digit.
pub open spec fn all_digits(s: Seq<char>) -> bool {
    forall|i: int| 0 <= i < s.len() ==> is_digit(#[trigger] s[i])
}

/// The number that the digits `s` denote.
pub open spec fn digits_value(s: Seq<char>) -> nat
    decreases s.len(),
{
    if s.len() == 0 {
        0
    } else {
        (digits_value(s.drop_last()) * 10 + digit_value(s.last())) as nat
    }
}

/// What `str::parse` gives for a signed integer, before the range check:
/// an optional '+' or '-' followed by at least one digit.
pub open spec fn spec_parse_signed(s: Seq<char>) -> Option<int> {
    if s.len() > 0 && (s[0] == '+' || s[0] == '-') {
        let rest = s.drop_first();
        if rest.len() > 0 && all_digits(rest) {
            Some(if s[0] == '-' { -digits_value(rest) } else { digits_value(rest) as int })
        } else {
            None
        }
    } else if s.len() > 0 && all_digits(s) {
        Some(digits_value(s) as int)
    } else {
        None
    }
}

/// What `str::parse` gives for an unsigned integer, before the range check:
/// an optional '+' followed by at least one digit.
pub open spec fn spec_parse_unsigned(s: Seq<char>) -> Option<nat> {
    if s.len() > 0 && s[0] == '+' {
        let rest = s.drop_first();
        if rest.len() > 0 && all_digits(rest) {
            Some(digits_value(rest))
        } else {
            None
        }
    } else if s.len() > 0 && all_digits(s) {
        Some(digits_value(s))
    } else {
        None
    }
}

/// `str::parse::<i32>`: the value when the text is a decimal in range.
pub open spec fn spec_parse_i32(s: Seq<char>) -> Option<i32> {
    match spec_parse_signed(s) {
        Some(v) => if i32::MIN <= v <= i32::MAX { Some(v as i32) } else { None },
        None => None,
    }
}

/// `str::parse::<u16>`: the value when the text is a decimal in range.
pub open spec fn spec_parse_u16(s: Seq<char>) -> Option<u16> {
    match spec_parse_unsigned(s) {
        Some(v) => if v <= u16::MAX { Some(v as u16) } else { None },
        None => None,
    }
}

proof fn lemma_digits_value_mono(s: Seq<char>, j: int)
    requires
        0 <= j <= s.len(),
        all_digits(s),
    ensures
        digits_value(s.take(j)) <= digits_value(s),
    decreases s.len(),
{
    if j < s.len() {
        assert(s.drop_last().take(j) == s.take(j));
        assert forall|i: int| 0 <= i < s.drop_last().len() implies is_digit(#[trigger] s.drop_last()[i]) by {
            assert(is_digit(s[i]));
        }
        lemma_digits_value_mono(s.drop_last(), j);
        assert(is_digit(s[s.len() - 1]));
    } else {
        assert(s.take(j) == s);
    }
}

/// Reads the digits `cs[start..]` as a number no larger than `limit`.
fn parse_digits(cs: &Vec<char>, start: usize, limit: u64) -> (r: Option<u64>)
    requires
        start <= cs.len(),
        limit <= u32::MAX,
    ensures
        ({
            let rest = cs@.skip(start as int);
            match r {
                Some(v) => all_digits(rest) && v == digits_value(rest) && v <= limit,
                None => !all_digits(rest) || digits_value(rest) > limit,
            }
        }),
{
    let ghost rest = cs@.skip(start as int);
    let mut acc: u64 = 0;
    let mut i: usize = start;
    while i < cs.len()
        invariant
            start <= i <= cs.len(),
            rest == cs@.skip(start as int),
            limit <= u32::MAX,
            acc <= limit,
            all_digits(rest.take(i - start)),
            acc == digits_value(rest.take(i - start)),
        decreases cs.len() - i,
    {
        let c = cs[i];
        assert(rest.take(i - start + 1).drop_last() == rest.take(i - start));
        assert(rest.take(i - start + 1).last() == c);
        if !('0' <= c && c <= '9') {
            assert(!is_digit(rest[i - start]));
            return None;
        }
        let d = (c as u32 - 48) as u64;
        let next = acc * 10 + d;
        assert forall|k: int| 0 <= k < rest.take(i - start + 1).len() implies is_digit(
            #[trigger] rest.take(i - start + 1)[k],
        ) by {
            if k < i - start {
                assert(rest.take(i - start + 1)[k] == rest.take(i - start)[k]);
            }
        }
        if next > limit {
            proof {
                if all_digits(rest) {
                    lemma_digits_value_mono(rest, i - start + 1);
                }
            }
            return None;
        }
        acc = next;
        i = i + 1;
    }
    assert(rest.take(i - start) == rest);
    Some(acc)
}

/// `str::parse::<i32>` of the text `s`.
pub fn parse_i32(s: &str) -> (r: Option<i32>)
    ensures
        r == spec_parse_i32(s@),
{
    let cs = chars_of(s);
    if cs.len() == 0 {
        return None;
    }
    let c0 = cs[0];
    if c0 == '+' || c0 == '-' {
        assert(cs@.skip(1) == s@.drop_first());
        if cs.len() == 1 {
            return None;
        }
        match parse_digits(&cs, 1, 2147483648) {
            Some(v) => {
                if c0 == '-' {
                    Some((0 - (v as i64)) as i32)
                } else if v <= 2147483647 {
                    Some(v as i32)
                } else {
                    None
                }
            },
            None => None,
        }
    } else {
        assert(cs@.skip(0) == s@);
        match parse_digits(&cs, 0, 2147483647) {
            Some(v) => Some(v as i32),
            None => None,
        }
    }
}

/// `str::parse::<u16>` of the text `s`.
pub fn parse_u16(s: &str) -> (r: Option<u16>)
    ensures
        r == spec_parse_u16(s@),
{
    let cs = chars_of(s);
    if cs.len() == 0 {
        return None;
    }
    let start: usize = if cs[0] == '+' { 1 } else { 0 };
    assert(cs@.skip(1) == s@.drop_first());
    assert(cs@.skip(0) == s@);
    if start == 1 && cs.len() == 1 {
        return None;
    }
    match parse_digits(&cs, start, 65535) {
        Some(v) => Some(v as u16),
        None => None,
    }
}

fn push_digits(out: &mut Vec<char>, n: u64)
    ensures
        final(out)@ == old(out)@ + spec_digits(n as nat),
    decreases n,
{
    if n >= 10 {
        push_digits(out, n / 10);
    }
    let d: u8 = (n % 10) as u8;
    out.push((d + 48) as char);
}

/// The decimal text of `n`, as `i32::to_string` writes it.
pub fn i32_to_decimal(n: i32) -> (r: String)
    ensures
        r@ == spec_decimal(n as int),
{
    let mut out: Vec<char> = Vec::new();
    if n < 0 {
        out.push('-');
        let m: u64 = (0 - (n as i64)) as u64;
        push_digits(&mut out, m);
    } else {
        push_digits(&mut out, n as u64);
    }
    string_of(&out)
}

/// The decimal text of `n`, as `u64::to_string` writes it.
pub fn u64_to_decimal(n: u64) -> (r: String)
    ensures
        r@ == spec_decimal(n as int),
{
    let mut out: Vec<char> = Vec::new();
    push_digits(&mut out, n);
    string_of(&out)
}

/// The decimal text of `n`, as `u16::to_string` writes it.
pub fn u16_to_decimal(n: u16) -> (r: String)
    ensures
        r@ == spec_decimal(n as int),
{
    let mut out: Vec<char> = Vec::new();
    push_digits(&mut out, n as u64);
    string_of(&out)
}

pub(crate) proof fn lemma_digits_parse(n: nat)
    ensures
        spec_digits(n).len() > 0,
        all_digits(spec_digits(n)),
        digits_value(spec_digits(n)) == n,
    decreases n,
{
    if n >= 10 {
        lemma_digits_parse(n / 10);
        let s = spec_digits(n);
        assert(s.drop_last() == spec_digits(n / 10));
        assert(s.last() == digit_char((n % 10) as int));
        assert(digit_value(digit_char((n % 10) as int)) == n % 10);
        assert(n == (n / 10) * 10 + n % 10);
        assert forall|i: int| 0 <= i < s.len() implies is_digit(#[trigger] s[i]) by {
            if i < s.len() - 1 {
                assert(s[i] == spec_digits(n / 10)[i]);
            }
        }
    } else {
        let s = spec_digits(n);
        assert(s.drop_last() =~= Seq::<char>::empty());
        assert(digits_value(s.drop_last()) == 0);
        assert(digit_value(digit_char(n as int)) == n);
    }
}

/// Reading back the decimal text of any `i32` gives the same value.
pub proof fn lemma_i32_decimal_roundtrip(n: i32)
    ensures
        spec_parse_i32(spec_decimal(n as int)) == Some(n),
{
    if n < 0 {
        let m = (-n) as nat;
        lemma_digits_parse(m);
        let s = spec_decimal(n as int);
        assert(s.drop_first() == spec_digits(m));
        assert(s[0] == '-');
    } else {
        lemma_digits_parse(n as nat);
        let s = spec_digits(n as nat);
        assert(is_digit(s[0]));
    }
}

/// Reading back the decimal text of any `u16` gives the same value.
pub proof fn lemma_u16_decimal_roundtrip(n: u16)
    ensures
        spec_parse_u16(spec_decimal(n as int)) == Some(n),
{
    lemma_digits_parse(n as nat);
    let s = spec_digits(n as nat);
    assert(is_digit(s[0]));
}

/// Decimal text has no surrounding whitespace: trimming it changes nothing.
pub proof fn lemma_decimal_trimmed(n: int)
    ensures
        spec_trim(spec_decimal(n)) == spec_decimal(n),
{
    let m: nat = if n < 0 { (-n) as nat } else { n as nat };
    lemma_digits_parse(m);
    let d = spec_digits(m);
    let s = spec_decimal(n);
    assert(is_digit(d[0]) && is_digit(d[d.len() - 1]));
    if n < 0 {
        assert(s[0] == '-');
        assert(s.last() == d[d.len() - 1]);
    } else {
        assert(s == d);
    }
    assert(!is_whitespace(s[0]));
    assert(spec_trim_start(s) == s);
    assert(!is_whitespace(s.last()));
    assert(spec_trim_end(s) == s);
}

} // verus!
