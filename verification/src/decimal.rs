//! Integers in decimal: how an identifier is written into an event and read
//! back from one.

use crate::text::chars_of;
use vstd::prelude::*;

verus! {

/// The decimal digit `d` as a character.
pub open spec fn digit_char(d: int) -> char
    recommends
        0 <= d < 10,
{
    (0x30 + d) as char
}

/// Whether `c` is a decimal digit (an ASCII one).
pub open spec fn is_digit(c: char) -> bool {
    '0' <= c && c <= '9'
}

/// `n` in decimal, without leading zeros.
pub open spec fn nat_text(n: nat) -> Seq<char>
    decreases n,
{
    if n < 10 {
        seq![digit_char(n as int)]
    } else {
        nat_text(n / 10).push(digit_char((n % 10) as int))
    }
}

/// `n` in decimal, with a minus sign where it is negative.
pub open spec fn int_text(n: int) -> Seq<char> {
    if n < 0 {
        seq!['-'] + nat_text((-n) as nat)
    } else {
        nat_text(n as nat)
    }
}

/// The number that the digits of `s` stand for.
pub open spec fn digits_value(s: Seq<char>) -> nat
    decreases s.len(),
{
    if s.len() == 0 {
        0
    } else {
        digits_value(s.drop_last()) * 10 + ((s.last() as int - 0x30) as nat)
    }
}

/// Whether `s` is one or more decimal digits.
pub open spec fn all_digits(s: Seq<char>) -> bool {
    s.len() > 0 && forall|i: int| 0 <= i < s.len() ==> is_digit(#[trigger] s[i])
}

/// The integer that `s` spells: an optional sign, then one or more decimal
/// digits, and nothing else.
pub open spec fn int_value(s: Seq<char>) -> Option<int> {
    if s.len() > 0 && s[0] == '-' {
        if all_digits(s.skip(1)) {
            Some(-(digits_value(s.skip(1)) as int))
        } else {
            None
        }
    } else {
        let digits = if s.len() > 0 && s[0] == '+' {
            s.skip(1)
        } else {
            s
        };
        if all_digits(digits) {
            Some(digits_value(digits) as int)
        } else {
            None
        }
    }
}

/// The integer between `lo` and `hi` that `s` spells, if it spells one.
pub open spec fn int_in_range(s: Seq<char>, lo: int, hi: int) -> Option<int> {
    match int_value(s) {
        Some(n) => if lo <= n <= hi {
            Some(n)
        } else {
            None
        },
        None => None,
    }
}

/// Decimal text of a natural number is digits that stand for that number.
proof fn lemma_nat_text(n: nat)
    ensures
        all_digits(nat_text(n)),
        digits_value(nat_text(n)) == n,
    decreases n,
{
    let s = nat_text(n);
    if n < 10 {
        assert(s.drop_last() == Seq::<char>::empty());
        assert(digits_value(s.drop_last()) == 0);
    } else {
        lemma_nat_text(n / 10);
        assert(s.drop_last() == nat_text(n / 10));
    }
}

/// What is written for an integer reads back as that integer.
pub proof fn law_int_text_reads_back(n: int)
    ensures
        int_value(int_text(n)) == Some(n),
{
    if n < 0 {
        lemma_nat_text((-n) as nat);
        assert(int_text(n).skip(1) == nat_text((-n) as nat));
    } else {
        lemma_nat_text(n as nat);
        assert(is_digit(nat_text(n as nat)[0]));
    }
}

/// Digits stand for no less than any prefix of them.
proof fn lemma_digits_value_prefix(s: Seq<char>, n: int)
    requires
        0 <= n <= s.len(),
        forall|i: int| 0 <= i < s.len() ==> is_digit(#[trigger] s[i]),
    ensures
        digits_value(s.take(n)) <= digits_value(s),
    decreases s.len(),
{
    if n < s.len() {
        let rest = s.drop_last();
        assert forall|i: int| 0 <= i < rest.len() implies is_digit(#[trigger] rest[i]) by {
            assert(rest[i] == s[i]);
        }
        lemma_digits_value_prefix(rest, n);
        assert(rest.take(n) == s.take(n));
    } else {
        assert(s.take(n) == s);
    }
}

/// The digit `d` as text.
fn digit_str(d: u64) -> (res: &'static str)
    requires
        d < 10,
    ensures
        res@ == seq![digit_char(d as int)],
{
    proof {
        reveal_strlit("0");
        reveal_strlit("1");
        reveal_strlit("2");
        reveal_strlit("3");
        reveal_strlit("4");
        reveal_strlit("5");
        reveal_strlit("6");
        reveal_strlit("7");
        reveal_strlit("8");
        reveal_strlit("9");
    }
    match d {
        0 => "0",
        1 => "1",
        2 => "2",
        3 => "3",
        4 => "4",
        5 => "5",
        6 => "6",
        7 => "7",
        8 => "8",
        _ => "9",
    }
}

/// Appends `n` in decimal to `out`.
fn append_u64(out: &mut String, n: u64)
    ensures
        final(out)@ == old(out)@ + nat_text(n as nat),
    decreases n,
{
    if n >= 10 {
        append_u64(out, n / 10);
    }
    out.append(digit_str(n % 10));
}

/// `n` in decimal.
pub fn u64_text(n: u64) -> (res: String)
    ensures
        res@ == int_text(n as int),
{
    let mut out = String::new();
    append_u64(&mut out, n);
    out
}

/// `n` in decimal, with a minus sign where it is negative.
pub fn i64_text(n: i64) -> (res: String)
    ensures
        res@ == int_text(n as int),
{
    let mut out = String::new();
    if n < 0 {
        proof {
            reveal_strlit("-");
        }
        out.append("-");
        let magnitude: u64 = (-(n + 1)) as u64 + 1;
        append_u64(&mut out, magnitude);
    } else {
        append_u64(&mut out, n as u64);
    }
    out
}

/// The 64-bit integer that `s` spells: an optional sign, then one or more
/// decimal digits. `None` where `s` has another form or the integer does not
/// fit.
pub fn parse_i64(s: &str) -> (res: Option<i64>)
    ensures
        match res {
            Some(n) => int_in_range(s@, i64::MIN as int, i64::MAX as int) == Some(n as int),
            None => int_in_range(s@, i64::MIN as int, i64::MAX as int) is None,
        },
{
    let chars = chars_of(s);
    let negative = chars.len() > 0 && chars[0] == '-';
    let signed = negative || (chars.len() > 0 && chars[0] == '+');
    let start: usize = if signed { 1 } else { 0 };
    let limit: u64 = if negative { 0x8000_0000_0000_0000 } else { 0x7fff_ffff_ffff_ffff };
    let ghost digits = s@.skip(start as int);
    assert(s@.skip(0) == s@);
    if chars.len() == start {
        return None;
    }
    let mut magnitude: u64 = 0;
    let mut i: usize = start;
    while i < chars.len()
        invariant
            start <= i <= chars@.len(),
            chars@.len() > start,
            chars@ == s@,
            digits == s@.skip(start as int),
            s@.skip(0) == s@,
            negative == (s@[0] == '-'),
            start == (if s@[0] == '-' || s@[0] == '+' { 1int } else { 0 }),
            limit == (if negative { 0x8000_0000_0000_0000u64 } else { 0x7fff_ffff_ffff_ffff }),
            magnitude <= limit,
            forall|k: int| 0 <= k < i - start ==> is_digit(#[trigger] digits[k]),
            magnitude == digits_value(digits.take(i - start)),
        decreases chars@.len() - i,
    {
        let c = chars[i];
        assert(digits[i - start] == c);
        if !('0' <= c && c <= '9') {
            return None;
        }
        let d: u64 = (c as u64) - 0x30;
        let ghost n = i - start;
        assert(digits.take(n + 1).drop_last() == digits.take(n));
        assert(digits_value(digits.take(n + 1)) == magnitude * 10 + d);
        if magnitude > (limit - d) / 10 {
            proof {
                if all_digits(digits) {
                    lemma_digits_value_prefix(digits, n + 1);
                }
            }
            return None;
        }
        magnitude = magnitude * 10 + d;
        i = i + 1;
    }
    assert(digits.take(i - start) == digits);
    assert(all_digits(digits));
    if negative {
        if magnitude == 0x8000_0000_0000_0000 {
            Some(i64::MIN)
        } else {
            Some(-(magnitude as i64))
        }
    } else {
        Some(magnitude as i64)
    }
}

/// The 32-bit integer that `s` spells: an optional sign, then one or more
/// decimal digits. `None` where `s` has another form or the integer does not
/// fit.
pub fn parse_i32(s: &str) -> (res: Option<i32>)
    ensures
        match res {
            Some(n) => int_in_range(s@, i32::MIN as int, i32::MAX as int) == Some(n as int),
            None => int_in_range(s@, i32::MIN as int, i32::MAX as int) is None,
        },
{
    match parse_i64(s) {
        Some(n) => if i32::MIN as i64 <= n && n <= i32::MAX as i64 {
            Some(n as i32)
        } else {
            None
        },
        None => None,
    }
}

} // verus!
