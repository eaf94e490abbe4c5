//! What holds of text: whitespace, decimal numbers, UTF-16 and the names of
//! commands.

use crate::command::command_name;
use crate::decimal::{digits_value, int_in_range, int_text, int_value, nat_text};
use crate::entity::utf16_len;
use crate::media::base64_text;
use crate::text::{
    blank, lemma_index_of, lemma_trimmed_start, occurs_at, occurs_in, trimmed,
    trimmed_start, whitespace,
};
use vstd::prelude::*;

verus! {

/// Whitespace is what Unicode calls so: twenty-five characters.
pub proof fn law_whitespace_characters(c: char)
    ensures
        whitespace(c) <==> seq![
            '\u{9}', '\u{a}', '\u{b}', '\u{c}', '\u{d}', '\u{20}', '\u{85}', '\u{a0}', '\u{1680}',
            '\u{2000}', '\u{2001}', '\u{2002}', '\u{2003}', '\u{2004}', '\u{2005}', '\u{2006}',
            '\u{2007}', '\u{2008}', '\u{2009}', '\u{200a}', '\u{2028}', '\u{2029}', '\u{202f}',
            '\u{205f}', '\u{3000}',
        ].contains(c),
{
    let all = seq![
        '\u{9}', '\u{a}', '\u{b}', '\u{c}', '\u{d}', '\u{20}', '\u{85}', '\u{a0}', '\u{1680}',
        '\u{2000}', '\u{2001}', '\u{2002}', '\u{2003}', '\u{2004}', '\u{2005}', '\u{2006}',
        '\u{2007}', '\u{2008}', '\u{2009}', '\u{200a}', '\u{2028}', '\u{2029}', '\u{202f}',
        '\u{205f}', '\u{3000}',
    ];
    if whitespace(c) {
        let v = c as int;
        let i = if v <= 0x0d {
            v - 0x09
        } else if v == 0x20 {
            5
        } else if v == 0x85 {
            6
        } else if v == 0xa0 {
            7
        } else if v == 0x1680 {
            8
        } else if v <= 0x200a {
            v - 0x2000 + 9
        } else if v == 0x2028 {
            20
        } else if v == 0x2029 {
            21
        } else if v == 0x202f {
            22
        } else if v == 0x205f {
            23
        } else {
            24
        };
        assert(all[i] == c);
    }
}

/// Trimming the front takes away the whitespace before a text, and nothing
/// else.
pub proof fn law_trimming_front(before: Seq<char>, s: Seq<char>)
    requires
        blank(before),
        s.len() > 0 ==> !whitespace(s[0]),
    ensures
        trimmed_start(before + s) == s,
{
    let all = before + s;
    let n = before.len() as int;
    assert forall|k: int| 0 <= k < n implies whitespace(#[trigger] all[k]) by {
        assert(all[k] == before[k]);
    }
    lemma_trimmed_start(all, n);
    assert(all.skip(n) == s);
}

/// A text occurs wherever it stands, and only where it stands.
pub proof fn law_occurrence(before: Seq<char>, needle: Seq<char>, after: Seq<char>, s: Seq<char>)
    ensures
        occurs_in(needle, before + needle + after),
        occurs_in(needle, s) ==> exists|i: int|
            0 <= i && i + needle.len() <= s.len() && #[trigger] s.subrange(i, i + needle.len())
                == needle,
{
    let all = before + needle + after;
    let i = before.len() as int;
    assert(all.subrange(i, i + needle.len()) == needle);
    assert(occurs_at(needle, all, i));
    if occurs_in(needle, s) {
        let k = choose|k: int| occurs_at(needle, s, k);
        assert(s.subrange(k, k + needle.len()) == needle);
    }
}

/// A text with a comma whose head does not mention base64 is all of it base64
/// text.
pub proof fn law_other_head_is_kept(head: Seq<char>, body: Seq<char>)
    requires
        !head.contains(','),
        !occurs_in("base64"@, head),
    ensures
        base64_text(head + seq![','] + body) == trimmed(head + seq![','] + body),
{
    let data = head + seq![','] + body;
    assert forall|k: int| 0 <= k < head.len() implies #[trigger] data[k] != ',' by {
        assert(head.contains(head[k]));
        assert(data[k] == head[k]);
    }
    lemma_index_of(data, ',', head.len() as int);
    assert(data.take(head.len() as int) == head);
}

/// A command without a slash is known by what stands before the `@`.
pub proof fn law_command_without_slash(cmd: Seq<char>, tail: Seq<char>)
    requires
        !cmd.contains('@'),
        tail.len() > 0 ==> tail[0] == '@',
        (cmd + tail).len() > 0 ==> (cmd + tail)[0] != '/',
    ensures
        command_name(cmd + tail) == cmd,
{
    let raw = cmd + tail;
    assert forall|k: int| 0 <= k < cmd.len() implies #[trigger] raw[k] != '@' by {
        assert(cmd.contains(cmd[k]));
        assert(raw[k] == cmd[k]);
    }
    lemma_index_of(raw, '@', cmd.len() as int);
    assert(raw.take(cmd.len() as int) == cmd);
}

/// The decimal digits.
pub open spec fn decimal_digits() -> Seq<char> {
    seq!['0', '1', '2', '3', '4', '5', '6', '7', '8', '9']
}

/// A number is written digit by digit, the last one last; a negative one behind
/// a minus sign; and never with a zero in front that could be left out.
pub proof fn law_decimal_digits(n: int, d: int)
    requires
        0 <= d < 10,
    ensures
        int_text(d) == seq![decimal_digits()[d]],
        n > 0 ==> int_text(10 * n + d) == int_text(n) + seq![decimal_digits()[d]],
        n > 0 ==> int_text(-n) == seq!['-'] + int_text(n),
        n > 0 ==> int_text(n)[0] != '0',
{
    if n > 0 {
        assert((10 * n + d) / 10 == n && (10 * n + d) % 10 == d);
        assert(int_text(10 * n + d) == int_text(n) + seq![decimal_digits()[d]]);
        lemma_no_zero_first(n as nat);
    }
}

proof fn lemma_no_zero_first(n: nat)
    requires
        n > 0,
    ensures
        nat_text(n).len() > 0,
        nat_text(n)[0] != '0',
    decreases n,
{
    if n >= 10 {
        lemma_no_zero_first(n / 10);
    }
}

/// Whether `c` is a plus or a minus sign.
pub open spec fn is_sign(c: char) -> bool {
    c == '+' || c == '-'
}

/// A text spells an integer exactly where it is one or more decimal digits,
/// behind a sign or not.
pub proof fn law_what_spells_an_integer(s: Seq<char>)
    ensures
        int_value(s) is Some <==> {
            let first = if s.len() > 0 && is_sign(s[0]) {
                1int
            } else {
                0
            };
            s.len() > first && forall|i: int|
                first <= i < s.len() ==> '0' <= #[trigger] s[i] && s[i] <= '9'
        },
{
    let first = if s.len() > 0 && is_sign(s[0]) {
        1int
    } else {
        0
    };
    let digits = s.skip(first);
    assert(s.skip(0) == s);
    assert(forall|i: int| 0 <= i < digits.len() ==> digits[i] == s[i + first]);
    assert(forall|i: int| first <= i < s.len() ==> s[i] == digits[i - first]);
}

/// One more digit makes ten times the integer and that digit; the first digit
/// stands for itself; a minus sign makes the integer negative.
pub proof fn law_what_digits_mean(s: Seq<char>, d: int)
    requires
        0 <= d < 10,
    ensures
        int_value(seq![decimal_digits()[d]]) == Some(d),
        int_value(seq!['+', decimal_digits()[d]]) == Some(d),
        int_value(seq!['-', decimal_digits()[d]]) == Some(-d),
        int_value(s) matches Some(n) ==> int_value(s.push(decimal_digits()[d])) == Some(
            if s[0] == '-' {
                10 * n - d
            } else {
                10 * n + d
            },
        ),
{
    let c = decimal_digits()[d];
    reveal_with_fuel(digits_value, 2);
    assert(seq!['+', c].skip(1) == seq![c]);
    assert(seq!['-', c].skip(1) == seq![c]);
    if int_value(s) is Some {
        let t = s.push(c);
        if is_sign(s[0]) {
            assert(t.skip(1) == s.skip(1).push(c));
            assert(t.skip(1).drop_last() == s.skip(1));
        } else {
            assert(t.drop_last() == s);
        }
    }
}

/// An integer is read within bounds exactly where it is spelled and lies
/// within them.
pub proof fn law_integer_in_range(s: Seq<char>, lo: int, hi: int, n: int)
    ensures
        int_in_range(s, lo, hi) == Some(n) <==> int_value(s) == Some(n) && lo <= n <= hi,
{
}

/// A character up to U+FFFF takes one UTF-16 code unit, any other takes two; a
/// text takes what its parts take together.
pub proof fn law_utf16_units(c: char, a: Seq<char>, b: Seq<char>)
    ensures
        utf16_len(seq![c]) == (if c <= '\u{ffff}' {
            1nat
        } else {
            2
        }),
        utf16_len(Seq::<char>::empty()) == 0,
        utf16_len(a + b) == utf16_len(a) + utf16_len(b),
    decreases b.len(),
{
    assert(seq![c].drop_last() == Seq::<char>::empty());
    assert(utf16_len(Seq::<char>::empty()) == 0);
    if b.len() == 0 {
        assert(a + b == a);
    } else {
        assert((a + b).drop_last() == a + b.drop_last());
        law_utf16_units(c, a, b.drop_last());
    }
}

} // verus!
