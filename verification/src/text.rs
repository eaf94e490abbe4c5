//! Searching and trimming text.

use vstd::prelude::*;

verus! {

/// The characters with the Unicode property `White_Space`.
pub open spec fn whitespace(c: char) -> bool {
    let v = c as u32;
    ||| 0x09 <= v <= 0x0d
    ||| v == 0x20
    ||| v == 0x85
    ||| v == 0xa0
    ||| v == 0x1680
    ||| 0x2000 <= v <= 0x200a
    ||| v == 0x2028
    ||| v == 0x2029
    ||| v == 0x202f
    ||| v == 0x205f
    ||| v == 0x3000
}

/// `s` without the whitespace at its front.
pub open spec fn trimmed_start(s: Seq<char>) -> Seq<char>
    decreases s.len(),
{
    if s.len() > 0 && whitespace(s[0]) {
        trimmed_start(s.drop_first())
    } else {
        s
    }
}

/// `s` without the whitespace at its back.
pub open spec fn trimmed_end(s: Seq<char>) -> Seq<char>
    decreases s.len(),
{
    if s.len() > 0 && whitespace(s.last()) {
        trimmed_end(s.drop_last())
    } else {
        s
    }
}

/// `s` without the whitespace at either side.
pub open spec fn trimmed(s: Seq<char>) -> Seq<char> {
    trimmed_end(trimmed_start(s))
}

/// Whether `s` is whitespace and nothing else.
pub open spec fn blank(s: Seq<char>) -> bool {
    forall|i: int| 0 <= i < s.len() ==> whitespace(#[trigger] s[i])
}

/// Whether `s` neither starts nor ends with whitespace.
pub open spec fn bare(s: Seq<char>) -> bool {
    s.len() > 0 ==> !whitespace(s[0]) && !whitespace(s.last())
}

/// Whether `needle` occurs somewhere in `s` as a contiguous run.
pub open spec fn occurs_in(needle: Seq<char>, s: Seq<char>) -> bool {
    exists|i: int| #[trigger] occurs_at(needle, s, i)
}

/// Whether `needle` occurs in `s` from index `i` on.
pub open spec fn occurs_at(needle: Seq<char>, s: Seq<char>, i: int) -> bool {
    0 <= i && i + needle.len() <= s.len() && s.subrange(i, i + needle.len()) == needle
}

/// The index of the first `c` in `s`; the length of `s` where there is none.
pub open spec fn index_of(s: Seq<char>, c: char) -> nat
    decreases s.len(),
{
    if s.len() == 0 || s[0] == c {
        0
    } else {
        1 + index_of(s.drop_first(), c)
    }
}

/// Whether `c` has the Unicode property `White_Space`.
pub fn is_whitespace(c: char) -> (res: bool)
    ensures
        res == whitespace(c),
{
    let v: u32 = c as u32;
    (0x09 <= v && v <= 0x0d) || v == 0x20 || v == 0x85 || v == 0xa0 || v == 0x1680 || (0x2000 <= v
        && v <= 0x200a) || v == 0x2028 || v == 0x2029 || v == 0x202f || v == 0x205f || v == 0x3000
}

/// The characters of `s`, in order.
pub fn chars_of(s: &str) -> (res: Vec<char>)
    ensures
        res@ == s@,
{
    let mut res: Vec<char> = Vec::new();
    for c in it: s.chars()
        invariant
            res@ == it.seq().take(it.index()),
            it.seq() == s@,
    {
        res.push(c);
    }
    res
}

/// An index before which there is no `c`, and at which there is one or the
/// sequence ends, is the index of the first `c`.
pub proof fn lemma_index_of(s: Seq<char>, c: char, i: int)
    requires
        0 <= i <= s.len(),
        forall|k: int| 0 <= k < i ==> #[trigger] s[k] != c,
        i < s.len() ==> s[i] == c,
    ensures
        index_of(s, c) == i,
    decreases i,
{
    if i > 0 {
        let rest = s.drop_first();
        assert forall|k: int| 0 <= k < i - 1 implies #[trigger] rest[k] != c by {
            assert(rest[k] == s[k + 1]);
        }
        lemma_index_of(rest, c, i - 1);
    }
}

/// The index of the first `c` in `chars` from `from` on; the length where
/// there is none.
pub fn find_char(chars: &Vec<char>, from: usize, c: char) -> (res: usize)
    requires
        from <= chars@.len(),
    ensures
        from <= res <= chars@.len(),
        res - from == index_of(chars@.skip(from as int), c),
{
    let mut i: usize = from;
    while i < chars.len() && chars[i] != c
        invariant
            from <= i <= chars@.len(),
            forall|k: int| from <= k < i ==> #[trigger] chars@[k] != c,
        decreases chars@.len() - i,
    {
        i = i + 1;
    }
    proof {
        let s = chars@.skip(from as int);
        assert forall|k: int| 0 <= k < i - from implies #[trigger] s[k] != c by {
            assert(s[k] == chars@[k + from]);
        }
        lemma_index_of(s, c, i - from);
    }
    i
}

/// Whether `needle` occurs in the first `end` characters of `chars`.
pub fn contains_before(chars: &Vec<char>, end: usize, needle: &Vec<char>) -> (res: bool)
    requires
        end <= chars@.len(),
    ensures
        res == occurs_in(needle@, chars@.take(end as int)),
{
    let ghost s = chars@.take(end as int);
    let mut i: usize = 0;
    while i <= end && needle.len() <= end - i
        invariant
            i <= end + 1,
            end <= chars@.len(),
            s == chars@.take(end as int),
            forall|k: int| 0 <= k < i ==> !occurs_at(needle@, s, k),
        decreases end + 1 - i,
    {
        let mut j: usize = 0;
        while j < needle.len() && chars[i + j] == needle[j]
            invariant
                j <= needle@.len(),
                i + needle@.len() <= end,
                end <= chars@.len(),
                s == chars@.take(end as int),
                forall|k: int| 0 <= k < j ==> s[i + k] == needle@[k],
            decreases needle@.len() - j,
        {
            j = j + 1;
        }
        if j == needle.len() {
            assert(s.subrange(i as int, i + needle@.len()) == needle@);
            assert(occurs_at(needle@, s, i as int));
            return true;
        }
        assert(!occurs_at(needle@, s, i as int)) by {
            assert(s.subrange(i as int, i + needle@.len())[j as int] == s[i + j]);
        }
        i = i + 1;
    }
    assert forall|k: int| !occurs_at(needle@, s, k) by {}
    false
}

/// The suffix of a sequence from its first character that is no whitespace is
/// the sequence trimmed at its front.
pub proof fn lemma_trimmed_start(s: Seq<char>, i: int)
    requires
        0 <= i <= s.len(),
        forall|k: int| 0 <= k < i ==> whitespace(#[trigger] s[k]),
        i < s.len() ==> !whitespace(s[i]),
    ensures
        trimmed_start(s) == s.skip(i),
    decreases i,
{
    if i > 0 {
        let rest = s.drop_first();
        assert forall|k: int| 0 <= k < i - 1 implies whitespace(#[trigger] rest[k]) by {
            assert(rest[k] == s[k + 1]);
        }
        lemma_trimmed_start(rest, i - 1);
        assert(rest.skip(i - 1) == s.skip(i));
    } else {
        assert(s.skip(0) == s);
    }
}

/// The prefix of a sequence up to its last character that is no whitespace is
/// the sequence trimmed at its back.
proof fn lemma_trimmed_end(s: Seq<char>, n: int)
    requires
        0 <= n <= s.len(),
        forall|k: int| n <= k < s.len() ==> whitespace(#[trigger] s[k]),
        n > 0 ==> !whitespace(s[n - 1]),
    ensures
        trimmed_end(s) == s.take(n),
    decreases s.len(),
{
    if n < s.len() {
        let rest = s.drop_last();
        assert forall|k: int| n <= k < rest.len() implies whitespace(#[trigger] rest[k]) by {
            assert(rest[k] == s[k]);
        }
        lemma_trimmed_end(rest, n);
        assert(rest.take(n) == s.take(n));
    } else {
        assert(s.take(n) == s);
    }
}

/// Trimming takes away the whitespace around a text, and nothing else.
pub proof fn law_trimming(before: Seq<char>, s: Seq<char>, after: Seq<char>)
    requires
        blank(before),
        blank(after),
        bare(s),
    ensures
        trimmed(before + s + after) == s,
{
    let all = before + s + after;
    let rest = s + after;
    let n = before.len() as int;
    if s.len() > 0 {
        assert forall|k: int| 0 <= k < n implies whitespace(#[trigger] all[k]) by {
            assert(all[k] == before[k]);
        }
        assert(all[n] == s[0]);
        lemma_trimmed_start(all, n);
        assert(all.skip(n) == rest);
        assert forall|k: int| s.len() <= k < rest.len() implies whitespace(#[trigger] rest[k]) by {
            assert(rest[k] == after[k - s.len()]);
        }
        lemma_trimmed_end(rest, s.len() as int);
        assert(rest.take(s.len() as int) == s);
    } else {
        assert forall|k: int| 0 <= k < all.len() implies whitespace(#[trigger] all[k]) by {
            if k < n {
                assert(all[k] == before[k]);
            } else {
                assert(all[k] == after[k - n]);
            }
        }
        lemma_trimmed_start(all, all.len() as int);
        assert(trimmed_start(all) == s);
    }
}

/// The index of the first character of `chars`, from `from` on, that is no
/// whitespace; the length where there is none.
fn skip_whitespace(chars: &Vec<char>, from: usize) -> (res: usize)
    requires
        from <= chars@.len(),
    ensures
        from <= res <= chars@.len(),
        trimmed_start(chars@.skip(from as int)) == chars@.skip(res as int),
        res < chars@.len() ==> !whitespace(chars@[res as int]),
{
    let mut i: usize = from;
    while i < chars.len() && is_whitespace(chars[i])
        invariant
            from <= i <= chars@.len(),
            forall|k: int| from <= k < i ==> whitespace(#[trigger] chars@[k]),
        decreases chars@.len() - i,
    {
        i = i + 1;
    }
    proof {
        let s = chars@.skip(from as int);
        assert forall|k: int| 0 <= k < i - from implies whitespace(#[trigger] s[k]) by {
            assert(s[k] == chars@[k + from]);
        }
        lemma_trimmed_start(s, i - from);
        assert(s.skip(i - from) == chars@.skip(i as int));
    }
    i
}

/// `s` without the whitespace at its front.
pub fn trim_start(s: &str) -> (res: &str)
    ensures
        res@ == trimmed_start(s@),
{
    let chars = chars_of(s);
    let from = skip_whitespace(&chars, 0);
    assert(s@.skip(0) == s@);
    s.substring_char(from, chars.len())
}

/// The characters of `s` from index `from` on, without the whitespace at
/// either side; `chars` are the characters of `s`.
pub fn trim_from<'a>(s: &'a str, chars: &Vec<char>, from: usize) -> (res: &'a str)
    requires
        chars@ == s@,
        from <= chars@.len(),
    ensures
        res@ == trimmed(s@.skip(from as int)),
{
    let start = skip_whitespace(chars, from);
    let mut end: usize = chars.len();
    while start < end && is_whitespace(chars[end - 1])
        invariant
            start <= end <= chars@.len(),
            forall|k: int| end <= k < chars@.len() ==> whitespace(#[trigger] chars@[k]),
        decreases end,
    {
        end = end - 1;
    }
    proof {
        let t = chars@.skip(start as int);
        assert forall|k: int| end - start <= k < t.len() implies whitespace(#[trigger] t[k]) by {
            assert(t[k] == chars@[k + start]);
        }
        lemma_trimmed_end(t, end - start);
        assert(t.take(end - start) == chars@.subrange(start as int, end as int));
    }
    s.substring_char(start, end)
}

} // verus!
