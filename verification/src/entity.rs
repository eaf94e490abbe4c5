//! Message entities: the marked spans of a text.
//!
//! Telegram counts the offset and the length of a span in UTF-16 code units,
//! while a Rust string is indexed in bytes of UTF-8.

use vstd::prelude::*;
use vstd::utf8::{
    decode_utf8, encode_utf8, encode_utf8_decode_utf8, encode_utf8_first_scalar,
    encode_utf8_valid_utf8, is_char_boundary, is_char_boundary_iff_not_is_continuation_byte,
    is_char_boundary_start_end_of_seq, pop_first_scalar, valid_utf8, valid_utf8_split,
};

verus! {

/// What a span of a text is, as far as the adapter tells spans apart.
#[derive(Debug, Clone, Copy, PartialEq, Eq)]
pub enum EntityKind {
    /// `@username`.
    Mention,
    /// A mention of a user without a username.
    TextMention { user_id: u64 },
    /// `/command`, with or without `@bot` behind it.
    BotCommand,
    /// Any other kind.
    Other,
}

/// A marked span of a text.
#[derive(Debug, Clone, Copy, PartialEq, Eq)]
pub struct MessageEntity {
    pub kind: EntityKind,
    /// Where the span starts, in UTF-16 code units.
    pub offset: usize,
    /// How long the span is, in UTF-16 code units.
    pub length: usize,
}

/// The number of UTF-16 code units that `c` takes.
pub open spec fn utf16_width(c: char) -> nat {
    if (c as u32) < 0x10000 {
        1
    } else {
        2
    }
}

/// The number of UTF-16 code units that `s` takes.
pub open spec fn utf16_len(s: Seq<char>) -> nat
    decreases s.len(),
{
    if s.len() == 0 {
        0
    } else {
        utf16_len(s.drop_last()) + utf16_width(s.last())
    }
}

/// Whether the first `k` characters of `text` take `offset` UTF-16 code units.
pub open spec fn at_utf16(text: Seq<char>, k: int, offset: int) -> bool {
    0 <= k <= text.len() && utf16_len(text.take(k)) == offset
}

/// Whether some character of `text` starts at `offset`, or `text` ends there.
pub open spec fn utf16_boundary(text: Seq<char>, offset: int) -> bool {
    exists|k: int| at_utf16(text, k, offset)
}

/// Whether an offset can be converted: it is a boundary of `text` or lies
/// behind its end. (What is left is the middle of a surrogate pair.)
pub open spec fn resolvable(text: Seq<char>, offset: int) -> bool {
    utf16_boundary(text, offset) || offset > utf16_len(text)
}

/// The offset in bytes of UTF-8 for an offset in UTF-16 code units. One that
/// lies behind the end of `text` stays as it is.
pub open spec fn utf8_offset(text: Seq<char>, offset: int) -> int {
    if utf16_boundary(text, offset) {
        encode_utf8(text.take(choose|k: int| at_utf16(text, k, offset))).len() as int
    } else {
        offset
    }
}

/// The number of bytes that `text` takes in UTF-8.
pub open spec fn byte_len(text: Seq<char>) -> int {
    encode_utf8(text).len() as int
}

/// The part of `text` between the byte offsets `start` and `end`.
pub open spec fn text_slice(text: Seq<char>, start: int, end: int) -> Seq<char> {
    decode_utf8(encode_utf8(text).subrange(start, end))
}

/// Whether `text` can be cut at the byte offsets `start` and `end`.
pub open spec fn sliceable(text: Seq<char>, start: int, end: int) -> bool {
    &&& start <= end
    &&& is_char_boundary(encode_utf8(text), start)
    &&& is_char_boundary(encode_utf8(text), end)
}

impl MessageEntity {
    /// Whether both ends of the span can be converted to bytes of `text`.
    pub open spec fn convertible(self, text: Seq<char>) -> bool {
        &&& self.offset + self.length <= usize::MAX
        &&& resolvable(text, self.offset as int)
        &&& resolvable(text, self.offset + self.length)
    }

    /// The byte offset at which the span starts.
    pub open spec fn start(self, text: Seq<char>) -> int {
        utf8_offset(text, self.offset as int)
    }

    /// The byte offset at which the span ends.
    pub open spec fn end(self, text: Seq<char>) -> int {
        utf8_offset(text, self.offset + self.length)
    }

    /// The text of the span.
    pub open spec fn text(self, text: Seq<char>) -> Seq<char> {
        text_slice(text, self.start(text), self.end(text))
    }
}

/// The byte ranges of `entities` in `text`, in their order: what
/// `teloxide::types::MessageEntityRef::parse` computes.
///
/// It is trusted that `parse` turns each end of each entity from UTF-16 code
/// units into bytes, that it keeps an end that lies behind the text as it is,
/// and that it keeps the order of the entities. It reads nothing of an entity
/// but its offset and its length, so every entity is handed over as a bold
/// one. It panics on an end in the middle of a surrogate pair and on an
/// overflow of offset plus length; `requires` leaves both out.
#[verifier::external_body]
pub(crate) fn entity_ranges(text: &str, entities: &Vec<MessageEntity>) -> (res: Vec<(usize, usize)>)
    requires
        forall|i: int| 0 <= i < entities@.len() ==> (#[trigger] entities@[i]).convertible(text@),
    ensures
        res@.len() == entities@.len(),
        forall|i: int|
            0 <= i < entities@.len() ==> (#[trigger] res@[i]).0 == entities@[i].start(text@)
                && res@[i].1 == entities@[i].end(text@),
{
    let spans: Vec<teloxide::types::MessageEntity> = entities.iter().map(
        |e| teloxide::types::MessageEntity::bold(e.offset, e.length),
    ).collect();
    teloxide::types::MessageEntityRef::parse(text, &spans).iter().map(
        |r| (r.start(), r.end()),
    ).collect()
}

/// Cutting a prefix off does not move the boundaries inside it.
proof fn lemma_boundary_in_prefix(bytes: Seq<u8>, i: int, n: int)
    requires
        valid_utf8(bytes),
        0 <= i <= n,
        is_char_boundary(bytes, i),
        is_char_boundary(bytes, n),
        n <= bytes.len(),
    ensures
        is_char_boundary(bytes.subrange(0, n), i),
{
    let prefix = bytes.subrange(0, n);
    valid_utf8_split(bytes, n);
    if i < n {
        is_char_boundary_iff_not_is_continuation_byte(bytes, i);
        is_char_boundary_iff_not_is_continuation_byte(prefix, i);
        assert(prefix[i] == bytes[i]);
    } else {
        is_char_boundary_start_end_of_seq(prefix);
    }
}

/// A boundary lies within the text.
proof fn lemma_boundary_range(bytes: Seq<u8>, i: int)
    requires
        valid_utf8(bytes),
        is_char_boundary(bytes, i),
    ensures
        0 <= i <= bytes.len(),
{
}

/// The part of `text` between two byte offsets.
pub fn slice<'a>(text: &'a str, start: usize, end: usize) -> (res: &'a str)
    requires
        sliceable(text@, start as int, end as int),
    ensures
        res@ == text_slice(text@, start as int, end as int),
{
    let ghost bytes = encode_utf8(text@);
    proof {
        encode_utf8_valid_utf8(text@);
        lemma_boundary_range(bytes, end as int);
        lemma_boundary_in_prefix(bytes, start as int, end as int);
    }
    let head = text.split_at(end).0;
    let res = head.split_at(start).1;
    proof {
        assert(bytes.subrange(0, end as int).subrange(start as int, end as int) == bytes.subrange(
            start as int,
            end as int,
        ));
        encode_utf8_decode_utf8(res@);
    }
    res
}

/// The part of `text` from a byte offset on.
pub fn slice_from<'a>(text: &'a str, start: usize) -> (res: &'a str)
    requires
        is_char_boundary(encode_utf8(text@), start as int),
    ensures
        res@ == text_slice(text@, start as int, byte_len(text@)),
{
    let res = text.split_at(start).1;
    proof {
        encode_utf8_decode_utf8(res@);
    }
    res
}

/// A longer prefix takes more UTF-16 code units.
proof fn lemma_utf16_increases(text: Seq<char>, i: int, j: int)
    requires
        0 <= i < j <= text.len(),
    ensures
        utf16_len(text.take(i)) < utf16_len(text.take(j)),
    decreases j - i,
{
    assert(text.take(j).drop_last() == text.take(j - 1));
    if i < j - 1 {
        lemma_utf16_increases(text, i, j - 1);
    }
}

/// The byte offset of the end of a prefix.
proof fn lemma_utf8_offset(text: Seq<char>, i: int, offset: int)
    requires
        at_utf16(text, i, offset),
    ensures
        utf8_offset(text, offset) == byte_len(text.take(i)),
{
    let k = choose|k: int| at_utf16(text, k, offset);
    if i < k {
        lemma_utf16_increases(text, i, k);
    } else if k < i {
        lemma_utf16_increases(text, k, i);
    }
}

/// Whether an offset into the text of `chars` can be converted to bytes.
pub fn offset_resolves(chars: &Vec<char>, offset: usize) -> (res: bool)
    ensures
        res == resolvable(chars@, offset as int),
{
    let ghost text = chars@;
    let mut rest: usize = offset;
    let mut i: usize = 0;
    while i < chars.len() && rest > 0
        invariant
            i <= chars@.len(),
            text == chars@,
            utf16_len(text.take(i as int)) + rest == offset,
        decreases chars@.len() - i,
    {
        let width: usize = if (chars[i] as u32) < 0x10000 { 1 } else { 2 };
        proof {
            assert(text.take(i + 1).drop_last() == text.take(i as int));
            assert(utf16_len(text.take(i + 1)) == utf16_len(text.take(i as int)) + width);
        }
        if rest < width {
            proof {
                assert forall|k: int| !at_utf16(text, k, offset as int) by {
                    if 0 <= k < i {
                        lemma_utf16_increases(text, k, i as int);
                    } else if i + 1 < k <= text.len() {
                        lemma_utf16_increases(text, i + 1, k);
                    }
                }
                if i + 1 < text.len() {
                    lemma_utf16_increases(text, i + 1, text.len() as int);
                }
                assert(text.take(text.len() as int) == text);
            }
            return false;
        }
        rest = rest - width;
        i = i + 1;
    }
    proof {
        if rest == 0 {
            assert(at_utf16(text, i as int, offset as int));
        } else {
            assert(text.take(i as int) == text);
        }
    }
    true
}

impl MessageEntity {
    /// Whether both ends of the span can be converted to bytes of the text of
    /// `chars`.
    pub fn is_convertible(&self, chars: &Vec<char>) -> (res: bool)
        ensures
            res == self.convertible(chars@),
    {
        match self.offset.checked_add(self.length) {
            Some(end) => offset_resolves(chars, self.offset) && offset_resolves(chars, end),
            None => false,
        }
    }
}

/// Whether `text` can be cut at two byte offsets.
pub fn can_slice(text: &str, start: usize, end: usize) -> (res: bool)
    ensures
        res == sliceable(text@, start as int, end as int),
{
    start <= end && text.is_char_boundary(start) && text.is_char_boundary(end)
}

/// UTF-8 of a concatenation is the concatenation of the UTF-8.
proof fn lemma_encode_concat(a: Seq<char>, b: Seq<char>)
    ensures
        encode_utf8(a + b) == encode_utf8(a) + encode_utf8(b),
    decreases a.len(),
{
    if a.len() == 0 {
        assert(a + b == b);
        assert(encode_utf8(a) == Seq::<u8>::empty());
    } else {
        assert((a + b).drop_first() == a.drop_first() + b);
        lemma_encode_concat(a.drop_first(), b);
    }
}

/// A text can be cut behind any of its prefixes.
proof fn lemma_prefix_boundary(a: Seq<char>, b: Seq<char>)
    ensures
        is_char_boundary(encode_utf8(a + b), encode_utf8(a).len() as int),
    decreases a.len(),
{
    let s = a + b;
    encode_utf8_valid_utf8(s);
    if a.len() == 0 {
        assert(encode_utf8(a).len() == 0);
    } else {
        assert(s.drop_first() == a.drop_first() + b);
        lemma_prefix_boundary(a.drop_first(), b);
        lemma_encode_concat(a, b);
        encode_utf8_first_scalar(s);
        assert(s[0] == a[0]);
        assert(pop_first_scalar(encode_utf8(s)) == encode_utf8(s.drop_first()));
    }
}

/// The text between the byte offsets of two characters is the characters from
/// the first to the second.
proof fn lemma_slice_chars(text: Seq<char>, i: int, j: int)
    requires
        0 <= i <= j <= text.len(),
    ensures
        sliceable(text, byte_len(text.take(i)), byte_len(text.take(j))),
        text_slice(text, byte_len(text.take(i)), byte_len(text.take(j))) == text.subrange(i, j),
{
    assert(text == text.take(i) + text.skip(i));
    assert(text == text.take(j) + text.skip(j));
    lemma_prefix_boundary(text.take(i), text.skip(i));
    lemma_prefix_boundary(text.take(j), text.skip(j));
    assert(text.take(j) == text.take(i) + text.subrange(i, j));
    lemma_encode_concat(text.take(j), text.skip(j));
    lemma_encode_concat(text.take(i), text.subrange(i, j));
    assert(encode_utf8(text).subrange(byte_len(text.take(i)), byte_len(text.take(j)))
        == encode_utf8(text.subrange(i, j)));
    encode_utf8_decode_utf8(text.subrange(i, j));
}

/// A span that Telegram counts from the `i`-th to the `j`-th character of a
/// text, in UTF-16 code units, reads as exactly these characters, whatever
/// they take in UTF-16 and in UTF-8; and what stands behind it reads as the
/// characters from the `j`-th on.
pub proof fn law_entity_text(text: Seq<char>, entity: MessageEntity, i: int, j: int)
    requires
        at_utf16(text, i, entity.offset as int),
        at_utf16(text, j, entity.offset + entity.length),
        entity.offset + entity.length <= usize::MAX,
    ensures
        i <= j,
        entity.convertible(text),
        sliceable(text, entity.start(text), entity.end(text)),
        entity.text(text) == text.subrange(i, j),
        text_slice(text, entity.end(text), byte_len(text)) == text.skip(j),
{
    if j < i {
        lemma_utf16_increases(text, j, i);
    }
    lemma_utf8_offset(text, i, entity.offset as int);
    lemma_utf8_offset(text, j, entity.offset + entity.length);
    lemma_slice_chars(text, i, j);
    lemma_slice_chars(text, j, text.len() as int);
    assert(text.take(text.len() as int) == text);
    assert(text.subrange(j, text.len() as int) == text.skip(j));
}

/// UTF-16 of a concatenation is as long as its parts together.
proof fn lemma_utf16_concat(a: Seq<char>, b: Seq<char>)
    ensures
        utf16_len(a + b) == utf16_len(a) + utf16_len(b),
    decreases b.len(),
{
    if b.len() == 0 {
        assert(a + b == a);
    } else {
        assert((a + b).drop_last() == a + b.drop_last());
        lemma_utf16_concat(a, b.drop_last());
    }
}

/// A span that marks `marked` in a text, by the UTF-16 lengths of `marked` and
/// of what stands before it, reads as `marked`; and what stands behind it reads
/// as `after`.
pub proof fn law_marked_text_is_read(
    before: Seq<char>,
    marked: Seq<char>,
    after: Seq<char>,
    entity: MessageEntity,
)
    requires
        entity.offset == utf16_len(before),
        entity.length == utf16_len(marked),
        utf16_len(before) + utf16_len(marked) <= usize::MAX,
    ensures
        ({
            let text = before + marked + after;
            &&& entity.convertible(text)
            &&& sliceable(text, entity.start(text), entity.end(text))
            &&& entity.text(text) == marked
            &&& text_slice(text, entity.end(text), byte_len(text)) == after
        }),
{
    let text = before + marked + after;
    let i = before.len() as int;
    let j = (before.len() + marked.len()) as int;
    lemma_utf16_concat(before, marked);
    assert(text.take(i) == before);
    assert(text.take(j) == before + marked);
    law_entity_text(text, entity, i, j);
    assert(text.subrange(i, j) == marked);
    assert(text.skip(j) == after);
}

/// The offset of a character can be converted, that inside a character of two
/// UTF-16 code units cannot, and one behind the end of the text stays as it is.
pub proof fn law_offsets(before: Seq<char>, c: char, after: Seq<char>, offset: int)
    ensures
        resolvable(before + seq![c] + after, utf16_len(before) as int),
        c > '\u{ffff}' ==> !resolvable(
            before + seq![c] + after,
            utf16_len(before) as int + 1,
        ),
        offset > utf16_len(before) ==> resolvable(before, offset) && utf8_offset(before, offset)
            == offset,
{
    let text = before + seq![c] + after;
    let n = before.len() as int;
    assert(text.take(n) == before);
    assert(at_utf16(text, n, utf16_len(before) as int));
    assert(text.take(n + 1) == before.push(c));
    assert(text.take(n + 1).drop_last() == before);
    if c > '\u{ffff}' {
        let inside = utf16_len(before) as int + 1;
        assert(utf16_len(text.take(n + 1)) == inside + 1);
        assert forall|k: int| !at_utf16(text, k, inside) by {
            if 0 <= k < n {
                lemma_utf16_increases(text, k, n);
            } else if n + 1 < k <= text.len() {
                lemma_utf16_increases(text, n + 1, k);
            }
        }
        if n + 1 < text.len() {
            lemma_utf16_increases(text, n + 1, text.len() as int);
        }
        assert(text.take(text.len() as int) == text);
    }
    if offset > utf16_len(before) {
        assert(before.take(n) == before);
        assert forall|k: int| !at_utf16(before, k, offset) by {
            if 0 <= k < n {
                lemma_utf16_increases(before, k, n);
            }
        }
    }
}

} // verus!
