//! What holds of the adapter as a whole.

use crate::command::{command_at, command_name, first_command, mentions};
use crate::convert::{
    area, attachments, file_item, file_items, is_largest, largest, lemma_largest_unique, message_view,
    photo_items, text_items, update_event, voice_items,
};
use crate::decimal::law_int_text_reads_back;
use crate::entity::{
    at_utf16, byte_len, law_entity_text, law_marked_text_is_read, sliceable, text_slice,
    utf16_boundary, utf16_len, MessageEntity,
};
use crate::event::{
    CommandView, ContentItemView, EventTypeView, EventView, FileSourceView, ImageSourceView, MessageView,
};
use crate::media::{
    base64_encoded, base64_text, filled, six_bits, InputDataView, InputFileView,
};
use crate::outgoing::{
    reply_view, step_view, steps_view, target, ReplyParameters, SendErrorView, SendStepView,
};
use crate::text::{
    bare, blank, index_of, law_trimming, lemma_index_of, occurs_in, trimmed, trimmed_start, whitespace,
};
use crate::update::{FormattedTextView, IncomingMessageView, PhotoSizeView, UpdateView};
use vstd::prelude::*;

verus! {

/// Where a step sends something: the chat and the message that it replies to.
pub open spec fn destination(step: SendStepView) -> Option<(i64, Option<ReplyParameters>)> {
    match step {
        SendStepView::SendMessage { chat_id, reply, .. } => Some((chat_id, reply)),
        SendStepView::SendDocument { chat_id, reply, .. } => Some((chat_id, reply)),
        SendStepView::SendPhoto { chat_id, reply, .. } => Some((chat_id, reply)),
        _ => None,
    }
}

/// An answer to a message that was received reaches the chat that the message
/// came from, and replies to that message: it is enough that the answer's
/// `to` is the `to` of the received message, and its `reply_to` the `id`.
pub proof fn law_answer_reaches_chat(m: IncomingMessageView, answer: EventView, msg: MessageView)
    requires
        answer.message == Some(msg),
        msg.to == message_view(m).to,
        msg.reply_to == message_view(m).id,
    ensures
        target(answer, true) == Ok::<Option<(i64, MessageView)>, SendErrorView>(
            Some((m.chat_id, msg)),
        ),
        forall|i: int|
            #![trigger steps_view(m.chat_id, msg)[i]]
            0 <= i < msg.content.len() ==> {
                let to = destination(steps_view(m.chat_id, msg)[i]);
                to is Some ==> to == Some((m.chat_id, Some(ReplyParameters { message_id: m.id })))
            },
{
    law_int_text_reads_back(m.chat_id as int);
    law_int_text_reads_back(m.id as int);
}

/// Content as it is received: a text that is not empty, or a file or an image
/// that is known by its identifier.
pub open spec fn as_received(item: ContentItemView) -> bool {
    match item {
        ContentItemView::Text(text) => text.len() > 0,
        ContentItemView::File { source, file_id, .. } => source matches FileSourceView::Id(id)
            && file_id == Some(id),
        ContentItemView::Image { source, file_id, .. } => source matches ImageSourceView::Id(id)
            && file_id == Some(id),
        ContentItemView::Other { .. } => false,
    }
}

/// Whether all items are as they are received.
pub open spec fn all_as_received(items: Seq<ContentItemView>) -> bool {
    forall|i: int| 0 <= i < items.len() ==> as_received(#[trigger] items[i])
}

proof fn lemma_as_received_concat(a: Seq<ContentItemView>, b: Seq<ContentItemView>)
    requires
        all_as_received(a),
        all_as_received(b),
    ensures
        all_as_received(a + b),
{
    assert forall|i: int| 0 <= i < (a + b).len() implies as_received(#[trigger] (a + b)[i]) by {
        if i < a.len() {
            assert((a + b)[i] == a[i]);
        } else {
            assert((a + b)[i] == b[i - a.len()]);
        }
    }
}

/// The message of an event holds nothing but content as it is received; in
/// particular no empty text.
pub proof fn law_received_content(m: IncomingMessageView)
    ensures
        all_as_received(message_view(m).content),
{
    let a1 = file_items(m.document);
    let a2 = photo_items(m.photo, m.caption);
    let a3 = file_items(m.audio);
    let a4 = file_items(m.video);
    let a5 = file_items(m.animation);
    let a6 = voice_items(m.voice);
    lemma_as_received_concat(a1, a2);
    lemma_as_received_concat(a1 + a2, a3);
    lemma_as_received_concat(a1 + a2 + a3, a4);
    lemma_as_received_concat(a1 + a2 + a3 + a4, a5);
    lemma_as_received_concat(a1 + a2 + a3 + a4 + a5, a6);
    lemma_as_received_concat(text_items(m), attachments(m));
}

/// Everything that was received can be sent on: each piece of the message of
/// an event becomes a text, a document or a photo; a file or an image goes by
/// the identifier under which it was received.
pub proof fn law_received_content_can_be_sent(
    m: IncomingMessageView,
    chat_id: i64,
    reply: Option<ReplyParameters>,
    i: int,
)
    requires
        0 <= i < message_view(m).content.len(),
    ensures
        ({
            let item = message_view(m).content[i];
            let step = step_view(chat_id, reply, item);
            &&& destination(step) == Some((chat_id, reply))
            &&& match item {
                ContentItemView::Text(text) => step == (SendStepView::SendMessage {
                    chat_id,
                    text,
                    reply,
                }),
                ContentItemView::File { file_id, .. } => step matches SendStepView::SendDocument {
                    document,
                    ..
                } && document.data == InputDataView::FileId(file_id->0),
                ContentItemView::Image { file_id, .. } => step matches SendStepView::SendPhoto {
                    photo,
                    ..
                } && photo.data == InputDataView::FileId(file_id->0),
                ContentItemView::Other { .. } => false,
            }
        }),
{
    law_received_content(m);
    assert(as_received(message_view(m).content[i]));
}

/// A file that was received goes out as a document by its identifier, under
/// its name where that is not empty.
pub proof fn law_received_file_is_reused(
    chat_id: i64,
    reply: Option<ReplyParameters>,
    file_id: Seq<char>,
    file_name: Option<Seq<char>>,
)
    ensures
        step_view(chat_id, reply, file_item(file_id, file_name)) == (SendStepView::SendDocument {
            chat_id,
            document: InputFileView {
                data: InputDataView::FileId(file_id),
                file_name: filled(file_name),
            },
            reply,
        }),
{
}

/// Nothing empty is sent: no message with an empty text, no empty caption and
/// no empty file name.
pub proof fn law_nothing_empty_is_sent(
    chat_id: i64,
    reply: Option<ReplyParameters>,
    item: ContentItemView,
)
    ensures
        match step_view(chat_id, reply, item) {
            SendStepView::SendMessage { text, .. } => text.len() > 0,
            SendStepView::SendDocument { document, .. } => document.file_name matches Some(name)
                ==> name.len() > 0,
            SendStepView::SendPhoto { photo, caption, .. } => photo.file_name is None && (
            caption matches Some(caption) ==> caption.len() > 0),
            _ => true,
        },
{
}

/// A bot that is not running sends nothing: an event that names a chat is
/// refused for that reason, and no event gets through.
pub proof fn law_no_bot_sends_nothing(event: EventView)
    ensures
        match target(event, false) {
            Ok(found) => found is None && event.message is None,
            Err(SendErrorView::BotNotInitialized) => target(event, true) is Ok,
            Err(_) => target(event, true) == target(event, false),
        },
{
}

/// Every update becomes an event of one of three types: a command, with its
/// message, where the text of a message holds one; a message otherwise; and for
/// an update without a message neither, but its data.
pub proof fn law_every_update_becomes_an_event(update: UpdateView)
    ensures
        update_event(update).message is Some == update.body is Message,
        update_event(update).command is Some == update_event(update).event_type is Command,
        update.body is Payload == update_event(update).event_type is Other,
        update.body is Message ==> update_event(update).data == update.name,
        update.body is Payload ==> update_event(update).event_type == EventTypeView::Other(
            update.name,
        ),
        update_event(update).source == "tg-adapter"@,
        update_event(update).sender == Some("TGAdapter"@),
        update_event(update).receiver is None,
{
}

/// A text holds no command without a span that marks one; otherwise the command
/// is that of the first such span, and later ones are passed over.
pub proof fn law_first_command_wins(body: FormattedTextView, i: int)
    ensures
        (first_command(body.text, body.entities) is None) == (forall|k: int|
            0 <= k < body.entities.len() ==> !((#[trigger] body.entities[k]).kind is BotCommand)),
        body.is_first_command(i) ==> first_command(body.text, body.entities) == Some(
            command_at(body.text, body.entities[i]),
        ),
    decreases body.entities.len(),
{
    if body.entities.len() > 0 {
        let n = body.entities.len() - 1;
        let rest = FormattedTextView { text: body.text, entities: body.entities.drop_last() };
        law_first_command_wins(rest, i);
        assert(forall|k: int| 0 <= k < n ==> rest.entities[k] == body.entities[k]);
        assert(body.entities.last() == body.entities[n]);
        if body.is_first_command(i) && i < n {
            assert(rest.is_first_command(i));
        }
        if first_command(rest.text, rest.entities) is Some {
            let k = choose|k: int|
                0 <= k < n && (#[trigger] rest.entities[k]).kind is BotCommand;
            assert(body.entities[k].kind is BotCommand);
        } else if body.entities[n].kind is BotCommand {
            assert(first_command(body.text, body.entities) is Some);
        }
    }
}

/// The name of a command holds no `@`, and its arguments do not start with
/// whitespace.
pub proof fn law_command_shape(text: Seq<char>, entity: MessageEntity)
    ensures
        !command_at(text, entity).cmd.contains('@'),
        command_at(text, entity).args.len() > 0 ==> !whitespace(command_at(text, entity).args[0]),
{
    let raw = entity.text(text);
    let stripped = if raw.len() > 0 && raw[0] == '/' {
        raw.skip(1)
    } else {
        raw
    };
    lemma_none_before(stripped, '@');
    lemma_no_space_first(text_slice(text, entity.end(text), byte_len(text)));
}

/// There is no `c` before the first one.
proof fn lemma_none_before(s: Seq<char>, c: char)
    ensures
        index_of(s, c) <= s.len(),
        !s.take(index_of(s, c) as int).contains(c),
    decreases s.len(),
{
    if s.len() > 0 && s[0] != c {
        let rest = s.drop_first();
        lemma_none_before(rest, c);
        let n = index_of(rest, c) as int;
        let before = s.take(n + 1);
        assert forall|k: int| 0 <= k < n + 1 implies #[trigger] before[k] != c by {
            if k > 0 {
                assert(before[k] == rest.take(n)[k - 1]);
                assert(rest.take(n).contains(rest.take(n)[k - 1]));
            }
        }
    }
}

/// A text trimmed at its front does not start with whitespace.
proof fn lemma_no_space_first(s: Seq<char>)
    ensures
        trimmed_start(s).len() > 0 ==> !whitespace(trimmed_start(s)[0]),
    decreases s.len(),
{
    if s.len() > 0 && whitespace(s[0]) {
        lemma_no_space_first(s.drop_first());
    }
}

/// A command is known by the same name whatever bot it is addressed to, and
/// without the slash too.
pub proof fn law_command_name(name: Seq<char>, bot: Seq<char>)
    requires
        !name.contains('@'),
    ensures
        command_name(seq!['/'] + name) == name,
        command_name(seq!['/'] + name + seq!['@'] + bot) == name,
        (name.len() > 0 && name[0] == '/') || command_name(name) == name,
{
    assert forall|k: int| 0 <= k < name.len() implies #[trigger] name[k] != '@' by {
        assert(name.contains(name[k]));
    }
    lemma_index_of(name, '@', name.len() as int);
    assert(name.take(name.len() as int) == name);
    assert((seq!['/'] + name).skip(1) == name);
    let addressed = name + seq!['@'] + bot;
    assert((seq!['/'] + name + seq!['@'] + bot).skip(1) == addressed);
    lemma_index_of(addressed, '@', name.len() as int);
    assert(addressed.take(name.len() as int) == name);
}

/// Mentions are read span by span: those of a first run of spans come first,
/// then those of the rest.
pub proof fn law_mentions_in_order(
    text: Seq<char>,
    first: Seq<MessageEntity>,
    rest: Seq<MessageEntity>,
)
    ensures
        mentions(text, first + rest) == mentions(text, first) + mentions(text, rest),
    decreases rest.len(),
{
    if rest.len() == 0 {
        assert(first + rest == first);
    } else {
        assert((first + rest).drop_last() == first + rest.drop_last());
        law_mentions_in_order(text, first, rest.drop_last());
    }
}

/// The head of a `data:` URL makes no difference to an image: any text without
/// a comma that mentions base64 can stand before the comma, and what is decoded
/// is what stands behind it.
pub proof fn law_data_url_head_is_dropped(head: Seq<char>, body: Seq<char>)
    requires
        !head.contains(','),
        occurs_in("base64"@, head),
    ensures
        base64_text(head + seq![','] + body) == trimmed(body),
{
    let data = head + seq![','] + body;
    assert forall|k: int| 0 <= k < head.len() implies #[trigger] data[k] != ',' by {
        assert(head.contains(head[k]));
        assert(data[k] == head[k]);
    }
    lemma_index_of(data, ',', head.len() as int);
    assert(data.take(head.len() as int) == head);
    assert(data.skip((head.len() + 1) as int) == body);
}

/// An image that is given as base64 text alone, without a comma, is decoded
/// from all of it.
pub proof fn law_bare_base64_is_kept(data: Seq<char>)
    requires
        !data.contains(','),
    ensures
        base64_text(data) == trimmed(data),
{
    assert forall|k: int| 0 <= k < data.len() implies #[trigger] data[k] != ',' by {
        assert(data.contains(data[k]));
    }
    lemma_index_of(data, ',', data.len() as int);
}

/// Whitespace around the base64 text of an image makes no difference, be the
/// text alone or behind the head of a `data:` URL.
pub proof fn law_whitespace_around_base64(
    head: Seq<char>,
    before: Seq<char>,
    s: Seq<char>,
    after: Seq<char>,
)
    requires
        blank(before),
        blank(after),
        bare(s),
        !s.contains(','),
    ensures
        base64_text(before + s + after) == s,
        !head.contains(',') && occurs_in("base64"@, head) ==> base64_text(
            head + seq![','] + before + s + after,
        ) == s,
{
    let body = before + s + after;
    law_trimming(before, s, after);
    assert forall|k: int| 0 <= k < body.len() implies #[trigger] body[k] != ',' by {
        if k < before.len() {
            assert(body[k] == before[k]);
        } else if k < before.len() + s.len() {
            assert(body[k] == s[k - before.len()]);
            assert(s.contains(s[k - before.len()]));
        } else {
            assert(body[k] == after[k - before.len() - s.len()]);
        }
    }
    law_bare_base64_is_kept(body);
    if !head.contains(',') && occurs_in("base64"@, head) {
        law_data_url_head_is_dropped(head, body);
        assert(head + seq![','] + before + s + after == head + seq![','] + body);
    }
}

/// No two sequences of bytes are the same text in base64.
pub proof fn law_base64_is_unambiguous(a: Seq<u8>, b: Seq<u8>)
    requires
        base64_encoded(a) == base64_encoded(b),
    ensures
        a == b,
{
    let text = base64_encoded(a);
    let other = base64_encoded(b);
    if a.len() != b.len() {
        let shorter = if a.len() < b.len() {
            a.len()
        } else {
            b.len()
        };
        // Where the shorter one is padded, the longer one is not.
        let i = (8 * shorter + 5) as int / 6;
        assert(text.len() == other.len());
        assert(i < text.len());
        assert(text[i] == other[i]);
        assert(0 <= six_bits(a, i) < 64 && 0 <= six_bits(b, i) < 64);
        assert(false);
    }
    assert forall|j: int| 0 <= j < a.len() implies a[j] == b[j] by {
        let i = j / 3 * 4 + j % 3;
        assert(text[i] == other[i]);
        assert(text[i + 1] == other[i + 1]);
        assert(0 <= six_bits(a, i) < 64 && 0 <= six_bits(b, i) < 64);
        assert(0 <= six_bits(a, i + 1) < 64 && 0 <= six_bits(b, i + 1) < 64);
        assert(i / 4 * 3 == j - j % 3 && (i + 1) / 4 * 3 == j - j % 3);
    }
}

/// Bytes in base64 are a text without a comma and without whitespace.
proof fn lemma_base64_chars(bytes: Seq<u8>)
    ensures
        !base64_encoded(bytes).contains(','),
        bare(base64_encoded(bytes)),
{
    let text = base64_encoded(bytes);
    assert forall|i: int| 0 <= i < text.len() implies #[trigger] text[i] != ',' && !whitespace(
        text[i],
    ) by {
        let v = six_bits(bytes, i);
        assert(0 <= v < 64);
    }
}

/// An image that is given as its bytes in base64 is decoded from exactly that
/// text, whatever whitespace stands around it, be the text alone or behind the
/// head of a `data:` URL.
pub proof fn law_encoded_image_is_read(
    bytes: Seq<u8>,
    head: Seq<char>,
    before: Seq<char>,
    after: Seq<char>,
)
    requires
        blank(before),
        blank(after),
    ensures
        base64_text(before + base64_encoded(bytes) + after) == base64_encoded(bytes),
        !head.contains(',') && occurs_in("base64"@, head) ==> base64_text(
            head + seq![','] + before + base64_encoded(bytes) + after,
        ) == base64_encoded(bytes),
{
    lemma_base64_chars(bytes);
    law_whitespace_around_base64(head, before, base64_encoded(bytes), after);
}

/// Of any number of photos there is one that is taken: it has no fewer pixels
/// than any other, and more than every one behind it.
pub proof fn law_largest_photo(photos: Seq<PhotoSizeView>) -> (i: int)
    requires
        photos.len() > 0,
    ensures
        is_largest(photos, i),
        largest(photos) == photos[i],
    decreases photos.len(),
{
    let n = photos.len() - 1;
    let i = if n == 0 {
        0
    } else {
        let rest = photos.drop_last();
        let k = law_largest_photo(rest);
        assert(forall|j: int| 0 <= j < n ==> rest[j] == photos[j]);
        if area(photos[n]) >= area(photos[k]) {
            assert forall|j: int| 0 <= j < photos.len() implies area(#[trigger] photos[j])
                <= area(photos[n]) by {
                if j < n {
                    assert(area(rest[j]) <= area(rest[k]));
                }
            }
            n
        } else {
            assert forall|j: int| 0 <= j < photos.len() implies area(#[trigger] photos[j])
                <= area(photos[k]) by {
                if j < n {
                    assert(area(rest[j]) <= area(rest[k]));
                }
            }
            assert forall|j: int| k < j < photos.len() implies area(#[trigger] photos[j])
                < area(photos[k]) by {
                if j < n {
                    assert(area(rest[j]) < area(rest[k]));
                }
            }
            k
        }
    };
    lemma_largest_unique(photos, i);
    i
}

/// A command that Telegram marks in a text, wherever it stands, is read by its
/// name, and what stands behind it becomes its arguments.
pub proof fn law_marked_command_is_read(
    before: Seq<char>,
    marked: Seq<char>,
    after: Seq<char>,
    entity: MessageEntity,
)
    requires
        entity.offset == utf16_len(before),
        entity.length == utf16_len(marked),
        utf16_len(before) + utf16_len(marked) <= usize::MAX,
    ensures
        command_at(before + marked + after, entity) == (CommandView {
            cmd: command_name(marked),
            args: trimmed_start(after),
        }),
{
    law_marked_text_is_read(before, marked, after, entity);
}

/// Every text whose spans start and end between characters can be read.
pub proof fn law_whole_characters_are_readable(body: FormattedTextView)
    requires
        forall|i: int|
            0 <= i < body.entities.len() ==> (#[trigger] body.entities[i]).offset
                + body.entities[i].length <= usize::MAX && utf16_boundary(
                body.text,
                body.entities[i].offset as int,
            ) && utf16_boundary(body.text, body.entities[i].offset + body.entities[i].length),
    ensures
        body.readable(),
{
    assert forall|i: int| 0 <= i < body.entities.len() implies (
    #[trigger] body.entities[i]).convertible(body.text) && sliceable(
        body.text,
        body.entities[i].start(body.text),
        body.entities[i].end(body.text),
    ) by {
        let entity = body.entities[i];
        let start = entity.offset as int;
        let end = entity.offset + entity.length;
        assert(utf16_boundary(body.text, start) && utf16_boundary(body.text, end));
        let a = choose|k: int| at_utf16(body.text, k, start);
        let b = choose|k: int| at_utf16(body.text, k, end);
        law_entity_text(body.text, entity, a, b);
    }
}

} // verus!
