//! What holds of updates that become events: each law speaks of what Telegram
//! delivers and of what the event holds.

use crate::command::mentions;
use crate::convert::{
    attachments, file_items, is_largest, largest, lemma_largest_unique, photo_items, text_items,
    update_event, voice_items,
};
use crate::decimal::int_text;
use crate::entity::{law_marked_text_is_read, utf16_boundary, utf16_len, EntityKind, MessageEntity};
use crate::event::{
    ChatType, CommandView, ContentItemView, EventTypeView, EventView, FileSourceView, ImageSourceView,
};
use crate::laws::{
    law_command_name, law_first_command_wins, law_marked_command_is_read,
    law_whole_characters_are_readable,
};
use crate::laws_text::{law_command_without_slash, law_trimming_front};
use crate::text::{blank, whitespace};
use crate::update::{
    ChatKind, FormattedTextView, IncomingMessageView, PhotoSizeView, UpdateBody, UpdateView,
};
use vstd::prelude::*;

verus! {

/// The event for a message that came in an update of the kind `name`.
pub open spec fn event_of(name: Seq<char>, m: IncomingMessageView) -> EventView {
    update_event(UpdateView { name, body: UpdateBody::Message(m) })
}

/// Whether `body` is what a message says: its text, or its caption where it has
/// no text.
pub open spec fn says(m: IncomingMessageView, body: FormattedTextView) -> bool {
    m.text == Some(body) || (m.text is None && m.caption == Some(body))
}

/// Whether a message says nothing.
pub open spec fn says_nothing(m: IncomingMessageView) -> bool {
    m.text is None && m.caption is None
}

/// Whether `entity` marks `marked` where `before` stands before it.
pub open spec fn marks(entity: MessageEntity, before: Seq<char>, marked: Seq<char>) -> bool {
    &&& entity.offset == utf16_len(before)
    &&& entity.length == utf16_len(marked)
    &&& utf16_len(before) + utf16_len(marked) <= usize::MAX
}

/// A message whose first command span, at `i`, marks a command becomes a
/// command event, wherever in the text or caption the command stands. `slash`
/// is the slash, if there is one; `tail` is the `@` and the bot that the
/// command is addressed to, if there are any; `gap` is whitespace. The event
/// has the command's name, and as arguments everything behind the gap.
pub proof fn law_command_is_read(
    name: Seq<char>,
    m: IncomingMessageView,
    body: FormattedTextView,
    i: int,
    before: Seq<char>,
    slash: Seq<char>,
    cmd: Seq<char>,
    tail: Seq<char>,
    gap: Seq<char>,
    args: Seq<char>,
)
    requires
        says(m, body),
        body.text == before + (slash + cmd + tail) + (gap + args),
        0 <= i < body.entities.len(),
        body.entities[i].kind is BotCommand,
        forall|j: int| 0 <= j < i ==> !((#[trigger] body.entities[j]).kind is BotCommand),
        marks(body.entities[i], before, slash + cmd + tail),
        slash == seq!['/'] || slash == Seq::<char>::empty(),
        slash.len() == 0 && (cmd + tail).len() > 0 ==> (cmd + tail)[0] != '/',
        !cmd.contains('@'),
        tail.len() > 0 ==> tail[0] == '@',
        blank(gap),
        args.len() > 0 ==> !whitespace(args[0]),
    ensures
        event_of(name, m).event_type == EventTypeView::Command,
        event_of(name, m).command == Some(CommandView { cmd, args }),
{
    let marked = slash + cmd + tail;
    let after = gap + args;
    assert(body.is_first_command(i));
    law_first_command_wins(body, i);
    law_marked_command_is_read(before, marked, after, body.entities[i]);
    law_trimming_front(gap, args);
    let bot = if tail.len() > 0 {
        tail.skip(1)
    } else {
        tail
    };
    assert(tail.len() > 0 ==> tail == seq!['@'] + bot);
    if slash.len() == 1 {
        law_command_name(cmd, bot);
        assert(tail.len() > 0 ==> marked == seq!['/'] + cmd + seq!['@'] + bot);
        assert(tail.len() == 0 ==> marked == seq!['/'] + cmd);
    } else {
        assert(marked == cmd + tail);
        law_command_without_slash(cmd, tail);
    }
}

/// An event is a command event exactly where some span of what the message
/// says marks a command; it holds a command exactly then.
pub proof fn law_commands_come_from_spans(
    name: Seq<char>,
    m: IncomingMessageView,
    body: FormattedTextView,
)
    ensures
        says(m, body) ==> ((event_of(name, m).command is Some) <==> (exists|k: int|
            0 <= k < body.entities.len() && (#[trigger] body.entities[k]).kind is BotCommand)),
        says_nothing(m) ==> event_of(name, m).command is None,
        event_of(name, m).event_type == (if event_of(name, m).command is Some {
            EventTypeView::Command
        } else {
            EventTypeView::Message
        }),
{
    law_first_command_wins(body, 0);
}

/// How many of the spans mention somebody.
pub open spec fn mention_count(entities: Seq<MessageEntity>) -> nat
    decreases entities.len(),
{
    if entities.len() == 0 {
        0
    } else {
        mention_count(entities.drop_last()) + if entities.last().kind is Mention
            || entities.last().kind is TextMention {
            1nat
        } else {
            0
        }
    }
}

/// The mention of each span stands where the spans before it put it.
proof fn lemma_mention_at(text: Seq<char>, entities: Seq<MessageEntity>, i: int)
    requires
        0 <= i < entities.len(),
    ensures
        mentions(text, entities).len() == mention_count(entities),
        entities[i].kind is Mention || entities[i].kind is TextMention ==> {
            let at = mention_count(entities.take(i)) as int;
            &&& at < mention_count(entities)
            &&& mentions(text, entities)[at] == match entities[i].kind {
                EntityKind::TextMention { user_id } => int_text(user_id as int),
                _ => entities[i].text(text),
            }
        },
    decreases entities.len(),
{
    let rest = entities.drop_last();
    if i < rest.len() {
        lemma_mention_at(text, rest, i);
        assert(rest.take(i) == entities.take(i));
        assert(rest[i] == entities[i]);
    } else {
        lemma_mention_len(text, rest);
        assert(rest == entities.take(i));
        assert(entities.last() == entities[i]);
    }
    lemma_mention_len(text, entities);
}

proof fn lemma_mention_len(text: Seq<char>, entities: Seq<MessageEntity>)
    ensures
        mentions(text, entities).len() == mention_count(entities),
    decreases entities.len(),
{
    if entities.len() > 0 {
        lemma_mention_len(text, entities.drop_last());
    }
}

/// Whoever a mention span of the text or caption marks is in the event's list,
/// as marked, behind those whom the spans before it mention.
pub proof fn law_mention_is_read(
    name: Seq<char>,
    m: IncomingMessageView,
    body: FormattedTextView,
    i: int,
    before: Seq<char>,
    marked: Seq<char>,
    after: Seq<char>,
)
    requires
        says(m, body),
        body.text == before + marked + after,
        0 <= i < body.entities.len(),
        body.entities[i].kind is Mention,
        marks(body.entities[i], before, marked),
    ensures
        event_of(name, m).message matches Some(msg) && {
            let at = mention_count(body.entities.take(i)) as int;
            &&& at < msg.at.len()
            &&& msg.at[at] == marked
        },
{
    lemma_mention_at(body.text, body.entities, i);
    law_marked_text_is_read(before, marked, after, body.entities[i]);
}

/// A user without a username whom a span of the text or caption mentions is in
/// the event's list by the identifier, behind those whom the spans before it
/// mention.
pub proof fn law_text_mention_is_read(
    name: Seq<char>,
    m: IncomingMessageView,
    body: FormattedTextView,
    i: int,
    user_id: u64,
)
    requires
        says(m, body),
        0 <= i < body.entities.len(),
        body.entities[i].kind == (EntityKind::TextMention { user_id }),
    ensures
        event_of(name, m).message matches Some(msg) && {
            let at = mention_count(body.entities.take(i)) as int;
            &&& at < msg.at.len()
            &&& msg.at[at] == int_text(user_id as int)
        },
{
    lemma_mention_at(body.text, body.entities, i);
}

/// Nobody is in the event's list but those whom the spans mention.
pub proof fn law_nobody_else_is_mentioned(
    name: Seq<char>,
    m: IncomingMessageView,
    body: FormattedTextView,
)
    ensures
        event_of(name, m).message matches Some(msg) && (says(m, body) ==> msg.at.len()
            == mention_count(body.entities)) && (says_nothing(m) ==> msg.at.len() == 0),
{
    lemma_mention_len(body.text, body.entities);
}

/// Of the sizes of a photo the one with the most pixels is taken, the last one
/// where several have as many.
pub proof fn law_most_pixels(photos: Seq<PhotoSizeView>, i: int)
    requires
        0 <= i < photos.len(),
        forall|j: int|
            0 <= j < photos.len() ==> (#[trigger] photos[j]).width * photos[j].height
                <= photos[i].width * photos[i].height,
        forall|j: int|
            i < j < photos.len() ==> (#[trigger] photos[j]).width * photos[j].height
                < photos[i].width * photos[i].height,
    ensures
        largest(photos) == photos[i],
{
    assert(is_largest(photos, i));
    lemma_largest_unique(photos, i);
}

/// One for what is there, none for what is not.
pub open spec fn one(there: bool) -> int {
    if there {
        1
    } else {
        0
    }
}

/// Whether an item is the file `file_id` on Telegram's servers, named
/// `file_name`.
pub open spec fn is_file(
    item: ContentItemView,
    file_id: Seq<char>,
    file_name: Option<Seq<char>>,
) -> bool {
    item == (ContentItemView::File {
        source: FileSourceView::Id(file_id),
        file_name,
        file_id: Some(file_id),
    })
}

/// Each attachment becomes one item, and nothing else does: the document, the
/// photo, the audio, the video, the animation and the voice message, in this
/// order. Files keep their identifiers and names; of a photo the size `i` with
/// the most pixels is taken, with the caption; a voice message is named.
pub proof fn law_attachments(m: IncomingMessageView, i: int)
    requires
        m.photo matches Some(photos) ==> photos.len() > 0 ==> {
            &&& 0 <= i < photos.len()
            &&& forall|j: int|
                0 <= j < photos.len() ==> (#[trigger] photos[j]).width * photos[j].height
                    <= photos[i].width * photos[i].height
            &&& forall|j: int|
                i < j < photos.len() ==> (#[trigger] photos[j]).width * photos[j].height
                    < photos[i].width * photos[i].height
        },
    ensures
        ({
            let items = attachments(m);
            let d = one(m.document is Some);
            let p = d + one(m.photo is Some && m.photo->0.len() > 0);
            let a = p + one(m.audio is Some);
            let v = a + one(m.video is Some);
            let g = v + one(m.animation is Some);
            &&& items.len() == g + one(m.voice is Some)
            &&& m.document matches Some(f) ==> is_file(items[0], f.file_id, f.file_name)
            &&& m.photo matches Some(photos) ==> photos.len() > 0 ==> items[d] == (
            ContentItemView::Image {
                source: ImageSourceView::Id(photos[i].file_id),
                file_id: Some(photos[i].file_id),
                caption: if m.caption is Some {
                    Some(m.caption->0.text)
                } else {
                    None
                },
            })
            &&& m.audio matches Some(f) ==> is_file(items[p], f.file_id, f.file_name)
            &&& m.video matches Some(f) ==> is_file(items[a], f.file_id, f.file_name)
            &&& m.animation matches Some(f) ==> is_file(items[v], f.file_id, f.file_name)
            &&& m.voice matches Some(id) ==> is_file(items[g], id, Some("voice.ogg"@))
        }),
{
    if let Some(photos) = m.photo {
        if photos.len() > 0 {
            law_most_pixels(photos, i);
        }
    }
}

/// The content of the event is what the message says, where that is not empty,
/// and then the attachments.
pub proof fn law_content(name: Seq<char>, m: IncomingMessageView, body: FormattedTextView, k: int)
    requires
        says(m, body) || says_nothing(m),
    ensures
        event_of(name, m).message matches Some(msg) && {
            let t = one(says(m, body) && body.text.len() > 0);
            &&& msg.content.len() == t + attachments(m).len()
            &&& t == 1 ==> msg.content[0] == ContentItemView::Text(body.text)
            &&& 0 <= k < attachments(m).len() ==> msg.content[t + k] == attachments(m)[k]
        },
{
}

/// The event for a message with a photo holds exactly one image: the size with
/// the most pixels, with the caption.
pub proof fn law_one_image(
    name: Seq<char>,
    m: IncomingMessageView,
    photos: Seq<PhotoSizeView>,
    i: int,
    body: FormattedTextView,
)
    requires
        m.photo == Some(photos),
        0 <= i < photos.len(),
        forall|j: int|
            0 <= j < photos.len() ==> (#[trigger] photos[j]).width * photos[j].height
                <= photos[i].width * photos[i].height,
        forall|j: int|
            i < j < photos.len() ==> (#[trigger] photos[j]).width * photos[j].height
                < photos[i].width * photos[i].height,
        says(m, body) || says_nothing(m),
    ensures
        event_of(name, m).message matches Some(msg) && {
            let at = one(says(m, body) && body.text.len() > 0) + one(m.document is Some);
            &&& 0 <= at < msg.content.len()
            &&& msg.content[at] matches ContentItemView::Image { file_id, .. } && file_id == Some(
                photos[i].file_id,
            )
            &&& forall|k: int|
                0 <= k < msg.content.len() && (#[trigger] msg.content[k]) is Image ==> k == at
        },
{
    law_attachments(m, i);
    let text = if says(m, body) && body.text.len() > 0 {
        seq![ContentItemView::Text(body.text)]
    } else {
        seq![]
    };
    assert(text_items(m) == text);
    lemma_one_image_attached(m, photos);
    lemma_image_behind(text, attachments(m), one(m.document is Some));
}

/// Whether the item at `d` is the only one that may be an image.
spec fn image_only_at(items: Seq<ContentItemView>, d: int) -> bool {
    forall|k: int| 0 <= k < items.len() && (#[trigger] items[k]) is Image ==> k == d
}

/// Items without an image make no difference behind others.
proof fn lemma_no_image_behind(a: Seq<ContentItemView>, b: Seq<ContentItemView>, d: int)
    requires
        image_only_at(a, d),
        image_only_at(b, -1),
    ensures
        image_only_at(a + b, d),
{
    assert forall|k: int| 0 <= k < (a + b).len() && (#[trigger] (a + b)[k]) is Image implies k
        == d by {
        if k < a.len() {
            assert((a + b)[k] == a[k]);
        } else {
            assert((a + b)[k] == b[k - a.len()]);
        }
    }
}

/// Of the attachments only the photo is an image.
proof fn lemma_one_image_attached(m: IncomingMessageView, photos: Seq<PhotoSizeView>)
    requires
        m.photo == Some(photos),
        photos.len() > 0,
    ensures
        image_only_at(attachments(m), one(m.document is Some)),
{
    let d = one(m.document is Some);
    let a1 = file_items(m.document) + photo_items(m.photo, m.caption);
    let a2 = a1 + file_items(m.audio);
    let a3 = a2 + file_items(m.video);
    let a4 = a3 + file_items(m.animation);
    assert(image_only_at(a1, d));
    lemma_no_image_behind(a1, file_items(m.audio), d);
    lemma_no_image_behind(a2, file_items(m.video), d);
    lemma_no_image_behind(a3, file_items(m.animation), d);
    lemma_no_image_behind(a4, voice_items(m.voice), d);
}

/// Items with one image, put behind items without one, are items with one
/// image.
proof fn lemma_image_behind(a: Seq<ContentItemView>, b: Seq<ContentItemView>, d: int)
    requires
        0 <= d < b.len(),
        forall|k: int| 0 <= k < a.len() ==> !((#[trigger] a[k]) is Image),
        forall|k: int| 0 <= k < b.len() && (#[trigger] b[k]) is Image ==> k == d,
    ensures
        (a + b)[a.len() + d] == b[d],
        forall|k: int|
            0 <= k < (a + b).len() && (#[trigger] (a + b)[k]) is Image ==> k == a.len() + d,
{
    assert forall|k: int| 0 <= k < (a + b).len() && (#[trigger] (a + b)[k]) is Image implies k
        == a.len() + d by {
        if k < a.len() {
            assert((a + b)[k] == a[k]);
        } else {
            assert((a + b)[k] == b[k - a.len()]);
        }
    }
}

/// An event tells which message it is for, who sent it, which chat it came
/// from, which message it replies to and what chat that is.
pub proof fn law_message_is_identified(name: Seq<char>, m: IncomingMessageView)
    ensures
        event_of(name, m).message matches Some(msg) && {
            &&& msg.id == Some(int_text(m.id as int))
            &&& msg.to == Some(int_text(m.chat_id as int))
            &&& m.from matches Some(id) ==> msg.from == Some(int_text(id as int))
            &&& m.from is None ==> msg.from is None
            &&& m.reply_to matches Some(id) ==> msg.reply_to == Some(int_text(id as int))
            &&& m.reply_to is None ==> msg.reply_to is None
            &&& m.chat_kind == ChatKind::Private ==> msg.chat_type == Some(ChatType::Private)
            &&& m.chat_kind == ChatKind::Group ==> msg.chat_type == Some(ChatType::Group)
            &&& m.chat_kind == ChatKind::Supergroup ==> msg.chat_type == Some(ChatType::Group)
            &&& m.chat_kind == ChatKind::Channel ==> msg.chat_type == Some(ChatType::Guild)
        },
        event_of(name, m).data == name,
        event_of(name, m).source == "tg-adapter"@,
        event_of(name, m).sender == Some("TGAdapter"@),
        event_of(name, m).receiver is None,
{
}

/// The event for an update without a message holds the update in JSON, as it
/// is; nothing where there is no JSON.
pub proof fn law_payload_is_kept(name: Seq<char>, json: Seq<char>)
    ensures
        ({
            let event = update_event(UpdateView { name, body: UpdateBody::Payload(Some(json)) });
            &&& event.data == json
            &&& event.event_type == EventTypeView::Other(name)
            &&& event.command is None
            &&& event.message is None
            &&& event.source == "tg-adapter"@
            &&& event.sender == Some("TGAdapter"@)
            &&& event.receiver is None
        }),
        ({
            let event = update_event(UpdateView { name, body: UpdateBody::Payload(None) });
            &&& event.data == Seq::<char>::empty()
            &&& event.event_type == EventTypeView::Other(name)
            &&& event.command is None
            &&& event.message is None
            &&& event.source == "tg-adapter"@
            &&& event.sender == Some("TGAdapter"@)
            &&& event.receiver is None
        }),
{
}

/// A message can be converted where its spans start and end between
/// characters and no size of its photo has more pixels than 32 bits can count.
pub proof fn law_ordinary_message_is_convertible(m: IncomingMessageView, body: FormattedTextView)
    requires
        says(m, body) || says_nothing(m),
        forall|i: int|
            0 <= i < body.entities.len() ==> (#[trigger] body.entities[i]).offset
                + body.entities[i].length <= usize::MAX && utf16_boundary(
                body.text,
                body.entities[i].offset as int,
            ) && utf16_boundary(body.text, body.entities[i].offset + body.entities[i].length),
        m.photo matches Some(photos) ==> forall|i: int|
            0 <= i < photos.len() ==> (#[trigger] photos[i]).width * photos[i].height <= u32::MAX,
    ensures
        m.convertible(),
{
    law_whole_characters_are_readable(body);
}

} // verus!
