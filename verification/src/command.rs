//! Mentions and commands: what the marked spans of a text say.

use crate::decimal::{int_text, u64_text};
use crate::entity::{
    byte_len, can_slice, entity_ranges, slice, slice_from, sliceable, text_slice, EntityKind,
    MessageEntity,
};
use crate::event::{Command, CommandView};
use crate::text::{chars_of, find_char, index_of, trim_start, trimmed_start};
use crate::update::{FormattedText, FormattedTextView};
use vstd::prelude::*;

verus! {

/// The name in the text of a command: without the slash in front, and without
/// the bot that it is addressed to (from the first `@` on).
pub open spec fn command_name(raw: Seq<char>) -> Seq<char> {
    let stripped = if raw.len() > 0 && raw[0] == '/' {
        raw.skip(1)
    } else {
        raw
    };
    stripped.take(index_of(stripped, '@') as int)
}

/// The command that `entity` marks in `text`: its name, and as its arguments
/// the text behind it, without whitespace in front.
pub open spec fn command_at(text: Seq<char>, entity: MessageEntity) -> CommandView {
    CommandView {
        cmd: command_name(entity.text(text)),
        args: trimmed_start(text_slice(text, entity.end(text), byte_len(text))),
    }
}

/// The command of a text: the one that its first command span marks.
pub open spec fn first_command(text: Seq<char>, entities: Seq<MessageEntity>) -> Option<CommandView>
    decreases entities.len(),
{
    if entities.len() == 0 {
        None
    } else {
        match first_command(text, entities.drop_last()) {
            Some(command) => Some(command),
            None => if entities.last().kind is BotCommand {
                Some(command_at(text, entities.last()))
            } else {
                None
            },
        }
    }
}

/// Who is mentioned, in the order of the spans: a username as it stands in the
/// text, a user without one by the identifier.
pub open spec fn mentions(text: Seq<char>, entities: Seq<MessageEntity>) -> Seq<Seq<char>>
    decreases entities.len(),
{
    if entities.len() == 0 {
        Seq::empty()
    } else {
        let before = mentions(text, entities.drop_last());
        match entities.last().kind {
            EntityKind::Mention => before.push(entities.last().text(text)),
            EntityKind::TextMention { user_id } => before.push(int_text(user_id as int)),
            _ => before,
        }
    }
}

impl FormattedTextView {
    /// Whether the span at `i` is the first that marks a command.
    pub open spec fn is_first_command(self, i: int) -> bool {
        &&& 0 <= i < self.entities.len()
        &&& self.entities[i].kind is BotCommand
        &&& forall|j: int| 0 <= j < i ==> !((#[trigger] self.entities[j]).kind is BotCommand)
    }

    /// Whether the spans fit the text: every end can be converted to bytes,
    /// and the spans whose text is read (the mentions and the first command)
    /// can be cut out.
    pub open spec fn readable(self) -> bool {
        &&& forall|i: int|
            0 <= i < self.entities.len() ==> (#[trigger] self.entities[i]).convertible(self.text)
        &&& forall|i: int|
            0 <= i < self.entities.len() && ((#[trigger] self.entities[i]).kind is Mention
                || self.is_first_command(i)) ==> sliceable(
                self.text,
                self.entities[i].start(self.text),
                self.entities[i].end(self.text),
            )
    }
}

/// The name in the text of a command.
pub fn name_of_command(raw: &str) -> (res: &str)
    ensures
        res@ == command_name(raw@),
{
    let chars = chars_of(raw);
    let start: usize = if chars.len() > 0 && chars[0] == '/' { 1 } else { 0 };
    let end = find_char(&chars, start, '@');
    proof {
        assert(raw@.skip(0) == raw@);
        assert(raw@.skip(start as int).take(end - start) == raw@.subrange(start as int, end as int));
    }
    raw.substring_char(start, end)
}

/// The command that stands in `text` between two byte offsets, and its
/// arguments.
fn read_command(text: &str, start: usize, end: usize) -> (res: Command)
    requires
        sliceable(text@, start as int, end as int),
    ensures
        res.deep_view() == (CommandView {
            cmd: command_name(text_slice(text@, start as int, end as int)),
            args: trimmed_start(text_slice(text@, end as int, byte_len(text@))),
        }),
{
    let cmd = name_of_command(slice(text, start, end)).to_owned();
    let args = trim_start(slice_from(text, end)).to_owned();
    Command { cmd, args }
}

/// A text's spans, read: who is mentioned, and the command if there is one.
pub fn read_entities(body: &FormattedText) -> (res: (Vec<String>, Option<Command>))
    requires
        body.deep_view().readable(),
    ensures
        res.0.deep_view() == mentions(body.text@, body.entities@),
        res.1.deep_view() == first_command(body.text@, body.entities@),
{
    let text = body.text.as_str();
    let entities = &body.entities;
    let ranges = entity_ranges(text, entities);
    let mut at: Vec<String> = Vec::new();
    let mut command: Option<Command> = None;
    let mut i: usize = 0;
    while i < entities.len()
        invariant
            i <= entities@.len(),
            *entities == body.entities,
            text@ == body.text@,
            body.deep_view().readable(),
            ranges@.len() == entities@.len(),
            forall|k: int|
                0 <= k < entities@.len() ==> (#[trigger] ranges@[k]).0 == entities@[k].start(text@)
                    && ranges@[k].1 == entities@[k].end(text@),
            at.deep_view() == mentions(text@, entities@.take(i as int)),
            command.deep_view() == first_command(text@, entities@.take(i as int)),
            command is None ==> forall|j: int|
                0 <= j < i ==> !((#[trigger] body.deep_view().entities[j]).kind is BotCommand),
        decreases entities@.len() - i,
    {
        let ghost seen = entities@.take(i + 1);
        let ghost before = at.deep_view();
        assert(seen.drop_last() == entities@.take(i as int));
        assert(seen.last() == entities@[i as int]);
        assert(body.deep_view().entities[i as int] == entities@[i as int]);
        let (start, end) = ranges[i];
        assert(start == entities@[i as int].start(text@));
        match entities[i].kind {
            EntityKind::Mention => {
                at.push(slice(text, start, end).to_owned());
                assert(at.deep_view() == before.push(entities@[i as int].text(text@)));
            },
            EntityKind::TextMention { user_id } => {
                at.push(u64_text(user_id));
                assert(at.deep_view() == before.push(int_text(user_id as int)));
            },
            EntityKind::BotCommand => {
                if command.is_none() {
                    assert(body.deep_view().is_first_command(i as int));
                    command = Some(read_command(text, start, end));
                }
            },
            EntityKind::Other => {},
        }
        i = i + 1;
    }
    assert(entities@.take(i as int) == entities@);
    (at, command)
}

impl FormattedText {
    /// Whether the spans fit the text.
    pub fn is_readable(&self) -> (res: bool)
        ensures
            res == self.deep_view().readable(),
    {
        let text = self.text.as_str();
        let entities = &self.entities;
        let chars = chars_of(text);
        let ghost view = self.deep_view();
        let mut i: usize = 0;
        while i < entities.len()
            invariant
                i <= entities@.len(),
                *entities == self.entities,
                chars@ == self.text@,
                view == self.deep_view(),
                forall|k: int| 0 <= k < i ==> (#[trigger] view.entities[k]).convertible(view.text),
            decreases entities@.len() - i,
        {
            assert(view.entities[i as int] == entities@[i as int]);
            if !entities[i].is_convertible(&chars) {
                return false;
            }
            i = i + 1;
        }
        let ranges = entity_ranges(text, entities);
        let mut commanded = false;
        let mut i: usize = 0;
        while i < entities.len()
            invariant
                i <= entities@.len(),
                *entities == self.entities,
                text@ == self.text@,
                view == self.deep_view(),
                ranges@.len() == entities@.len(),
                forall|k: int|
                    0 <= k < entities@.len() ==> (#[trigger] view.entities[k]).convertible(
                        view.text,
                    ),
                forall|k: int|
                    0 <= k < entities@.len() ==> (#[trigger] ranges@[k]).0 == entities@[k].start(
                        text@,
                    ) && ranges@[k].1 == entities@[k].end(text@),
                commanded == exists|j: int|
                    0 <= j < i && (#[trigger] view.entities[j]).kind is BotCommand,
                forall|k: int|
                    0 <= k < i && ((#[trigger] view.entities[k]).kind is Mention
                        || view.is_first_command(k)) ==> sliceable(
                        view.text,
                        view.entities[k].start(view.text),
                        view.entities[k].end(view.text),
                    ),
            decreases entities@.len() - i,
        {
            assert(view.entities[i as int] == entities@[i as int]);
            let (start, end) = ranges[i];
            assert(start == entities@[i as int].start(text@));
            let read = match entities[i].kind {
                EntityKind::Mention => true,
                EntityKind::BotCommand => !commanded,
                _ => false,
            };
            assert(read == (view.entities[i as int].kind is Mention || view.is_first_command(
                i as int,
            )));
            if read && !can_slice(text, start, end) {
                return false;
            }
            match entities[i].kind {
                EntityKind::BotCommand => {
                    commanded = true;
                },
                _ => {},
            }
            i = i + 1;
        }
        true
    }
}

} // verus!
