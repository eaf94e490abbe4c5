use tg_adapter::command::{name_of_command, read_entities};
use tg_adapter::entity::{
    can_slice, offset_resolves, slice, slice_from, EntityKind, MessageEntity,
};
use tg_adapter::event::Command;
use tg_adapter::text::chars_of;
use tg_adapter::update::FormattedText;

fn entity(kind: EntityKind, offset: usize, length: usize) -> MessageEntity {
    MessageEntity { kind, offset, length }
}

fn formatted(text: &str, entities: Vec<MessageEntity>) -> FormattedText {
    FormattedText { text: text.to_string(), entities }
}

fn command(cmd: &str, args: &str) -> Option<Command> {
    Some(Command { cmd: cmd.to_string(), args: args.to_string() })
}

#[test]
fn command_names() {
    assert_eq!(name_of_command("/start"), "start");
    assert_eq!(name_of_command("/start@my_bot"), "start");
    assert_eq!(name_of_command("start"), "start");
    assert_eq!(name_of_command("//start"), "/start");
    assert_eq!(name_of_command("/@bot"), "");
    assert_eq!(name_of_command("/a@b@c"), "a");
    assert_eq!(name_of_command(""), "");
    assert_eq!(name_of_command("/"), "");
}

#[test]
fn command_with_arguments() {
    let body = formatted("/echo@bot  hello world ", vec![entity(EntityKind::BotCommand, 0, 9)]);
    assert!(body.is_readable());
    assert_eq!(read_entities(&body), (vec![], command("echo", "hello world ")));
}

#[test]
fn command_at_the_end_has_no_arguments() {
    let body = formatted("do /stop", vec![entity(EntityKind::BotCommand, 3, 5)]);
    assert_eq!(read_entities(&body), (vec![], command("stop", "")));
}

#[test]
fn first_command_wins() {
    let body = formatted(
        "/a /b",
        vec![entity(EntityKind::BotCommand, 0, 2), entity(EntityKind::BotCommand, 3, 2)],
    );
    assert_eq!(read_entities(&body), (vec![], command("a", "/b")));
}

#[test]
fn mentions_keep_their_order() {
    let body = formatted(
        "@ann and Bob and @eve",
        vec![
            entity(EntityKind::Mention, 0, 4),
            entity(EntityKind::Other, 5, 3),
            entity(EntityKind::TextMention { user_id: 987654321 }, 9, 3),
            entity(EntityKind::Mention, 17, 4),
        ],
    );
    assert!(body.is_readable());
    let at = vec!["@ann".to_string(), "987654321".to_string(), "@eve".to_string()];
    assert_eq!(read_entities(&body), (at, None));
}

#[test]
fn offsets_count_utf16_code_units() {
    // The emoji takes two code units and four bytes, the letter one and two.
    let text = "\u{1f600}\u{e9} /go@x \u{1f600} y @me";
    let body = formatted(
        text,
        vec![entity(EntityKind::BotCommand, 4, 5), entity(EntityKind::Mention, 15, 3)],
    );
    assert!(body.is_readable());
    assert_eq!(
        read_entities(&body),
        (vec!["@me".to_string()], command("go", "\u{1f600} y @me"))
    );
}

#[test]
fn end_behind_the_text_stays_as_it_is() {
    // Three code units and six bytes: the end at four is taken for a byte.
    let body = formatted("\u{e9}\u{e9}\u{e9}", vec![entity(EntityKind::Mention, 0, 4)]);
    assert!(body.is_readable());
    assert_eq!(read_entities(&body), (vec!["\u{e9}\u{e9}".to_string()], None));
    let body = formatted("\u{e9}\u{e9}\u{e9}", vec![entity(EntityKind::Mention, 0, 5)]);
    assert!(!body.is_readable());
    let body = formatted("abc", vec![entity(EntityKind::Mention, 0, 4)]);
    assert!(!body.is_readable());
    let body = formatted("abc", vec![entity(EntityKind::Other, 0, 4)]);
    assert!(body.is_readable());
    assert_eq!(read_entities(&body), (vec![], None));
}

#[test]
fn middle_of_a_surrogate_pair_is_refused() {
    let chars = chars_of("a\u{1f600}b");
    assert!(offset_resolves(&chars, 0));
    assert!(offset_resolves(&chars, 1));
    assert!(!offset_resolves(&chars, 2));
    assert!(offset_resolves(&chars, 3));
    assert!(offset_resolves(&chars, 4));
    assert!(offset_resolves(&chars, 5));
    let body = formatted("a\u{1f600}b", vec![entity(EntityKind::Other, 0, 2)]);
    assert!(!body.is_readable());
    assert!(!entity(EntityKind::Other, usize::MAX, 1).is_convertible(&chars));
}

#[test]
fn only_the_first_command_has_to_fit() {
    let body = formatted(
        "/a",
        vec![entity(EntityKind::BotCommand, 0, 2), entity(EntityKind::BotCommand, 3, 2)],
    );
    assert!(body.is_readable());
    assert_eq!(read_entities(&body), (vec![], command("a", "")));
    let body = formatted("/a", vec![entity(EntityKind::BotCommand, 1, 2)]);
    assert!(!body.is_readable());
}

#[test]
fn slices_are_in_bytes() {
    let text = "a\u{e9}b";
    assert!(can_slice(text, 1, 3));
    assert!(!can_slice(text, 1, 2));
    assert!(!can_slice(text, 3, 1));
    assert!(!can_slice(text, 0, 5));
    assert_eq!(slice(text, 1, 3), "\u{e9}");
    assert_eq!(slice(text, 4, 4), "");
    assert_eq!(slice_from(text, 3), "b");
}
