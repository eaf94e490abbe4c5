use tg_adapter::convert::{
    chat_type, convert_attachments, convert_message, convert_update, largest_photo,
};
use tg_adapter::entity::{EntityKind, MessageEntity};
use tg_adapter::event::{
    ChatType, Command, ContentItem, Event, EventType, FileSource, ImageSource, Message,
};
use tg_adapter::update::{
    ChatKind, FormattedText, IncomingMessage, Payload, PhotoSize, RemoteFile, Update, UpdateKind,
};

fn text(s: &str) -> Option<String> {
    Some(s.to_string())
}

fn bare() -> IncomingMessage {
    IncomingMessage {
        id: 7,
        from: None,
        chat_id: -1001234567890,
        chat_kind: ChatKind::Supergroup,
        reply_to: None,
        text: None,
        caption: None,
        document: None,
        photo: None,
        audio: None,
        video: None,
        animation: None,
        voice: None,
    }
}

fn plain(s: &str) -> Option<FormattedText> {
    Some(FormattedText { text: s.to_string(), entities: vec![] })
}

fn remote(id: &str, name: Option<&str>) -> Option<RemoteFile> {
    Some(RemoteFile { file_id: id.to_string(), file_name: name.map(|s| s.to_string()) })
}

fn photo(id: &str, width: u32, height: u32) -> PhotoSize {
    PhotoSize { file_id: id.to_string(), width, height }
}

fn file(id: &str, name: Option<&str>) -> ContentItem {
    ContentItem::File {
        source: FileSource::Id(id.to_string()),
        file_name: name.map(|s| s.to_string()),
        file_id: text(id),
    }
}

fn image(id: &str, caption: Option<&str>) -> ContentItem {
    ContentItem::Image {
        source: ImageSource::Id(id.to_string()),
        file_id: text(id),
        caption: caption.map(|s| s.to_string()),
    }
}

fn event(message: Message) -> Event {
    Event {
        event_type: EventType::Message,
        source: "tg-adapter".to_string(),
        data: "Message".to_string(),
        command: None,
        message: Some(message),
        sender: text("TGAdapter"),
        receiver: None,
    }
}

#[test]
fn text_message_becomes_an_event() {
    let msg = IncomingMessage { from: Some(42), reply_to: Some(6), text: plain("hi"), ..bare() };
    let update = Update { kind: UpdateKind::Message(msg) };
    assert!(update.is_convertible());
    let message = Message {
        id: text("7"),
        reply_to: text("6"),
        content: vec![ContentItem::Text("hi".to_string())],
        from: text("42"),
        to: text("-1001234567890"),
        at: vec![],
        chat_type: Some(ChatType::Group),
    };
    assert_eq!(convert_update(&update), Some(event(message)));
}

#[test]
fn bare_message_becomes_an_event_without_content() {
    let update = Update { kind: UpdateKind::Message(bare()) };
    let message = Message {
        id: text("7"),
        reply_to: None,
        content: vec![],
        from: None,
        to: text("-1001234567890"),
        at: vec![],
        chat_type: Some(ChatType::Group),
    };
    assert_eq!(convert_update(&update), Some(event(message)));
}

#[test]
fn command_makes_a_command_event() {
    let body = FormattedText {
        text: "/ban @bob now".to_string(),
        entities: vec![
            MessageEntity { kind: EntityKind::BotCommand, offset: 0, length: 4 },
            MessageEntity { kind: EntityKind::Mention, offset: 5, length: 4 },
        ],
    };
    let msg = IncomingMessage { text: Some(body), chat_kind: ChatKind::Private, ..bare() };
    let event = convert_update(&Update { kind: UpdateKind::EditedMessage(msg) }).unwrap();
    assert_eq!(event.event_type, EventType::Command);
    assert_eq!(event.data, "EditedMessage");
    assert_eq!(
        event.command,
        Some(Command { cmd: "ban".to_string(), args: "@bob now".to_string() })
    );
    let message = event.message.unwrap();
    assert_eq!(message.at, vec!["@bob".to_string()]);
    assert_eq!(message.chat_type, Some(ChatType::Private));
    assert_eq!(message.content, vec![ContentItem::Text("/ban @bob now".to_string())]);
}

#[test]
fn caption_stands_in_for_the_text() {
    let caption = FormattedText {
        text: "/see this".to_string(),
        entities: vec![MessageEntity { kind: EntityKind::BotCommand, offset: 0, length: 4 }],
    };
    let msg = IncomingMessage {
        caption: Some(caption),
        photo: Some(vec![photo("p", 10, 10)]),
        ..bare()
    };
    let update = Update { kind: UpdateKind::ChannelPost(msg.clone()) };
    let event = convert_message(&update, &msg).unwrap();
    assert_eq!(event.event_type, EventType::Command);
    assert_eq!(event.data, "ChannelPost");
    assert_eq!(
        event.command,
        Some(Command { cmd: "see".to_string(), args: "this".to_string() })
    );
    assert_eq!(
        event.message.unwrap().content,
        vec![ContentItem::Text("/see this".to_string()), image("p", Some("/see this"))]
    );
}

#[test]
fn attachments_come_in_a_fixed_order() {
    let msg = IncomingMessage {
        caption: plain("c"),
        voice: text("v"),
        animation: remote("g", None),
        video: remote("f", Some("f.mp4")),
        audio: remote("a", Some("a.mp3")),
        photo: Some(vec![photo("s", 1, 1), photo("l", 2, 2)]),
        document: remote("d", Some("d.pdf")),
        ..bare()
    };
    assert_eq!(
        convert_attachments(&msg),
        vec![
            file("d", Some("d.pdf")),
            image("l", Some("c")),
            file("a", Some("a.mp3")),
            file("f", Some("f.mp4")),
            file("g", None),
            file("v", Some("voice.ogg")),
        ]
    );
    assert_eq!(convert_attachments(&bare()), vec![]);
    assert_eq!(convert_attachments(&IncomingMessage { photo: Some(vec![]), ..bare() }), vec![]);
    assert_eq!(
        convert_attachments(&IncomingMessage { photo: Some(vec![photo("x", 1, 1)]), ..bare() }),
        vec![image("x", None)]
    );
}

#[test]
fn largest_photo_is_taken() {
    let photos = vec![photo("a", 90, 90), photo("b", 320, 200), photo("c", 200, 320), photo("d", 1, 9)];
    assert_eq!(largest_photo(&photos), Some(&photos[2]));
    assert_eq!(largest_photo(&vec![]), None);
    let photos = vec![photo("a", 5, 0), photo("b", 0, 9)];
    assert_eq!(largest_photo(&photos), Some(&photos[1]));
}

#[test]
fn chats_are_of_three_types() {
    assert_eq!(chat_type(ChatKind::Private), ChatType::Private);
    assert_eq!(chat_type(ChatKind::Group), ChatType::Group);
    assert_eq!(chat_type(ChatKind::Supergroup), ChatType::Group);
    assert_eq!(chat_type(ChatKind::Channel), ChatType::Guild);
}

#[test]
fn empty_text_is_no_content() {
    let msg = IncomingMessage { text: plain(""), caption: plain("c"), ..bare() };
    let event = convert_update(&Update { kind: UpdateKind::BusinessMessage(msg) }).unwrap();
    assert_eq!(event.data, "BusinessMessage");
    assert_eq!(event.message.unwrap().content, vec![]);
}

#[test]
fn misfits_are_recognised() {
    let wide = IncomingMessage { photo: Some(vec![photo("a", 65536, 65536)]), ..bare() };
    assert!(!wide.is_convertible());
    let fits = IncomingMessage { photo: Some(vec![photo("a", 65535, 65537)]), ..bare() };
    assert!(fits.is_convertible());
    let body = FormattedText {
        text: "\u{1f600}".to_string(),
        entities: vec![MessageEntity { kind: EntityKind::Other, offset: 1, length: 1 }],
    };
    let split = IncomingMessage { text: Some(body.clone()), ..bare() };
    assert!(!split.is_convertible());
    assert!(!Update { kind: UpdateKind::EditedChannelPost(split) }.is_convertible());
    // A caption is not read where there is a text.
    let unread = IncomingMessage { text: plain("t"), caption: Some(body), ..bare() };
    assert!(unread.is_convertible());
    assert!(Update { kind: UpdateKind::Poll(Payload { json: None }) }.is_convertible());
}

#[test]
fn message_updates_by_name() {
    let kinds = vec![
        (UpdateKind::Message(bare()), "Message"),
        (UpdateKind::EditedMessage(bare()), "EditedMessage"),
        (UpdateKind::ChannelPost(bare()), "ChannelPost"),
        (UpdateKind::EditedChannelPost(bare()), "EditedChannelPost"),
        (UpdateKind::BusinessMessage(bare()), "BusinessMessage"),
        (UpdateKind::EditedBusinessMessage(bare()), "EditedBusinessMessage"),
    ];
    for (kind, name) in kinds {
        let event = convert_update(&Update { kind }).unwrap();
        assert_eq!(event.data, name);
        assert_eq!(event.event_type, EventType::Message);
        assert!(event.message.is_some());
    }
}

#[test]
fn other_updates_by_name() {
    let p = || Payload { json: Some("{}".to_string()) };
    let kinds = vec![
        (UpdateKind::BusinessConnection(p()), "BusinessConnection"),
        (UpdateKind::DeletedBusinessMessages(p()), "DeletedBusinessMessages"),
        (UpdateKind::MessageReaction(p()), "MessageReaction"),
        (UpdateKind::MessageReactionCount(p()), "MessageReactionCount"),
        (UpdateKind::InlineQuery(p()), "InlineQuery"),
        (UpdateKind::ChosenInlineResult(p()), "ChosenInlineResult"),
        (UpdateKind::CallbackQuery(p()), "CallbackQuery"),
        (UpdateKind::ShippingQuery(p()), "ShippingQuery"),
        (UpdateKind::PreCheckoutQuery(p()), "PreCheckoutQuery"),
        (UpdateKind::PurchasedPaidMedia(p()), "PurchasedPaidMedia"),
        (UpdateKind::Poll(p()), "Poll"),
        (UpdateKind::PollAnswer(p()), "PollAnswer"),
        (UpdateKind::MyChatMember(p()), "MyChatMember"),
        (UpdateKind::ChatMember(p()), "ChatMember"),
        (UpdateKind::ChatJoinRequest(p()), "ChatJoinRequest"),
        (UpdateKind::ChatBoost(p()), "ChatBoost"),
        (UpdateKind::RemovedChatBoost(p()), "RemovedChatBoost"),
        (UpdateKind::Error(p()), "Error"),
    ];
    for (kind, name) in kinds {
        assert_eq!(
            convert_update(&Update { kind }),
            Some(Event {
                event_type: EventType::Other(name.to_string()),
                source: "tg-adapter".to_string(),
                data: "{}".to_string(),
                command: None,
                message: None,
                sender: text("TGAdapter"),
                receiver: None,
            })
        );
    }
}

#[test]
fn update_that_cannot_be_serialised_has_no_data() {
    let update = Update { kind: UpdateKind::Poll(Payload { json: None }) };
    assert_eq!(convert_update(&update).unwrap().data, "");
}
