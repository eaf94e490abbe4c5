use tg_adapter::convert::convert_update;
use tg_adapter::event::{ContentItem, Event, EventType, FileSource, ImageSource, Message};
use tg_adapter::media::{Base64Error, InputData, InputFile, PrepareError, UrlError};
use tg_adapter::outgoing::{
    reply_parameters, send_item, send_message_items, ReplyParameters, SendError, SendStep,
    SendTask, TelegramAdapter,
};
use tg_adapter::update::{
    ChatKind, FormattedText, IncomingMessage, PhotoSize, RemoteFile, Update, UpdateKind,
};

fn text(s: &str) -> Option<String> {
    Some(s.to_string())
}

fn message(to: Option<&str>, reply_to: Option<&str>, content: Vec<ContentItem>) -> Message {
    Message {
        id: None,
        reply_to: reply_to.map(|s| s.to_string()),
        content,
        from: None,
        to: to.map(|s| s.to_string()),
        at: vec!["@x".to_string()],
        chat_type: None,
    }
}

fn event(message: Option<Message>) -> Event {
    Event {
        event_type: EventType::Message,
        source: String::new(),
        data: String::new(),
        command: None,
        message,
        sender: None,
        receiver: None,
    }
}

fn by_id(id: &str, file_name: Option<&str>) -> InputFile {
    InputFile {
        data: InputData::FileId(id.to_string()),
        file_name: file_name.map(|s| s.to_string()),
    }
}

#[test]
fn replies_go_to_message_numbers() {
    assert_eq!(reply_parameters(Some("12")), Some(ReplyParameters { message_id: 12 }));
    assert_eq!(reply_parameters(Some("-3")), Some(ReplyParameters { message_id: -3 }));
    assert_eq!(reply_parameters(Some("2147483648")), None);
    assert_eq!(reply_parameters(Some("x")), None);
    assert_eq!(reply_parameters(Some("")), None);
    assert_eq!(reply_parameters(None), None);
}

#[test]
fn each_item_becomes_a_step() {
    let msg = message(
        Some("5"),
        Some("9"),
        vec![
            ContentItem::Text("hello".to_string()),
            ContentItem::Text(String::new()),
            ContentItem::File {
                source: FileSource::Id("F".to_string()),
                file_name: text("f.txt"),
                file_id: None,
            },
            ContentItem::Image {
                source: ImageSource::Id("I".to_string()),
                file_id: text(""),
                caption: text("cap"),
            },
            ContentItem::Image {
                source: ImageSource::Id("J".to_string()),
                file_id: None,
                caption: text(""),
            },
            ContentItem::Other { kind: "sticker".to_string() },
        ],
    );
    let reply = Some(ReplyParameters { message_id: 9 });
    assert_eq!(
        send_message_items(5, msg),
        vec![
            SendStep::SendMessage { chat_id: 5, text: "hello".to_string(), reply },
            SendStep::Skip,
            SendStep::SendDocument { chat_id: 5, document: by_id("F", Some("f.txt")), reply },
            SendStep::SendPhoto { chat_id: 5, photo: by_id("I", None), caption: text("cap"), reply },
            SendStep::SendPhoto { chat_id: 5, photo: by_id("J", None), caption: None, reply },
            SendStep::Ignore { kind: "sticker".to_string() },
        ]
    );
    assert_eq!(send_message_items(5, message(None, None, vec![])), vec![]);
}

#[test]
fn what_cannot_be_prepared_is_refused() {
    let item = ContentItem::File {
        source: FileSource::Url("x".to_string()),
        file_name: None,
        file_id: None,
    };
    assert_eq!(
        send_item(1, None, item),
        SendStep::RefuseFile(PrepareError::InvalidFileUrl {
            url: "x".to_string(),
            cause: UrlError::RelativeUrlWithoutBase,
        })
    );
    let item = ContentItem::Image {
        source: ImageSource::Base64("*".to_string()),
        file_id: None,
        caption: text("c"),
    };
    assert_eq!(
        send_item(1, None, item),
        SendStep::RefuseImage(PrepareError::InvalidBase64(Base64Error::InvalidByte(0, b'*')))
    );
}

#[test]
fn event_without_message_is_not_sent() {
    assert_eq!(TelegramAdapter.send(&event(None), Some("bot")), Ok(None));
    assert_eq!(TelegramAdapter.send::<&str>(&event(None), None), Ok(None));
}

#[test]
fn message_needs_a_chat() {
    let e = event(Some(message(None, None, vec![])));
    assert_eq!(TelegramAdapter.send(&e, Some("bot")), Err(SendError::MissingChatId));
    let e = event(Some(message(Some("@channel"), None, vec![])));
    let error = SendError::InvalidChatId("@channel".to_string());
    assert_eq!(TelegramAdapter.send(&e, Some("bot")), Err(error));
    let e = event(Some(message(Some("9223372036854775808"), None, vec![])));
    let error = SendError::InvalidChatId("9223372036854775808".to_string());
    assert_eq!(TelegramAdapter.send::<&str>(&e, None), Err(error));
}

#[test]
fn message_needs_a_bot() {
    let e = event(Some(message(Some("77"), None, vec![])));
    assert_eq!(TelegramAdapter.send::<&str>(&e, None), Err(SendError::BotNotInitialized));
}

#[test]
fn message_is_sent_to_its_chat() {
    let msg = message(Some("-100"), Some("1"), vec![ContentItem::Text("t".to_string())]);
    let e = event(Some(msg.clone()));
    assert_eq!(
        TelegramAdapter.send(&e, Some("bot")),
        Ok(Some(SendTask { bot: "bot", chat_id: -100, msg }))
    );
}

#[test]
fn sending_errors_in_words() {
    assert_eq!(
        SendError::MissingChatId.message(),
        "TGAdapter outgoing message is missing message.to chat id"
    );
    assert_eq!(SendError::InvalidChatId("x".to_string()).message(), "invalid Telegram chat id: x");
    assert_eq!(SendError::BotNotInitialized.message(), "TGAdapter bot not initialized");
}

#[test]
fn answer_reaches_the_chat_and_received_content_goes_back() {
    let incoming = IncomingMessage {
        id: 314,
        from: Some(1),
        chat_id: i64::MIN,
        chat_kind: ChatKind::Group,
        reply_to: None,
        text: None,
        caption: Some(FormattedText { text: "look".to_string(), entities: vec![] }),
        document: Some(RemoteFile { file_id: "D".to_string(), file_name: text("") }),
        photo: Some(vec![PhotoSize { file_id: "P".to_string(), width: 1, height: 1 }]),
        audio: None,
        video: None,
        animation: None,
        voice: text("V"),
    };
    let update = Update { kind: UpdateKind::Message(incoming) };
    let received = convert_update(&update).unwrap().message.unwrap();
    let answer = Message { reply_to: received.id.clone(), id: None, ..received };
    let task = TelegramAdapter.send(&event(Some(answer)), Some(())).unwrap().unwrap();
    assert_eq!(task.chat_id, i64::MIN);
    let reply = Some(ReplyParameters { message_id: 314 });
    let chat_id = i64::MIN;
    assert_eq!(
        send_message_items(task.chat_id, task.msg),
        vec![
            SendStep::SendMessage { chat_id, text: "look".to_string(), reply },
            SendStep::SendDocument { chat_id, document: by_id("D", None), reply },
            SendStep::SendPhoto { chat_id, photo: by_id("P", None), caption: text("look"), reply },
            SendStep::SendDocument { chat_id, document: by_id("V", Some("voice.ogg")), reply },
        ]
    );
}
