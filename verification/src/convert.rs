//! From Telegram updates to events.

use crate::command::{first_command, mentions, read_entities};
use crate::decimal::{i64_text, int_text, u64_text};
use crate::event::{
    copy, ChatType, Command, ContentItem, ContentItemView, Event, EventType, EventTypeView, EventView,
    FileSource, FileSourceView, ImageSource, ImageSourceView, Message, MessageView,
};
use crate::update::{
    ChatKind, FormattedText, FormattedTextView, IncomingMessage, IncomingMessageView, PhotoSize,
    PhotoSizeView, RemoteFile, RemoteFileView, Update, UpdateBody, UpdateKind, UpdateView,
};
use vstd::prelude::*;

verus! {

/// The number of pixels of a photo.
pub open spec fn area(photo: PhotoSizeView) -> int {
    photo.width * photo.height
}

/// Whether the photo at `i` is the one with the most pixels, the last of them
/// where several have as many.
pub open spec fn is_largest(photos: Seq<PhotoSizeView>, i: int) -> bool {
    &&& 0 <= i < photos.len()
    &&& forall|j: int| 0 <= j < photos.len() ==> area(#[trigger] photos[j]) <= area(photos[i])
    &&& forall|j: int| i < j < photos.len() ==> area(#[trigger] photos[j]) < area(photos[i])
}

/// The photo with the most pixels, the last of them where several have as
/// many.
pub open spec fn largest(photos: Seq<PhotoSizeView>) -> PhotoSizeView {
    photos[choose|i: int| is_largest(photos, i)]
}

/// Whether the pixels of each photo can be counted in 32 bits.
pub open spec fn countable(photos: Seq<PhotoSizeView>) -> bool {
    forall|i: int| 0 <= i < photos.len() ==> area(#[trigger] photos[i]) <= u32::MAX
}

impl IncomingMessageView {
    /// The text of the message, or else its caption.
    pub open spec fn body(self) -> Option<FormattedTextView> {
        match self.text {
            Some(text) => Some(text),
            None => self.caption,
        }
    }

    /// Whether the message can be converted: the spans of its text fit the
    /// text, and the pixels of each of its photos can be counted in 32 bits.
    pub open spec fn convertible(self) -> bool {
        &&& match self.body() {
            Some(body) => body.readable(),
            None => true,
        }
        &&& match self.photo {
            Some(photos) => countable(photos),
            None => true,
        }
    }
}

/// A file that is already on Telegram's servers, as content.
pub open spec fn file_item(file_id: Seq<char>, file_name: Option<Seq<char>>) -> ContentItemView {
    ContentItemView::File { source: FileSourceView::Id(file_id), file_name, file_id: Some(file_id) }
}

/// The content for an attached file.
pub open spec fn file_items(file: Option<RemoteFileView>) -> Seq<ContentItemView> {
    match file {
        Some(file) => seq![file_item(file.file_id, file.file_name)],
        None => seq![],
    }
}

/// The content for a photo: its largest size, with the caption.
pub open spec fn photo_items(
    photos: Option<Seq<PhotoSizeView>>,
    caption: Option<FormattedTextView>,
) -> Seq<ContentItemView> {
    match photos {
        Some(photos) => if photos.len() > 0 {
            let id = largest(photos).file_id;
            seq![
                ContentItemView::Image {
                    source: ImageSourceView::Id(id),
                    file_id: Some(id),
                    caption: match caption {
                        Some(caption) => Some(caption.text),
                        None => None,
                    },
                },
            ]
        } else {
            seq![]
        },
        None => seq![],
    }
}

/// The content for a voice message.
pub open spec fn voice_items(voice: Option<Seq<char>>) -> Seq<ContentItemView> {
    match voice {
        Some(id) => seq![file_item(id, Some("voice.ogg"@))],
        None => seq![],
    }
}

/// The content for everything that is attached to a message, in a fixed order.
pub open spec fn attachments(m: IncomingMessageView) -> Seq<ContentItemView> {
    file_items(m.document) + photo_items(m.photo, m.caption) + file_items(m.audio) + file_items(
        m.video,
    ) + file_items(m.animation) + voice_items(m.voice)
}

/// The content for the text of a message: nothing where it is empty.
pub open spec fn text_items(m: IncomingMessageView) -> Seq<ContentItemView> {
    match m.body() {
        Some(body) => if body.text.len() > 0 {
            seq![ContentItemView::Text(body.text)]
        } else {
            seq![]
        },
        None => seq![],
    }
}

/// Where a conversation in a chat takes place.
pub open spec fn chat_type_view(kind: ChatKind) -> ChatType {
    match kind {
        ChatKind::Private => ChatType::Private,
        ChatKind::Group => ChatType::Group,
        ChatKind::Supergroup => ChatType::Group,
        ChatKind::Channel => ChatType::Guild,
    }
}

/// The message of an event for a message that Telegram delivered.
pub open spec fn message_view(m: IncomingMessageView) -> MessageView {
    MessageView {
        id: Some(int_text(m.id as int)),
        reply_to: match m.reply_to {
            Some(id) => Some(int_text(id as int)),
            None => None,
        },
        content: text_items(m) + attachments(m),
        from: match m.from {
            Some(id) => Some(int_text(id as int)),
            None => None,
        },
        to: Some(int_text(m.chat_id as int)),
        at: match m.body() {
            Some(body) => mentions(body.text, body.entities),
            None => seq![],
        },
        chat_type: Some(chat_type_view(m.chat_kind)),
    }
}

/// The event for a message that came in an update of the kind `name`.
pub open spec fn message_event(name: Seq<char>, m: IncomingMessageView) -> EventView {
    let command = match m.body() {
        Some(body) => first_command(body.text, body.entities),
        None => None,
    };
    EventView {
        event_type: if command is Some {
            EventTypeView::Command
        } else {
            EventTypeView::Message
        },
        source: "tg-adapter"@,
        data: name,
        command,
        message: Some(message_view(m)),
        sender: Some("TGAdapter"@),
        receiver: None,
    }
}

/// The event for an update without a message.
pub open spec fn payload_event(name: Seq<char>, json: Option<Seq<char>>) -> EventView {
    EventView {
        event_type: EventTypeView::Other(name),
        source: "tg-adapter"@,
        data: match json {
            Some(json) => json,
            None => seq![],
        },
        command: None,
        message: None,
        sender: Some("TGAdapter"@),
        receiver: None,
    }
}

/// The event for an update.
pub open spec fn update_event(update: UpdateView) -> EventView {
    match update.body {
        UpdateBody::Message(m) => message_event(update.name, m),
        UpdateBody::Payload(json) => payload_event(update.name, json),
    }
}

/// No two photos are both the largest.
pub proof fn lemma_largest_unique(photos: Seq<PhotoSizeView>, i: int)
    requires
        is_largest(photos, i),
    ensures
        largest(photos) == photos[i],
{
    let k = choose|k: int| is_largest(photos, k);
    assert(area(photos[i]) <= area(photos[k]));
    assert(area(photos[k]) <= area(photos[i]));
}

/// The photo with the most pixels, the last of them where several have as
/// many.
pub fn largest_photo(photos: &Vec<PhotoSize>) -> (res: Option<&PhotoSize>)
    requires
        countable(photos.deep_view()),
    ensures
        match res {
            Some(photo) => photos@.len() > 0 && photo.deep_view() == largest(photos.deep_view()),
            None => photos@.len() == 0,
        },
{
    let ghost view = photos.deep_view();
    if photos.len() == 0 {
        return None;
    }
    let mut best: usize = 0;
    assert(area(view[0]) <= u32::MAX);
    let mut most: u32 = photos[0].width * photos[0].height;
    let mut i: usize = 1;
    while i < photos.len()
        invariant
            best < i <= photos@.len(),
            view == photos.deep_view(),
            most == area(view[best as int]),
            countable(view),
            forall|k: int| 0 <= k < i ==> area(#[trigger] view[k]) <= most,
            forall|k: int| best < k < i ==> area(#[trigger] view[k]) < most,
        decreases photos@.len() - i,
    {
        assert(area(view[i as int]) <= u32::MAX);
        let pixels: u32 = photos[i].width * photos[i].height;
        if pixels >= most {
            best = i;
            most = pixels;
        }
        i = i + 1;
    }
    proof {
        assert(is_largest(view, best as int));
        lemma_largest_unique(view, best as int);
    }
    Some(&photos[best])
}

/// Adds the content for an attached file.
fn push_file(items: &mut Vec<ContentItem>, file: &Option<RemoteFile>)
    ensures
        final(items).deep_view() == old(items).deep_view() + file_items(file.deep_view()),
{
    if let Some(file) = file {
        items.push(
            ContentItem::File {
                source: FileSource::Id(file.file_id.clone()),
                file_name: copy(&file.file_name),
                file_id: Some(file.file_id.clone()),
            },
        );
    }
    assert(items.deep_view() == old(items).deep_view() + file_items(file.deep_view()));
}

/// The content for everything that is attached to a message.
pub fn convert_attachments(msg: &IncomingMessage) -> (res: Vec<ContentItem>)
    requires
        match msg.deep_view().photo {
            Some(photos) => countable(photos),
            None => true,
        },
    ensures
        res.deep_view() == attachments(msg.deep_view()),
{
    let mut items: Vec<ContentItem> = Vec::new();
    let ghost m = msg.deep_view();
    push_file(&mut items, &msg.document);
    assert(items.deep_view() == file_items(m.document));
    let ghost before = items.deep_view();
    if let Some(photos) = &msg.photo {
        assert(m.photo == Some(photos.deep_view()));
        if let Some(photo) = largest_photo(photos) {
            let caption = match &msg.caption {
                Some(caption) => Some(caption.text.clone()),
                None => None,
            };
            items.push(
                ContentItem::Image {
                    source: ImageSource::Id(photo.file_id.clone()),
                    file_id: Some(photo.file_id.clone()),
                    caption,
                },
            );
        }
    }
    assert(items.deep_view() == before + photo_items(m.photo, m.caption));
    push_file(&mut items, &msg.audio);
    push_file(&mut items, &msg.video);
    push_file(&mut items, &msg.animation);
    let ghost before = items.deep_view();
    if let Some(voice) = &msg.voice {
        items.push(
            ContentItem::File {
                source: FileSource::Id(voice.clone()),
                file_name: Some("voice.ogg".to_owned()),
                file_id: Some(voice.clone()),
            },
        );
    }
    assert(items.deep_view() == before + voice_items(m.voice));
    items
}

/// Where a conversation in a chat takes place.
pub fn chat_type(kind: ChatKind) -> (res: ChatType)
    ensures
        res == chat_type_view(kind),
{
    match kind {
        ChatKind::Private => ChatType::Private,
        ChatKind::Group | ChatKind::Supergroup => ChatType::Group,
        ChatKind::Channel => ChatType::Guild,
    }
}

/// The event for a message that came in an update of the kind of `update`.
/// There is always one.
pub fn convert_message(update: &Update, msg: &IncomingMessage) -> (res: Option<Event>)
    requires
        update.kind.body() is Message,
        msg.deep_view().convertible(),
    ensures
        res.deep_view() == Some(message_event(update.kind.name_view(), msg.deep_view())),
{
    let ghost m = msg.deep_view();
    let body: &Option<FormattedText> = match &msg.text {
        Some(_) => &msg.text,
        None => &msg.caption,
    };
    assert(body.deep_view() == m.body());
    let mut content: Vec<ContentItem> = Vec::new();
    let mut at: Vec<String> = Vec::new();
    let mut command: Option<Command> = None;
    if let Some(body) = body {
        if !body.text.as_str().is_empty() {
            content.push(ContentItem::Text(body.text.clone()));
        }
        let (mentioned, found) = read_entities(body);
        at = mentioned;
        command = found;
    }
    assert(content.deep_view() == text_items(m));
    assert(at.deep_view() == message_view(m).at);
    let mut attached = convert_attachments(msg);
    let ghost texts = content.deep_view();
    content.append(&mut attached);
    assert(content.deep_view() == texts + attachments(m));
    let from = match msg.from {
        Some(id) => Some(u64_text(id)),
        None => None,
    };
    let reply_to = match msg.reply_to {
        Some(id) => Some(i64_text(id as i64)),
        None => None,
    };
    let message = Message {
        id: Some(i64_text(msg.id as i64)),
        reply_to,
        content,
        from,
        to: Some(i64_text(msg.chat_id)),
        at,
        chat_type: Some(chat_type(msg.chat_kind)),
    };
    assert(message.deep_view().content == message_view(m).content);
    let event_type = if command.is_some() {
        EventType::Command
    } else {
        EventType::Message
    };
    Some(
        Event {
            event_type,
            source: "tg-adapter".to_owned(),
            data: update.kind.name().to_owned(),
            command,
            message: Some(message),
            sender: Some("TGAdapter".to_owned()),
            receiver: None,
        },
    )
}

/// The event for an update. There is always one.
pub fn convert_update(update: &Update) -> (res: Option<Event>)
    requires
        match update.kind.body() {
            UpdateBody::Message(m) => m.convertible(),
            UpdateBody::Payload(_) => true,
        },
    ensures
        res.deep_view() == Some(update_event(update.deep_view())),
{
    match &update.kind {
        UpdateKind::Message(msg)
        | UpdateKind::EditedMessage(msg)
        | UpdateKind::ChannelPost(msg)
        | UpdateKind::EditedChannelPost(msg)
        | UpdateKind::BusinessMessage(msg)
        | UpdateKind::EditedBusinessMessage(msg) => convert_message(update, msg),
        UpdateKind::BusinessConnection(payload)
        | UpdateKind::DeletedBusinessMessages(payload)
        | UpdateKind::MessageReaction(payload)
        | UpdateKind::MessageReactionCount(payload)
        | UpdateKind::InlineQuery(payload)
        | UpdateKind::ChosenInlineResult(payload)
        | UpdateKind::CallbackQuery(payload)
        | UpdateKind::ShippingQuery(payload)
        | UpdateKind::PreCheckoutQuery(payload)
        | UpdateKind::PurchasedPaidMedia(payload)
        | UpdateKind::Poll(payload)
        | UpdateKind::PollAnswer(payload)
        | UpdateKind::MyChatMember(payload)
        | UpdateKind::ChatMember(payload)
        | UpdateKind::ChatJoinRequest(payload)
        | UpdateKind::ChatBoost(payload)
        | UpdateKind::RemovedChatBoost(payload)
        | UpdateKind::Error(payload) => {
            let data = match &payload.json {
                Some(json) => json.clone(),
                None => String::new(),
            };
            Some(
                Event {
                    event_type: EventType::Other(update.kind.name().to_owned()),
                    source: "tg-adapter".to_owned(),
                    data,
                    command: None,
                    message: None,
                    sender: Some("TGAdapter".to_owned()),
                    receiver: None,
                },
            )
        },
    }
}

impl IncomingMessage {
    /// Whether the message can be converted.
    pub fn is_convertible(&self) -> (res: bool)
        ensures
            res == self.deep_view().convertible(),
    {
        let ghost m = self.deep_view();
        let body: &Option<FormattedText> = match &self.text {
            Some(_) => &self.text,
            None => &self.caption,
        };
        assert(body.deep_view() == m.body());
        if let Some(body) = body {
            if !body.is_readable() {
                return false;
            }
        }
        if let Some(photos) = &self.photo {
            assert(m.photo == Some(photos.deep_view()));
            let mut i: usize = 0;
            while i < photos.len()
                invariant
                    i <= photos@.len(),
                    m == self.deep_view(),
                    m.photo == Some(photos.deep_view()),
                    forall|k: int|
                        0 <= k < i ==> area(#[trigger] photos.deep_view()[k]) <= u32::MAX,
                decreases photos@.len() - i,
            {
                assert(area(photos.deep_view()[i as int]) == photos@[i as int].width
                    * photos@[i as int].height);
                if photos[i].width.checked_mul(photos[i].height).is_none() {
                    return false;
                }
                i = i + 1;
            }
        }
        true
    }
}

impl Update {
    /// Whether the update can be converted: it carries no message, or one that
    /// can be.
    pub fn is_convertible(&self) -> (res: bool)
        ensures
            res == match self.kind.body() {
                UpdateBody::Message(m) => m.convertible(),
                UpdateBody::Payload(_) => true,
            },
    {
        match &self.kind {
            UpdateKind::Message(msg)
            | UpdateKind::EditedMessage(msg)
            | UpdateKind::ChannelPost(msg)
            | UpdateKind::EditedChannelPost(msg)
            | UpdateKind::BusinessMessage(msg)
            | UpdateKind::EditedBusinessMessage(msg) => msg.is_convertible(),
            _ => true,
        }
    }
}

} // verus!
