//! Updates as Telegram delivers them, reduced to what the adapter reads, and
//! their mathematical models.

use crate::entity::MessageEntity;
use vstd::prelude::*;

verus! {

/// A text and its marked spans.
#[derive(Debug, Clone, PartialEq, Eq)]
pub struct FormattedText {
    pub text: String,
    pub entities: Vec<MessageEntity>,
}

pub struct FormattedTextView {
    pub text: Seq<char>,
    pub entities: Seq<MessageEntity>,
}

impl DeepView for FormattedText {
    type V = FormattedTextView;

    open spec fn deep_view(&self) -> FormattedTextView {
        FormattedTextView { text: self.text@, entities: self.entities@ }
    }
}

/// One size in which a photo is available.
#[derive(Debug, Clone, PartialEq, Eq)]
pub struct PhotoSize {
    pub file_id: String,
    pub width: u32,
    pub height: u32,
}

pub struct PhotoSizeView {
    pub file_id: Seq<char>,
    pub width: u32,
    pub height: u32,
}

impl DeepView for PhotoSize {
    type V = PhotoSizeView;

    open spec fn deep_view(&self) -> PhotoSizeView {
        PhotoSizeView { file_id: self.file_id@, width: self.width, height: self.height }
    }
}

/// A file on Telegram's servers.
#[derive(Debug, Clone, PartialEq, Eq)]
pub struct RemoteFile {
    pub file_id: String,
    pub file_name: Option<String>,
}

pub struct RemoteFileView {
    pub file_id: Seq<char>,
    pub file_name: Option<Seq<char>>,
}

impl DeepView for RemoteFile {
    type V = RemoteFileView;

    open spec fn deep_view(&self) -> RemoteFileView {
        RemoteFileView { file_id: self.file_id@, file_name: self.file_name.deep_view() }
    }
}

/// What a chat is.
#[derive(Debug, Clone, Copy, PartialEq, Eq)]
pub enum ChatKind {
    Private,
    Group,
    Supergroup,
    Channel,
}

/// A message that Telegram delivers.
#[derive(Debug, Clone, PartialEq, Eq)]
pub struct IncomingMessage {
    pub id: i32,
    /// The user that sent the message.
    pub from: Option<u64>,
    pub chat_id: i64,
    pub chat_kind: ChatKind,
    /// The message that this one replies to.
    pub reply_to: Option<i32>,
    /// The text of a text message.
    pub text: Option<FormattedText>,
    /// The caption of a media message.
    pub caption: Option<FormattedText>,
    pub document: Option<RemoteFile>,
    pub photo: Option<Vec<PhotoSize>>,
    pub audio: Option<RemoteFile>,
    pub video: Option<RemoteFile>,
    pub animation: Option<RemoteFile>,
    /// The file of a voice message.
    pub voice: Option<String>,
}

pub struct IncomingMessageView {
    pub id: i32,
    pub from: Option<u64>,
    pub chat_id: i64,
    pub chat_kind: ChatKind,
    pub reply_to: Option<i32>,
    pub text: Option<FormattedTextView>,
    pub caption: Option<FormattedTextView>,
    pub document: Option<RemoteFileView>,
    pub photo: Option<Seq<PhotoSizeView>>,
    pub audio: Option<RemoteFileView>,
    pub video: Option<RemoteFileView>,
    pub animation: Option<RemoteFileView>,
    pub voice: Option<Seq<char>>,
}

impl DeepView for IncomingMessage {
    type V = IncomingMessageView;

    open spec fn deep_view(&self) -> IncomingMessageView {
        IncomingMessageView {
            id: self.id,
            from: self.from,
            chat_id: self.chat_id,
            chat_kind: self.chat_kind,
            reply_to: self.reply_to,
            text: self.text.deep_view(),
            caption: self.caption.deep_view(),
            document: self.document.deep_view(),
            photo: self.photo.deep_view(),
            audio: self.audio.deep_view(),
            video: self.video.deep_view(),
            animation: self.animation.deep_view(),
            voice: self.voice.deep_view(),
        }
    }
}

/// An update that carries no message, in JSON; `None` where it could not be
/// serialised.
#[derive(Debug, Clone, PartialEq, Eq)]
pub struct Payload {
    pub json: Option<String>,
}

/// What an update is about.
#[derive(Debug, Clone, PartialEq, Eq)]
pub enum UpdateKind {
    Message(IncomingMessage),
    EditedMessage(IncomingMessage),
    ChannelPost(IncomingMessage),
    EditedChannelPost(IncomingMessage),
    BusinessMessage(IncomingMessage),
    EditedBusinessMessage(IncomingMessage),
    BusinessConnection(Payload),
    DeletedBusinessMessages(Payload),
    MessageReaction(Payload),
    MessageReactionCount(Payload),
    InlineQuery(Payload),
    ChosenInlineResult(Payload),
    CallbackQuery(Payload),
    ShippingQuery(Payload),
    PreCheckoutQuery(Payload),
    PurchasedPaidMedia(Payload),
    Poll(Payload),
    PollAnswer(Payload),
    MyChatMember(Payload),
    ChatMember(Payload),
    ChatJoinRequest(Payload),
    ChatBoost(Payload),
    RemovedChatBoost(Payload),
    Error(Payload),
}

/// An update.
#[derive(Debug, Clone, PartialEq, Eq)]
pub struct Update {
    pub kind: UpdateKind,
}

/// What an update carries.
pub enum UpdateBody {
    Message(IncomingMessageView),
    Payload(Option<Seq<char>>),
}

/// An update: the name of its kind and what it carries.
pub struct UpdateView {
    pub name: Seq<char>,
    pub body: UpdateBody,
}

impl DeepView for Update {
    type V = UpdateView;

    open spec fn deep_view(&self) -> UpdateView {
        UpdateView { name: self.kind.name_view(), body: self.kind.body() }
    }
}

impl UpdateKind {
    /// The name of the kind.
    pub open spec fn name_view(self) -> Seq<char> {
        match self {
            UpdateKind::Message(_) => "Message"@,
            UpdateKind::EditedMessage(_) => "EditedMessage"@,
            UpdateKind::ChannelPost(_) => "ChannelPost"@,
            UpdateKind::EditedChannelPost(_) => "EditedChannelPost"@,
            UpdateKind::BusinessMessage(_) => "BusinessMessage"@,
            UpdateKind::EditedBusinessMessage(_) => "EditedBusinessMessage"@,
            UpdateKind::BusinessConnection(_) => "BusinessConnection"@,
            UpdateKind::DeletedBusinessMessages(_) => "DeletedBusinessMessages"@,
            UpdateKind::MessageReaction(_) => "MessageReaction"@,
            UpdateKind::MessageReactionCount(_) => "MessageReactionCount"@,
            UpdateKind::InlineQuery(_) => "InlineQuery"@,
            UpdateKind::ChosenInlineResult(_) => "ChosenInlineResult"@,
            UpdateKind::CallbackQuery(_) => "CallbackQuery"@,
            UpdateKind::ShippingQuery(_) => "ShippingQuery"@,
            UpdateKind::PreCheckoutQuery(_) => "PreCheckoutQuery"@,
            UpdateKind::PurchasedPaidMedia(_) => "PurchasedPaidMedia"@,
            UpdateKind::Poll(_) => "Poll"@,
            UpdateKind::PollAnswer(_) => "PollAnswer"@,
            UpdateKind::MyChatMember(_) => "MyChatMember"@,
            UpdateKind::ChatMember(_) => "ChatMember"@,
            UpdateKind::ChatJoinRequest(_) => "ChatJoinRequest"@,
            UpdateKind::ChatBoost(_) => "ChatBoost"@,
            UpdateKind::RemovedChatBoost(_) => "RemovedChatBoost"@,
            UpdateKind::Error(_) => "Error"@,
        }
    }

    /// What an update of the kind carries.
    pub open spec fn body(self) -> UpdateBody {
        match self {
            UpdateKind::Message(m)
            | UpdateKind::EditedMessage(m)
            | UpdateKind::ChannelPost(m)
            | UpdateKind::EditedChannelPost(m)
            | UpdateKind::BusinessMessage(m)
            | UpdateKind::EditedBusinessMessage(m) => UpdateBody::Message(m.deep_view()),
            UpdateKind::BusinessConnection(p)
            | UpdateKind::DeletedBusinessMessages(p)
            | UpdateKind::MessageReaction(p)
            | UpdateKind::MessageReactionCount(p)
            | UpdateKind::InlineQuery(p)
            | UpdateKind::ChosenInlineResult(p)
            | UpdateKind::CallbackQuery(p)
            | UpdateKind::ShippingQuery(p)
            | UpdateKind::PreCheckoutQuery(p)
            | UpdateKind::PurchasedPaidMedia(p)
            | UpdateKind::Poll(p)
            | UpdateKind::PollAnswer(p)
            | UpdateKind::MyChatMember(p)
            | UpdateKind::ChatMember(p)
            | UpdateKind::ChatJoinRequest(p)
            | UpdateKind::ChatBoost(p)
            | UpdateKind::RemovedChatBoost(p)
            | UpdateKind::Error(p) => UpdateBody::Payload(p.json.deep_view()),
        }
    }

    /// The name of the kind.
    pub fn name(&self) -> (res: &'static str)
        ensures
            res@ == self.name_view(),
    {
        match self {
            UpdateKind::Message(_) => "Message",
            UpdateKind::EditedMessage(_) => "EditedMessage",
            UpdateKind::ChannelPost(_) => "ChannelPost",
            UpdateKind::EditedChannelPost(_) => "EditedChannelPost",
            UpdateKind::BusinessMessage(_) => "BusinessMessage",
            UpdateKind::EditedBusinessMessage(_) => "EditedBusinessMessage",
            UpdateKind::BusinessConnection(_) => "BusinessConnection",
            UpdateKind::DeletedBusinessMessages(_) => "DeletedBusinessMessages",
            UpdateKind::MessageReaction(_) => "MessageReaction",
            UpdateKind::MessageReactionCount(_) => "MessageReactionCount",
            UpdateKind::InlineQuery(_) => "InlineQuery",
            UpdateKind::ChosenInlineResult(_) => "ChosenInlineResult",
            UpdateKind::CallbackQuery(_) => "CallbackQuery",
            UpdateKind::ShippingQuery(_) => "ShippingQuery",
            UpdateKind::PreCheckoutQuery(_) => "PreCheckoutQuery",
            UpdateKind::PurchasedPaidMedia(_) => "PurchasedPaidMedia",
            UpdateKind::Poll(_) => "Poll",
            UpdateKind::PollAnswer(_) => "PollAnswer",
            UpdateKind::MyChatMember(_) => "MyChatMember",
            UpdateKind::ChatMember(_) => "ChatMember",
            UpdateKind::ChatJoinRequest(_) => "ChatJoinRequest",
            UpdateKind::ChatBoost(_) => "ChatBoost",
            UpdateKind::RemovedChatBoost(_) => "RemovedChatBoost",
            UpdateKind::Error(_) => "Error",
        }
    }
}

} // verus!
