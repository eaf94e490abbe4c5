//! From events to what is sent to Telegram.

use crate::decimal::{int_in_range, parse_i32, parse_i64};
use crate::event::{
    ContentItem, ContentItemView, Event, EventView, Message, MessageView,
};
use crate::media::{
    file_input, filled, image_input, input_file_from_image, input_file_from_source, non_empty,
    InputFile, InputFileView, PrepareError, PrepareErrorView,
};
use vstd::prelude::*;

verus! {

/// Which message a message replies to.
#[derive(Debug, Clone, Copy, PartialEq, Eq)]
pub struct ReplyParameters {
    pub message_id: i32,
}

/// What to do for one piece of a message.
#[derive(Debug, Clone, PartialEq, Eq)]
pub enum SendStep {
    SendMessage { chat_id: i64, text: String, reply: Option<ReplyParameters> },
    SendDocument { chat_id: i64, document: InputFile, reply: Option<ReplyParameters> },
    SendPhoto {
        chat_id: i64,
        photo: InputFile,
        caption: Option<String>,
        reply: Option<ReplyParameters>,
    },
    /// Nothing: the text is empty.
    Skip,
    /// Nothing: the file cannot be sent.
    RefuseFile(PrepareError),
    /// Nothing: the image cannot be sent.
    RefuseImage(PrepareError),
    /// Nothing: Telegram has no such content.
    Ignore { kind: String },
}

pub enum SendStepView {
    SendMessage { chat_id: i64, text: Seq<char>, reply: Option<ReplyParameters> },
    SendDocument { chat_id: i64, document: InputFileView, reply: Option<ReplyParameters> },
    SendPhoto {
        chat_id: i64,
        photo: InputFileView,
        caption: Option<Seq<char>>,
        reply: Option<ReplyParameters>,
    },
    Skip,
    RefuseFile(PrepareErrorView),
    RefuseImage(PrepareErrorView),
    Ignore { kind: Seq<char> },
}

impl DeepView for SendStep {
    type V = SendStepView;

    open spec fn deep_view(&self) -> SendStepView {
        match self {
            SendStep::SendMessage { chat_id, text, reply } => SendStepView::SendMessage {
                chat_id: *chat_id,
                text: text@,
                reply: *reply,
            },
            SendStep::SendDocument { chat_id, document, reply } => SendStepView::SendDocument {
                chat_id: *chat_id,
                document: document.deep_view(),
                reply: *reply,
            },
            SendStep::SendPhoto { chat_id, photo, caption, reply } => SendStepView::SendPhoto {
                chat_id: *chat_id,
                photo: photo.deep_view(),
                caption: caption.deep_view(),
                reply: *reply,
            },
            SendStep::Skip => SendStepView::Skip,
            SendStep::RefuseFile(error) => SendStepView::RefuseFile(error.deep_view()),
            SendStep::RefuseImage(error) => SendStepView::RefuseImage(error.deep_view()),
            SendStep::Ignore { kind } => SendStepView::Ignore { kind: kind@ },
        }
    }
}

/// The message to reply to: the one that `reply_to` identifies, where it spells
/// the identifier of a message.
pub open spec fn reply_view(reply_to: Option<Seq<char>>) -> Option<ReplyParameters> {
    match reply_to {
        Some(text) => match int_in_range(text, i32::MIN as int, i32::MAX as int) {
            Some(id) => Some(ReplyParameters { message_id: id as i32 }),
            None => None,
        },
        None => None,
    }
}

/// The message to reply to.
pub fn reply_parameters(reply_to: Option<&str>) -> (res: Option<ReplyParameters>)
    ensures
        res == reply_view(reply_to.deep_view()),
{
    match reply_to {
        Some(text) => match parse_i32(text) {
            Some(message_id) => Some(ReplyParameters { message_id }),
            None => None,
        },
        None => None,
    }
}

/// What to do for a piece of a message to the chat `chat_id`.
pub open spec fn step_view(
    chat_id: i64,
    reply: Option<ReplyParameters>,
    item: ContentItemView,
) -> SendStepView {
    match item {
        ContentItemView::Text(text) => if text.len() == 0 {
            SendStepView::Skip
        } else {
            SendStepView::SendMessage { chat_id, text, reply }
        },
        ContentItemView::File { source, file_name, file_id } => match file_input(
            source,
            file_name,
            file_id,
        ) {
            Ok(document) => SendStepView::SendDocument { chat_id, document, reply },
            Err(error) => SendStepView::RefuseFile(error),
        },
        ContentItemView::Image { source, file_id, caption } => match image_input(source, file_id) {
            Ok(photo) => SendStepView::SendPhoto {
                chat_id,
                photo,
                caption: filled(caption),
                reply,
            },
            Err(error) => SendStepView::RefuseImage(error),
        },
        ContentItemView::Other { kind } => SendStepView::Ignore { kind },
    }
}

/// What to do for a message to the chat `chat_id`: one step for each piece, in
/// order.
pub open spec fn steps_view(chat_id: i64, msg: MessageView) -> Seq<SendStepView> {
    Seq::new(
        msg.content.len(),
        |i: int| step_view(chat_id, reply_view(msg.reply_to), msg.content[i]),
    )
}

/// What to do for a piece of a message.
pub fn send_item(chat_id: i64, reply: Option<ReplyParameters>, item: ContentItem) -> (res: SendStep)
    ensures
        res.deep_view() == step_view(chat_id, reply, item.deep_view()),
{
    match item {
        ContentItem::Text(text) => if text.as_str().is_empty() {
            SendStep::Skip
        } else {
            SendStep::SendMessage { chat_id, text, reply }
        },
        ContentItem::File { source, file_name, file_id } => match input_file_from_source(
            source,
            file_name,
            file_id,
        ) {
            Ok(document) => SendStep::SendDocument { chat_id, document, reply },
            Err(error) => SendStep::RefuseFile(error),
        },
        ContentItem::Image { source, file_id, caption } => match input_file_from_image(
            source,
            file_id,
        ) {
            Ok(photo) => SendStep::SendPhoto {
                chat_id,
                photo,
                caption: non_empty(caption),
                reply,
            },
            Err(error) => SendStep::RefuseImage(error),
        },
        ContentItem::Other { kind } => SendStep::Ignore { kind },
    }
}

/// What to do for a message to the chat `chat_id`.
pub fn send_message_items(chat_id: i64, msg: Message) -> (res: Vec<SendStep>)
    ensures
        res.deep_view() == steps_view(chat_id, msg.deep_view()),
{
    let reply_to = match &msg.reply_to {
        Some(text) => Some(text.as_str()),
        None => None,
    };
    let reply = reply_parameters(reply_to);
    let ghost view = msg.deep_view();
    let mut steps: Vec<SendStep> = Vec::new();
    for item in it: msg.content
        invariant
            reply == reply_view(view.reply_to),
            it.seq() == msg.content@,
            view.content == msg.content.deep_view(),
            steps.deep_view() == steps_view(chat_id, view).take(it.index()),
    {
        let ghost before = steps.deep_view();
        let ghost all = steps_view(chat_id, view);
        steps.push(send_item(chat_id, reply, item));
        assert(view.content[it.index()] == item.deep_view());
        assert(steps.deep_view() == before.push(all[it.index()]));
        assert(all.take(it.index() + 1) == all.take(it.index()).push(all[it.index()]));
    }
    steps
}

/// Why an event cannot be sent.
#[derive(Debug, Clone, PartialEq, Eq)]
pub enum SendError {
    /// The message does not say which chat it goes to.
    MissingChatId,
    /// What the message gives for a chat does not identify one.
    InvalidChatId(String),
    /// The bot is not running.
    BotNotInitialized,
}

pub enum SendErrorView {
    MissingChatId,
    InvalidChatId(Seq<char>),
    BotNotInitialized,
}

impl DeepView for SendError {
    type V = SendErrorView;

    open spec fn deep_view(&self) -> SendErrorView {
        match self {
            SendError::MissingChatId => SendErrorView::MissingChatId,
            SendError::InvalidChatId(chat_id) => SendErrorView::InvalidChatId(chat_id@),
            SendError::BotNotInitialized => SendErrorView::BotNotInitialized,
        }
    }
}

impl SendErrorView {
    /// The error in words.
    pub open spec fn text(self) -> Seq<char> {
        match self {
            SendErrorView::MissingChatId => {
                "TGAdapter outgoing message is missing message.to chat id"@
            },
            SendErrorView::InvalidChatId(chat_id) => "invalid Telegram chat id: "@ + chat_id,
            SendErrorView::BotNotInitialized => "TGAdapter bot not initialized"@,
        }
    }
}

impl SendError {
    /// The error in words.
    pub fn message(&self) -> (res: String)
        ensures
            res@ == self.deep_view().text(),
    {
        match self {
            SendError::MissingChatId => {
                "TGAdapter outgoing message is missing message.to chat id".to_owned()
            },
            SendError::InvalidChatId(chat_id) => {
                "invalid Telegram chat id: ".to_owned().concat(chat_id.as_str())
            },
            SendError::BotNotInitialized => "TGAdapter bot not initialized".to_owned(),
        }
    }
}

/// A message on its way: the bot that sends it, and the chat that it goes to.
#[derive(Debug, PartialEq, Eq)]
pub struct SendTask<B> {
    pub bot: B,
    pub chat_id: i64,
    pub msg: Message,
}

/// What a decision to send comes to: the chat and the message, nothing, or why
/// not.
pub open spec fn outcome<B>(res: Result<Option<SendTask<B>>, SendError>) -> Result<
    Option<(i64, MessageView)>,
    SendErrorView,
> {
    match res {
        Ok(Some(task)) => Ok(Some((task.chat_id, task.msg.deep_view()))),
        Ok(None) => Ok(None),
        Err(error) => Err(error.deep_view()),
    }
}

/// Which chat the message of an event goes to. An event without a message is
/// not sent, and that is no error.
pub open spec fn target(event: EventView, bot_ready: bool) -> Result<
    Option<(i64, MessageView)>,
    SendErrorView,
> {
    match event.message {
        None => Ok(None),
        Some(msg) => match msg.to {
            None => Err(SendErrorView::MissingChatId),
            Some(to) => match int_in_range(to, i64::MIN as int, i64::MAX as int) {
                None => Err(SendErrorView::InvalidChatId(to)),
                Some(chat_id) => if bot_ready {
                    Ok(Some((chat_id as i64, msg)))
                } else {
                    Err(SendErrorView::BotNotInitialized)
                },
            },
        },
    }
}

/// The adapter between the bot framework and Telegram.
#[derive(Debug, Clone, Copy, PartialEq, Eq)]
pub struct TelegramAdapter;

impl TelegramAdapter {
    /// What to send for `event`; `bot` is the bot that is running.
    pub fn send<B>(&self, event: &Event, bot: Option<B>) -> (res: Result<
        Option<SendTask<B>>,
        SendError,
    >)
        ensures
            outcome(res) == target(event.deep_view(), bot is Some),
            res matches Ok(Some(task)) ==> bot == Some(task.bot),
    {
        let msg = match &event.message {
            Some(msg) => msg,
            None => {
                return Ok(None);
            },
        };
        let to = match &msg.to {
            Some(to) => to,
            None => {
                return Err(SendError::MissingChatId);
            },
        };
        let chat_id = match parse_i64(to.as_str()) {
            Some(chat_id) => chat_id,
            None => {
                return Err(SendError::InvalidChatId(to.clone()));
            },
        };
        match bot {
            Some(bot) => Ok(Some(SendTask { bot, chat_id, msg: msg.clone() })),
            None => Err(SendError::BotNotInitialized),
        }
    }
}

} // verus!
