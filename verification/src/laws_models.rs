//! What holds of the models: each says all that the value says.

use crate::event::{
    ContentItem, ContentItemView, Event, EventType, EventTypeView, FileSource,
    FileSourceView, ImageSource, ImageSourceView, Message,
};
use crate::media::{InputData, InputDataView, InputFile, PrepareError, PrepareErrorView};
use crate::outgoing::{outcome, SendError, SendErrorView, SendStep, SendStepView, SendTask};
use crate::update::{
    FormattedText, FormattedTextView, IncomingMessage, Payload, RemoteFile, RemoteFileView, Update,
    UpdateBody, UpdateKind, UpdateView,
};
use vstd::prelude::*;

verus! {

/// Whether `view` is the text of `value`, where there is one.
pub open spec fn same_text(value: Option<String>, view: Option<Seq<char>>) -> bool {
    match value {
        Some(text) => view == Some(text@),
        None => view is None,
    }
}

/// Whether `view` is the text of `value` and its spans, where there is one.
pub open spec fn same_formatted(
    value: Option<FormattedText>,
    view: Option<FormattedTextView>,
) -> bool {
    match value {
        Some(body) => view is Some && view->0.text == body.text@ && view->0.entities
            == body.entities@,
        None => view is None,
    }
}

/// Whether `view` is the identifier and the name of `value`, where there is
/// one.
pub open spec fn same_file(value: Option<RemoteFile>, view: Option<RemoteFileView>) -> bool {
    match value {
        Some(file) => view is Some && view->0.file_id == file.file_id@ && same_text(
            file.file_name,
            view->0.file_name,
        ),
        None => view is None,
    }
}

/// The model of a received message holds all of it.
pub proof fn law_model_of_incoming_message(m: IncomingMessage)
    ensures
        ({
            let view = m.deep_view();
            &&& view.id == m.id
            &&& view.from == m.from
            &&& view.chat_id == m.chat_id
            &&& view.chat_kind == m.chat_kind
            &&& view.reply_to == m.reply_to
            &&& same_formatted(m.text, view.text)
            &&& same_formatted(m.caption, view.caption)
            &&& same_file(m.document, view.document)
            &&& same_file(m.audio, view.audio)
            &&& same_file(m.video, view.video)
            &&& same_file(m.animation, view.animation)
            &&& same_text(m.voice, view.voice)
            &&& m.photo is None ==> view.photo is None
            &&& m.photo matches Some(photos) ==> {
                &&& view.photo is Some
                &&& view.photo->0.len() == photos@.len()
                &&& forall|i: int|
                    #![trigger view.photo->0[i]]
                    0 <= i < photos@.len() ==> view.photo->0[i].file_id == photos@[i].file_id@
                        && view.photo->0[i].width == photos@[i].width && view.photo->0[i].height
                        == photos@[i].height
            }
        }),
{
}

/// Whether the model of an update of the kind `kind` has the name `name` and
/// the message `m`.
pub open spec fn is_message(kind: UpdateKind, name: Seq<char>, m: IncomingMessage) -> bool {
    Update { kind }.deep_view() == (UpdateView { name, body: UpdateBody::Message(m.deep_view()) })
}

/// The model of an update with a message holds the name of its kind and the
/// message.
pub proof fn law_model_of_message_update(m: IncomingMessage)
    ensures
        is_message(UpdateKind::Message(m), "Message"@, m),
        is_message(UpdateKind::EditedMessage(m), "EditedMessage"@, m),
        is_message(UpdateKind::ChannelPost(m), "ChannelPost"@, m),
        is_message(UpdateKind::EditedChannelPost(m), "EditedChannelPost"@, m),
        is_message(UpdateKind::BusinessMessage(m), "BusinessMessage"@, m),
        is_message(UpdateKind::EditedBusinessMessage(m), "EditedBusinessMessage"@, m),
{
}

/// Whether the model of an update of the kind `kind` has the name `name` and
/// the JSON of `p`.
pub open spec fn is_payload(kind: UpdateKind, name: Seq<char>, p: Payload) -> bool {
    let view = Update { kind }.deep_view();
    view.name == name && (view.body matches UpdateBody::Payload(json) && same_text(p.json, json))
}

/// The model of an update without a message holds the name of its kind and its
/// JSON.
pub proof fn law_model_of_other_update(p: Payload)
    ensures
        is_payload(UpdateKind::BusinessConnection(p), "BusinessConnection"@, p),
        is_payload(UpdateKind::DeletedBusinessMessages(p), "DeletedBusinessMessages"@, p),
        is_payload(UpdateKind::MessageReaction(p), "MessageReaction"@, p),
        is_payload(UpdateKind::MessageReactionCount(p), "MessageReactionCount"@, p),
        is_payload(UpdateKind::InlineQuery(p), "InlineQuery"@, p),
        is_payload(UpdateKind::ChosenInlineResult(p), "ChosenInlineResult"@, p),
        is_payload(UpdateKind::CallbackQuery(p), "CallbackQuery"@, p),
        is_payload(UpdateKind::ShippingQuery(p), "ShippingQuery"@, p),
        is_payload(UpdateKind::PreCheckoutQuery(p), "PreCheckoutQuery"@, p),
        is_payload(UpdateKind::PurchasedPaidMedia(p), "PurchasedPaidMedia"@, p),
        is_payload(UpdateKind::Poll(p), "Poll"@, p),
        is_payload(UpdateKind::PollAnswer(p), "PollAnswer"@, p),
        is_payload(UpdateKind::MyChatMember(p), "MyChatMember"@, p),
        is_payload(UpdateKind::ChatMember(p), "ChatMember"@, p),
        is_payload(UpdateKind::ChatJoinRequest(p), "ChatJoinRequest"@, p),
        is_payload(UpdateKind::ChatBoost(p), "ChatBoost"@, p),
        is_payload(UpdateKind::RemovedChatBoost(p), "RemovedChatBoost"@, p),
        is_payload(UpdateKind::Error(p), "Error"@, p),
{
}

/// Whether `view` is the source of a file.
pub open spec fn same_file_source(source: FileSource, view: FileSourceView) -> bool {
    match source {
        FileSource::Id(id) => view == FileSourceView::Id(id@),
        FileSource::Path(path) => view == FileSourceView::Path(path@),
        FileSource::Url(url) => view == FileSourceView::Url(url@),
    }
}

/// Whether `view` is the source of an image.
pub open spec fn same_image_source(source: ImageSource, view: ImageSourceView) -> bool {
    match source {
        ImageSource::Id(id) => view == ImageSourceView::Id(id@),
        ImageSource::Url(url) => view == ImageSourceView::Url(url@),
        ImageSource::Path(path) => view == ImageSourceView::Path(path@),
        ImageSource::Base64(data) => view == ImageSourceView::Base64(data@),
    }
}

/// Whether `view` is a piece of a message.
pub open spec fn same_item(item: ContentItem, view: ContentItemView) -> bool {
    match item {
        ContentItem::Text(text) => view == ContentItemView::Text(text@),
        ContentItem::File { source, file_name, file_id } => {
            view matches ContentItemView::File { source: s, file_name: n, file_id: i }
                && same_file_source(source, s) && same_text(file_name, n) && same_text(file_id, i)
        },
        ContentItem::Image { source, file_id, caption } => {
            view matches ContentItemView::Image { source: s, file_id: i, caption: c }
                && same_image_source(source, s) && same_text(file_id, i) && same_text(caption, c)
        },
        ContentItem::Other { kind } => view == (ContentItemView::Other { kind: kind@ }),
    }
}

/// The model of a message holds all of it.
pub proof fn law_model_of_message(m: Message)
    ensures
        ({
            let view = m.deep_view();
            &&& same_text(m.id, view.id)
            &&& same_text(m.reply_to, view.reply_to)
            &&& same_text(m.from, view.from)
            &&& same_text(m.to, view.to)
            &&& view.chat_type == m.chat_type
            &&& view.at.len() == m.at@.len()
            &&& forall|i: int| 0 <= i < m.at@.len() ==> #[trigger] view.at[i] == m.at@[i]@
            &&& view.content.len() == m.content@.len()
            &&& forall|i: int|
                0 <= i < m.content@.len() ==> same_item(m.content@[i], #[trigger] view.content[i])
        }),
{
}

/// The model of a piece of a message holds all of it.
pub proof fn law_model_of_item(item: ContentItem)
    ensures
        same_item(item, item.deep_view()),
{
}

/// The model of an event holds all of it.
pub proof fn law_model_of_event(event: Event)
    ensures
        ({
            let view = event.deep_view();
            &&& event.event_type == EventType::Message ==> view.event_type == EventTypeView::Message
            &&& event.event_type == EventType::Command ==> view.event_type == EventTypeView::Command
            &&& event.event_type matches EventType::Other(name) ==> view.event_type
                == EventTypeView::Other(name@)
            &&& view.source == event.source@
            &&& view.data == event.data@
            &&& event.command is None ==> view.command is None
            &&& event.command matches Some(command) ==> view.command is Some && view.command->0.cmd
                == command.cmd@ && view.command->0.args == command.args@
            &&& event.message is None ==> view.message is None
            &&& event.message matches Some(message) ==> view.message == Some(message.deep_view())
            &&& same_text(event.sender, view.sender)
            &&& same_text(event.receiver, view.receiver)
        }),
{
}

/// The model of a file to be sent holds all of it.
pub proof fn law_model_of_input_file(file: InputFile)
    ensures
        same_text(file.file_name, file.deep_view().file_name),
        match file.data {
            InputData::FileId(id) => file.deep_view().data == InputDataView::FileId(id@),
            InputData::File(path) => file.deep_view().data == InputDataView::File(path@),
            InputData::Url(url) => file.deep_view().data == InputDataView::Url(url@),
            InputData::Memory(bytes) => file.deep_view().data == InputDataView::Memory(bytes@),
        },
{
}

/// The model of an error holds all of it.
pub proof fn law_model_of_prepare_error(error: PrepareError)
    ensures
        match error {
            PrepareError::InvalidFileUrl { url, cause } => error.deep_view() == (
            PrepareErrorView::InvalidFileUrl { url: url@, cause }),
            PrepareError::InvalidImageUrl { url, cause } => error.deep_view() == (
            PrepareErrorView::InvalidImageUrl { url: url@, cause }),
            PrepareError::InvalidBase64(cause) => error.deep_view()
                == PrepareErrorView::InvalidBase64(cause),
        },
{
}

/// The model of a step holds all of it.
pub proof fn law_model_of_step(step: SendStep)
    ensures
        match step {
            SendStep::SendMessage { chat_id, text, reply } => step.deep_view() == (
            SendStepView::SendMessage { chat_id, text: text@, reply }),
            SendStep::SendDocument { chat_id, document, reply } => step.deep_view() == (
            SendStepView::SendDocument { chat_id, document: document.deep_view(), reply }),
            SendStep::SendPhoto { chat_id, photo, caption, reply } => {
                step.deep_view() matches SendStepView::SendPhoto {
                    chat_id: to,
                    photo: sent,
                    caption: c,
                    reply: answered,
                } && to == chat_id && sent == photo.deep_view() && same_text(caption, c) && answered
                    == reply
            },
            SendStep::Skip => step.deep_view() == SendStepView::Skip,
            SendStep::RefuseFile(error) => step.deep_view() == SendStepView::RefuseFile(
                error.deep_view(),
            ),
            SendStep::RefuseImage(error) => step.deep_view() == SendStepView::RefuseImage(
                error.deep_view(),
            ),
            SendStep::Ignore { kind } => step.deep_view() == (SendStepView::Ignore { kind: kind@ }),
        },
{
}

/// What a decision to send comes to tells the chat and the message, or the
/// error.
pub proof fn law_model_of_send<B>(res: Result<Option<SendTask<B>>, SendError>)
    ensures
        match res {
            Ok(Some(task)) => outcome(res) matches Ok(Some((chat_id, msg))) && chat_id
                == task.chat_id && msg == task.msg.deep_view(),
            Ok(None) => outcome(res) matches Ok(None),
            Err(SendError::MissingChatId) => outcome(res) matches Err(error) && error
                == SendErrorView::MissingChatId,
            Err(SendError::InvalidChatId(id)) => outcome(res) matches Err(error) && error
                == SendErrorView::InvalidChatId(id@),
            Err(SendError::BotNotInitialized) => outcome(res) matches Err(error) && error
                == SendErrorView::BotNotInitialized,
        },
{
}

} // verus!
