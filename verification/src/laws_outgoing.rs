//! What holds of events that are sent: each law speaks of the event and of what
//! goes to Telegram.

use crate::decimal::{int_text, int_value, law_int_text_reads_back};
use crate::event::{ContentItemView, EventView, FileSourceView, ImageSourceView, MessageView};
use crate::media::{
    base64_decoded, base64_text, parsed_url, InputDataView, PrepareErrorView,
};
use crate::outgoing::{
    reply_view, step_view, steps_view, target, ReplyParameters, SendErrorView, SendStepView,
};
use vstd::prelude::*;

verus! {

/// Whether a value is there and not empty.
pub open spec fn given(value: Option<Seq<char>>) -> bool {
    value is Some && value->0.len() > 0
}

/// A text that is not empty is sent as it is, to the chat, as the reply that is
/// asked for; an empty one is not sent.
pub proof fn law_text_is_sent(chat_id: i64, reply: Option<ReplyParameters>, text: Seq<char>)
    ensures
        text.len() > 0 ==> step_view(chat_id, reply, ContentItemView::Text(text)) == (
        SendStepView::SendMessage { chat_id, text, reply }),
        text.len() == 0 ==> step_view(chat_id, reply, ContentItemView::Text(text))
            == SendStepView::Skip,
{
}

/// Content that Telegram does not know is passed over, and its kind is told.
pub proof fn law_other_content_is_ignored(
    chat_id: i64,
    reply: Option<ReplyParameters>,
    kind: Seq<char>,
)
    ensures
        step_view(chat_id, reply, ContentItemView::Other { kind }) == (SendStepView::Ignore {
            kind,
        }),
{
}

/// An image is sent as a photo to the chat, as the reply that is asked for, or
/// refused; wherever it comes from, a caption that is given goes with it, and
/// none other does; it goes without a file name.
pub proof fn law_photo_keeps_its_caption(
    chat_id: i64,
    reply: Option<ReplyParameters>,
    source: ImageSourceView,
    file_id: Option<Seq<char>>,
    caption: Option<Seq<char>>,
)
    ensures
        match step_view(chat_id, reply, ContentItemView::Image { source, file_id, caption }) {
            SendStepView::SendPhoto { chat_id: to, photo, caption: sent, reply: answered } => {
                &&& to == chat_id
                &&& answered == reply
                &&& given(caption) ==> sent == caption
                &&& !given(caption) ==> sent is None
                &&& photo.file_name is None
            },
            SendStepView::RefuseImage(_) => true,
            _ => false,
        },
{
}

/// Whether a step sends a photo with the contents `data`.
pub open spec fn sends_photo(step: SendStepView, data: InputDataView) -> bool {
    step matches SendStepView::SendPhoto { photo, .. } && photo.data == data
}

/// An image goes by its identifier where one is given, whatever its source; or
/// else as its source says: by the identifier, from the path, from the URL in
/// its normal form, or as the bytes that its base64 text stands for. It is
/// refused only for a URL that does not parse and for a text that does not
/// decode, with the reason.
pub proof fn law_photo_comes_from_its_source(
    chat_id: i64,
    reply: Option<ReplyParameters>,
    source: ImageSourceView,
    file_id: Option<Seq<char>>,
    caption: Option<Seq<char>>,
)
    ensures
        ({
            let step = step_view(
                chat_id,
                reply,
                ContentItemView::Image { source, file_id, caption },
            );
            if given(file_id) {
                sends_photo(step, InputDataView::FileId(file_id->0))
            } else {
                match source {
                    ImageSourceView::Id(id) => sends_photo(step, InputDataView::FileId(id)),
                    ImageSourceView::Path(path) => sends_photo(step, InputDataView::File(path)),
                    ImageSourceView::Url(url) => match parsed_url(url) {
                        Ok(normal) => sends_photo(step, InputDataView::Url(normal)),
                        Err(cause) => step == SendStepView::RefuseImage(
                            PrepareErrorView::InvalidImageUrl { url, cause },
                        ),
                    },
                    ImageSourceView::Base64(data) => match base64_decoded(base64_text(data)) {
                        Ok(bytes) => sends_photo(step, InputDataView::Memory(bytes)),
                        Err(cause) => step == SendStepView::RefuseImage(
                            PrepareErrorView::InvalidBase64(cause),
                        ),
                    },
                }
            }
        }),
{
}

/// Whether a step sends a document with the contents `data`.
pub open spec fn sends_document(step: SendStepView, data: InputDataView) -> bool {
    step matches SendStepView::SendDocument { document, .. } && document.data == data
}

/// A file is sent as a document to the chat, as the reply that is asked for, or
/// refused; wherever it comes from, a name that is given goes with it, and none
/// other does.
pub proof fn law_document_keeps_its_name(
    chat_id: i64,
    reply: Option<ReplyParameters>,
    source: FileSourceView,
    file_name: Option<Seq<char>>,
    file_id: Option<Seq<char>>,
)
    ensures
        match step_view(chat_id, reply, ContentItemView::File { source, file_name, file_id }) {
            SendStepView::SendDocument { chat_id: to, document, reply: answered } => {
                &&& to == chat_id
                &&& answered == reply
                &&& given(file_name) ==> document.file_name == file_name
                &&& !given(file_name) ==> document.file_name is None
            },
            SendStepView::RefuseFile(_) => true,
            _ => false,
        },
{
}

/// A file goes by its identifier where one is given, whatever its source; or
/// else as its source says: by the identifier, from the path, or from the URL
/// in its normal form. It is refused only for a URL that does not parse, with
/// the reason.
pub proof fn law_document_comes_from_its_source(
    chat_id: i64,
    reply: Option<ReplyParameters>,
    source: FileSourceView,
    file_name: Option<Seq<char>>,
    file_id: Option<Seq<char>>,
)
    ensures
        ({
            let step = step_view(
                chat_id,
                reply,
                ContentItemView::File { source, file_name, file_id },
            );
            if given(file_id) {
                sends_document(step, InputDataView::FileId(file_id->0))
            } else {
                match source {
                    FileSourceView::Id(id) => sends_document(step, InputDataView::FileId(id)),
                    FileSourceView::Path(path) => sends_document(step, InputDataView::File(path)),
                    FileSourceView::Url(url) => match parsed_url(url) {
                        Ok(normal) => sends_document(step, InputDataView::Url(normal)),
                        Err(cause) => step == SendStepView::RefuseFile(
                            PrepareErrorView::InvalidFileUrl { url, cause },
                        ),
                    },
                }
            }
        }),
{
}

/// A message replies to the message whose number it gives, and to none where
/// what it gives is no number of a message.
pub proof fn law_reply_goes_to_the_number(reply_to: Option<Seq<char>>, n: int)
    ensures
        reply_to is None ==> reply_view(reply_to) is None,
        reply_to matches Some(text) ==> match int_value(text) {
            Some(id) => if -0x8000_0000 <= id <= 0x7fff_ffff {
                reply_view(reply_to) matches Some(reply) && reply.message_id == id
            } else {
                reply_view(reply_to) is None
            },
            None => reply_view(reply_to) is None,
        },
        -0x8000_0000 <= n <= 0x7fff_ffff ==> (reply_view(Some(int_text(n))) matches Some(reply)
            && reply.message_id == n),
{
    law_int_text_reads_back(n);
}

/// Each piece of a message becomes one step, in order, and what becomes of a
/// piece depends on that piece, the chat and the reply alone.
pub proof fn law_one_step_for_each_piece(chat_id: i64, msg: MessageView, i: int)
    ensures
        steps_view(chat_id, msg).len() == msg.content.len(),
        0 <= i < msg.content.len() ==> steps_view(chat_id, msg)[i] == step_view(
            chat_id,
            reply_view(msg.reply_to),
            msg.content[i],
        ),
{
}

/// An event with a message goes out exactly where the message names a chat by
/// its number and the bot runs; then the message goes to that chat as it is.
/// Each way to fail has its own error; an event without a message is not sent,
/// and that is no error.
pub proof fn law_message_goes_to_its_chat(event: EventView, bot_ready: bool, msg: MessageView)
    ensures
        event.message is None ==> target(event, bot_ready) == Ok::<
            Option<(i64, MessageView)>,
            SendErrorView,
        >(None),
        event.message == Some(msg) ==> match msg.to {
            None => target(event, bot_ready) == Err::<Option<(i64, MessageView)>, SendErrorView>(
                SendErrorView::MissingChatId,
            ),
            Some(to) => match int_value(to) {
                Some(id) => if -0x8000_0000_0000_0000 <= id <= 0x7fff_ffff_ffff_ffff {
                    if bot_ready {
                        target(event, bot_ready) matches Ok(Some((chat_id, sent))) && chat_id == id
                            && sent == msg
                    } else {
                        target(event, bot_ready) == Err::<
                            Option<(i64, MessageView)>,
                            SendErrorView,
                        >(SendErrorView::BotNotInitialized)
                    }
                } else {
                    target(event, bot_ready) == Err::<Option<(i64, MessageView)>, SendErrorView>(
                        SendErrorView::InvalidChatId(to),
                    )
                },
                None => target(event, bot_ready) == Err::<
                    Option<(i64, MessageView)>,
                    SendErrorView,
                >(SendErrorView::InvalidChatId(to)),
            },
        },
{
}

/// Each error says what is wrong, and names the chat, the URL or the data that
/// it is about.
pub proof fn law_errors_in_words(text: Seq<char>, error: PrepareErrorView)
    ensures
        SendErrorView::MissingChatId.text()
            == "TGAdapter outgoing message is missing message.to chat id"@,
        SendErrorView::InvalidChatId(text).text() == "invalid Telegram chat id: "@ + text,
        SendErrorView::BotNotInitialized.text() == "TGAdapter bot not initialized"@,
        error matches PrepareErrorView::InvalidFileUrl { url, .. } ==> error.text()
            == "invalid file URL: "@ + url,
        error matches PrepareErrorView::InvalidImageUrl { url, .. } ==> error.text()
            == "invalid image URL: "@ + url,
        error is InvalidBase64 ==> error.text() == "invalid base64 image data"@,
{
}

} // verus!
