//! Events as the bot framework passes them between adapters and plugins, and
//! their mathematical models.
//!
//! The model of a type `T` is `TView`: the same fields with text as a sequence
//! of characters.

use vstd::prelude::*;

verus! {

/// Where a conversation takes place.
#[derive(Debug, Clone, Copy, PartialEq, Eq)]
pub enum ChatType {
    Private,
    Group,
    Guild,
}

/// Where the contents of a file come from.
#[derive(Debug, PartialEq, Eq)]
pub enum FileSource {
    Id(String),
    Path(String),
    Url(String),
}

pub enum FileSourceView {
    Id(Seq<char>),
    Path(Seq<char>),
    Url(Seq<char>),
}

impl DeepView for FileSource {
    type V = FileSourceView;

    open spec fn deep_view(&self) -> FileSourceView {
        match self {
            FileSource::Id(id) => FileSourceView::Id(id@),
            FileSource::Path(path) => FileSourceView::Path(path@),
            FileSource::Url(url) => FileSourceView::Url(url@),
        }
    }
}

impl Clone for FileSource {
    fn clone(&self) -> (res: Self)
        ensures
            res.deep_view() == self.deep_view(),
    {
        match self {
            FileSource::Id(id) => FileSource::Id(id.clone()),
            FileSource::Path(path) => FileSource::Path(path.clone()),
            FileSource::Url(url) => FileSource::Url(url.clone()),
        }
    }
}

/// Where the contents of an image come from.
#[derive(Debug, PartialEq, Eq)]
pub enum ImageSource {
    Id(String),
    Url(String),
    Path(String),
    /// Base64 text, alone or behind the head of a `data:` URL.
    Base64(String),
}

pub enum ImageSourceView {
    Id(Seq<char>),
    Url(Seq<char>),
    Path(Seq<char>),
    Base64(Seq<char>),
}

impl DeepView for ImageSource {
    type V = ImageSourceView;

    open spec fn deep_view(&self) -> ImageSourceView {
        match self {
            ImageSource::Id(id) => ImageSourceView::Id(id@),
            ImageSource::Url(url) => ImageSourceView::Url(url@),
            ImageSource::Path(path) => ImageSourceView::Path(path@),
            ImageSource::Base64(data) => ImageSourceView::Base64(data@),
        }
    }
}

impl Clone for ImageSource {
    fn clone(&self) -> (res: Self)
        ensures
            res.deep_view() == self.deep_view(),
    {
        match self {
            ImageSource::Id(id) => ImageSource::Id(id.clone()),
            ImageSource::Url(url) => ImageSource::Url(url.clone()),
            ImageSource::Path(path) => ImageSource::Path(path.clone()),
            ImageSource::Base64(data) => ImageSource::Base64(data.clone()),
        }
    }
}

/// A copy of an optional text.
pub(crate) fn copy(text: &Option<String>) -> (res: Option<String>)
    ensures
        res.deep_view() == text.deep_view(),
{
    match text {
        Some(text) => Some(text.clone()),
        None => None,
    }
}

/// One piece of a message.
#[allow(inconsistent_fields)]
#[derive(Debug, PartialEq, Eq)]
pub enum ContentItem {
    Text(String),
    File { source: FileSource, file_name: Option<String>, file_id: Option<String> },
    Image { source: ImageSource, file_id: Option<String>, caption: Option<String> },
    /// Content of a kind that only some adapters know.
    Other { kind: String },
}

#[allow(inconsistent_fields)]
pub enum ContentItemView {
    Text(Seq<char>),
    File { source: FileSourceView, file_name: Option<Seq<char>>, file_id: Option<Seq<char>> },
    Image { source: ImageSourceView, file_id: Option<Seq<char>>, caption: Option<Seq<char>> },
    Other { kind: Seq<char> },
}

impl DeepView for ContentItem {
    type V = ContentItemView;

    open spec fn deep_view(&self) -> ContentItemView {
        match self {
            ContentItem::Text(text) => ContentItemView::Text(text@),
            ContentItem::File { source, file_name, file_id } => ContentItemView::File {
                source: source.deep_view(),
                file_name: file_name.deep_view(),
                file_id: file_id.deep_view(),
            },
            ContentItem::Image { source, file_id, caption } => ContentItemView::Image {
                source: source.deep_view(),
                file_id: file_id.deep_view(),
                caption: caption.deep_view(),
            },
            ContentItem::Other { kind } => ContentItemView::Other { kind: kind@ },
        }
    }
}

impl Clone for ContentItem {
    fn clone(&self) -> (res: Self)
        ensures
            res.deep_view() == self.deep_view(),
    {
        match self {
            ContentItem::Text(text) => ContentItem::Text(text.clone()),
            ContentItem::File { source, file_name, file_id } => ContentItem::File {
                source: source.clone(),
                file_name: copy(file_name),
                file_id: copy(file_id),
            },
            ContentItem::Image { source, file_id, caption } => ContentItem::Image {
                source: source.clone(),
                file_id: copy(file_id),
                caption: copy(caption),
            },
            ContentItem::Other { kind } => ContentItem::Other { kind: kind.clone() },
        }
    }
}

/// A message, received or to be sent.
#[derive(Debug, PartialEq, Eq)]
pub struct Message {
    pub id: Option<String>,
    pub reply_to: Option<String>,
    pub content: Vec<ContentItem>,
    pub from: Option<String>,
    pub to: Option<String>,
    pub at: Vec<String>,
    pub chat_type: Option<ChatType>,
}

pub struct MessageView {
    pub id: Option<Seq<char>>,
    pub reply_to: Option<Seq<char>>,
    pub content: Seq<ContentItemView>,
    pub from: Option<Seq<char>>,
    pub to: Option<Seq<char>>,
    pub at: Seq<Seq<char>>,
    pub chat_type: Option<ChatType>,
}

impl DeepView for Message {
    type V = MessageView;

    open spec fn deep_view(&self) -> MessageView {
        MessageView {
            id: self.id.deep_view(),
            reply_to: self.reply_to.deep_view(),
            content: self.content.deep_view(),
            from: self.from.deep_view(),
            to: self.to.deep_view(),
            at: self.at.deep_view(),
            chat_type: self.chat_type,
        }
    }
}

impl Clone for Message {
    fn clone(&self) -> (res: Self)
        ensures
            res.deep_view() == self.deep_view(),
    {
        let mut content: Vec<ContentItem> = Vec::new();
        let mut i: usize = 0;
        while i < self.content.len()
            invariant
                i <= self.content@.len(),
                content.deep_view() == self.content.deep_view().take(i as int),
            decreases self.content@.len() - i,
        {
            let ghost before = content.deep_view();
            content.push(self.content[i].clone());
            assert(content.deep_view() == before.push(self.content@[i as int].deep_view()));
            i = i + 1;
        }
        let mut at: Vec<String> = Vec::new();
        let mut i: usize = 0;
        while i < self.at.len()
            invariant
                i <= self.at@.len(),
                at.deep_view() == self.at.deep_view().take(i as int),
            decreases self.at@.len() - i,
        {
            let ghost before = at.deep_view();
            at.push(self.at[i].clone());
            assert(at.deep_view() == before.push(self.at@[i as int].deep_view()));
            i = i + 1;
        }
        assert(content.deep_view() == self.content.deep_view());
        assert(at.deep_view() == self.at.deep_view());
        Message {
            id: copy(&self.id),
            reply_to: copy(&self.reply_to),
            content,
            from: copy(&self.from),
            to: copy(&self.to),
            at,
            chat_type: self.chat_type,
        }
    }
}

/// A command and the text behind it.
#[derive(Debug, Clone, PartialEq, Eq)]
pub struct Command {
    pub cmd: String,
    pub args: String,
}

pub struct CommandView {
    pub cmd: Seq<char>,
    pub args: Seq<char>,
}

impl DeepView for Command {
    type V = CommandView;

    open spec fn deep_view(&self) -> CommandView {
        CommandView { cmd: self.cmd@, args: self.args@ }
    }
}

/// What an event is about.
#[derive(Debug, Clone, PartialEq, Eq)]
pub enum EventType {
    Message,
    Command,
    Other(String),
}

pub enum EventTypeView {
    Message,
    Command,
    Other(Seq<char>),
}

impl DeepView for EventType {
    type V = EventTypeView;

    open spec fn deep_view(&self) -> EventTypeView {
        match self {
            EventType::Message => EventTypeView::Message,
            EventType::Command => EventTypeView::Command,
            EventType::Other(name) => EventTypeView::Other(name@),
        }
    }
}

/// An event.
#[derive(Debug, Clone, PartialEq, Eq)]
pub struct Event {
    pub event_type: EventType,
    pub source: String,
    pub data: String,
    pub command: Option<Command>,
    pub message: Option<Message>,
    pub sender: Option<String>,
    pub receiver: Option<String>,
}

pub struct EventView {
    pub event_type: EventTypeView,
    pub source: Seq<char>,
    pub data: Seq<char>,
    pub command: Option<CommandView>,
    pub message: Option<MessageView>,
    pub sender: Option<Seq<char>>,
    pub receiver: Option<Seq<char>>,
}

impl DeepView for Event {
    type V = EventView;

    open spec fn deep_view(&self) -> EventView {
        EventView {
            event_type: self.event_type.deep_view(),
            source: self.source@,
            data: self.data@,
            command: self.command.deep_view(),
            message: self.message.deep_view(),
            sender: self.sender.deep_view(),
            receiver: self.receiver.deep_view(),
        }
    }
}

} // verus!
