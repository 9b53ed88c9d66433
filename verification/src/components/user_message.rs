//! A user turn: its content entries in the order in which they are shown.

use crate::identity::{ElementId, ElementIdView};
use vstd::prelude::*;

verus! {

/// The kind of a content entry.
#[derive(Clone, Copy, Debug, PartialEq, Eq, Structural)]
pub enum MessageContentType {
    Text,
    Resource,
}

/// A resource attached to a user message: where it is, what it is, and its
/// text.
#[derive(Clone, Debug, PartialEq, Eq)]
pub struct ResourceContent {
    pub uri: String,
    pub mime_type: String,
    pub text: String,
}

/// What a [`ResourceContent`] holds, as a mathematical value.
pub struct ResourceContentModel {
    pub uri: Seq<char>,
    pub mime_type: Seq<char>,
    pub text: Seq<char>,
}

impl View for ResourceContent {
    type V = ResourceContentModel;

    open spec fn view(&self) -> ResourceContentModel {
        ResourceContentModel { uri: self.uri@, mime_type: self.mime_type@, text: self.text@ }
    }
}

impl ResourceContent {
    /// The resource at `uri`, of the given type and text.
    pub fn new(uri: String, mime_type: String, text: String) -> (r: ResourceContent)
        ensures
            r@ == (ResourceContentModel { uri: uri@, mime_type: mime_type@, text: text@ }),
    {
        ResourceContent { uri, mime_type, text }
    }
}

/// One content entry of a user message.
#[derive(Clone, Debug, PartialEq, Eq)]
pub enum MessageContent {
    Text { text: String },
    Resource { resource: ResourceContent },
}

/// What a [`MessageContent`] holds, as a mathematical value.
pub enum MessageContentModel {
    Text { text: Seq<char> },
    Resource { resource: ResourceContentModel },
}

impl View for MessageContent {
    type V = MessageContentModel;

    open spec fn view(&self) -> MessageContentModel {
        match *self {
            MessageContent::Text { text } => MessageContentModel::Text { text: text@ },
            MessageContent::Resource { resource } => MessageContentModel::Resource {
                resource: resource@,
            },
        }
    }
}

impl MessageContent {
    /// A text entry.
    pub fn text(text: String) -> (c: MessageContent)
        ensures
            c@ == (MessageContentModel::Text { text: text@ }),
    {
        MessageContent::Text { text }
    }

    /// A resource entry.
    pub fn resource(resource: ResourceContent) -> (c: MessageContent)
        ensures
            c@ == (MessageContentModel::Resource { resource: resource@ }),
    {
        MessageContent::Resource { resource }
    }

    /// Which kind of entry this is.
    pub fn content_type(&self) -> (t: MessageContentType)
        ensures
            t == (match self@ {
                MessageContentModel::Text { .. } => MessageContentType::Text,
                MessageContentModel::Resource { .. } => MessageContentType::Resource,
            }),
    {
        match self {
            MessageContent::Text { .. } => MessageContentType::Text,
            MessageContent::Resource { .. } => MessageContentType::Resource,
        }
    }
}

/// What a user turn holds.
#[derive(Clone, Debug, PartialEq, Eq)]
pub struct UserMessageData {
    pub session_id: String,
    pub contents: Vec<MessageContent>,
}

/// What a [`UserMessageData`] holds, as a mathematical value.
pub struct UserMessageDataModel {
    pub session_id: Seq<char>,
    pub contents: Seq<MessageContentModel>,
}

impl View for UserMessageData {
    type V = UserMessageDataModel;

    open spec fn view(&self) -> UserMessageDataModel {
        UserMessageDataModel {
            session_id: self.session_id@,
            contents: self.contents@.map_values(|c: MessageContent| c@),
        }
    }
}

impl UserMessageData {
    /// A message of the given session without content.
    pub fn new(session_id: String) -> (data: UserMessageData)
        ensures
            data@ == (UserMessageDataModel { session_id: session_id@, contents: Seq::empty() }),
    {
        let data = UserMessageData { session_id, contents: Vec::new() };
        assert(data@.contents =~= Seq::empty());
        data
    }

    /// The same message with one more entry at its end.
    pub fn add_content(self, content: MessageContent) -> (data: UserMessageData)
        ensures
            data@ == (UserMessageDataModel {
                contents: self@.contents.push(content@),
                ..self@
            }),
    {
        let mut contents = self.contents;
        contents.push(content);
        let data = UserMessageData { session_id: self.session_id, contents };
        assert(data@.contents =~= self@.contents.push(content@));
        data
    }
}

/// A user turn with its element identity.
#[derive(Clone, Debug, PartialEq, Eq)]
pub struct UserMessage {
    pub id: ElementId,
    pub data: UserMessageData,
}

/// What a [`UserMessage`] holds, as a mathematical value.
pub struct UserMessageModel {
    pub id: ElementIdView,
    pub data: UserMessageDataModel,
}

impl View for UserMessage {
    type V = UserMessageModel;

    open spec fn view(&self) -> UserMessageModel {
        UserMessageModel { id: self.id@, data: self.data@ }
    }
}

impl UserMessage {
    /// The user turn with the given identity and content.
    pub fn new(id: ElementId, data: UserMessageData) -> (m: UserMessage)
        ensures
            m@ == (UserMessageModel { id: id@, data: data@ }),
    {
        UserMessage { id, data }
    }
}

} // verus!
