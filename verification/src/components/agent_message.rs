//! An agent turn: chunks that arrive one by one and are read as one text.

use crate::identity::{ElementId, ElementIdView};
use vstd::prelude::*;

verus! {

/// The kind of content that a chunk carries.
#[derive(Clone, Copy, Debug, PartialEq, Eq, Structural)]
pub enum AgentContentType {
    Text,
}

/// One chunk of an agent turn.
#[derive(Clone, Debug, PartialEq, Eq)]
pub struct AgentMessageContent {
    pub content_type: AgentContentType,
    pub text: String,
}

/// What a [`AgentMessageContent`] holds, as a mathematical value.
pub struct AgentMessageContentModel {
    pub content_type: AgentContentType,
    pub text: Seq<char>,
}

impl View for AgentMessageContent {
    type V = AgentMessageContentModel;

    open spec fn view(&self) -> AgentMessageContentModel {
        AgentMessageContentModel { content_type: self.content_type, text: self.text@ }
    }
}

impl AgentMessageContent {
    /// A chunk of text.
    pub fn text(text: String) -> (c: AgentMessageContent)
        ensures
            c@ == (AgentMessageContentModel { content_type: AgentContentType::Text, text: text@ }),
    {
        AgentMessageContent { content_type: AgentContentType::Text, text }
    }
}

/// The texts of `chunks`, one after the other, as one text.
pub open spec fn joined_text(chunks: Seq<AgentMessageContentModel>) -> Seq<char>
    decreases chunks.len(),
{
    if chunks.len() == 0 {
        Seq::empty()
    } else {
        joined_text(chunks.drop_last()) + chunks.last().text
    }
}

/// What an agent turn holds.
#[derive(Clone, Debug, PartialEq, Eq)]
pub struct AgentMessageData {
    pub session_id: String,
    pub agent_name: Option<String>,
    pub chunks: Vec<AgentMessageContent>,
    pub is_complete: bool,
}

/// What a [`AgentMessageData`] holds, as a mathematical value.
pub struct AgentMessageDataModel {
    pub session_id: Seq<char>,
    pub agent_name: Option<Seq<char>>,
    pub chunks: Seq<AgentMessageContentModel>,
    pub is_complete: bool,
}

impl AgentMessageDataModel {
    /// The body of the message: its chunks' texts in order.
    pub open spec fn full_text(self) -> Seq<char> {
        joined_text(self.chunks)
    }
}

impl View for AgentMessageData {
    type V = AgentMessageDataModel;

    open spec fn view(&self) -> AgentMessageDataModel {
        AgentMessageDataModel {
            session_id: self.session_id@,
            agent_name: match self.agent_name {
                Some(name) => Some(name@),
                None => None,
            },
            chunks: self.chunks@.map_values(|c: AgentMessageContent| c@),
            is_complete: self.is_complete,
        }
    }
}

impl AgentMessageData {
    /// An unnamed, incomplete message of the given session without chunks.
    pub fn new(session_id: String) -> (data: AgentMessageData)
        ensures
            data@ == (AgentMessageDataModel {
                session_id: session_id@,
                agent_name: None,
                chunks: Seq::empty(),
                is_complete: false,
            }),
    {
        let data = AgentMessageData {
            session_id,
            agent_name: None,
            chunks: Vec::new(),
            is_complete: false,
        };
        assert(data@.chunks =~= Seq::empty());
        data
    }

    /// The same message under the agent's name.
    pub fn with_agent_name(self, name: String) -> (data: AgentMessageData)
        ensures
            data@ == (AgentMessageDataModel { agent_name: Some(name@), ..self@ }),
    {
        AgentMessageData {
            session_id: self.session_id,
            agent_name: Some(name),
            chunks: self.chunks,
            is_complete: self.is_complete,
        }
    }

    /// The same message, marked complete. The content does not change.
    pub fn complete(self) -> (data: AgentMessageData)
        ensures
            data@ == (AgentMessageDataModel { is_complete: true, ..self@ }),
    {
        AgentMessageData {
            session_id: self.session_id,
            agent_name: self.agent_name,
            chunks: self.chunks,
            is_complete: true,
        }
    }

    /// The same message with one more chunk at its end.
    pub fn add_chunk(self, chunk: AgentMessageContent) -> (data: AgentMessageData)
        ensures
            data@ == (AgentMessageDataModel { chunks: self@.chunks.push(chunk@), ..self@ }),
            data@.full_text() == self@.full_text() + chunk@.text,
    {
        let mut chunks = self.chunks;
        chunks.push(chunk);
        let data = AgentMessageData {
            session_id: self.session_id,
            agent_name: self.agent_name,
            chunks,
            is_complete: self.is_complete,
        };
        proof {
            assert(data@.chunks =~= self@.chunks.push(chunk@));
            assert(data@.chunks.drop_last() =~= self@.chunks);
        }
        data
    }

    /// The body of the message: the texts of its chunks, concatenated in
    /// order.
    pub fn full_text(&self) -> (body: String)
        ensures
            body@ == self@.full_text(),
    {
        let mut body = String::new();
        let n = self.chunks.len();
        let mut i: usize = 0;
        while i < n
            invariant
                n == self.chunks@.len(),
                i <= n,
                body@ == joined_text(self@.chunks.take(i as int)),
            decreases n - i,
        {
            body.push_str(self.chunks[i].text.as_str());
            proof {
                let next = self@.chunks.take(i + 1);
                assert(next.drop_last() =~= self@.chunks.take(i as int));
                assert(next.last() == self.chunks@[i as int]@);
            }
            i += 1;
        }
        proof {
            assert(self@.chunks.take(n as int) =~= self@.chunks);
        }
        body
    }
}

/// An agent turn with its element identity.
#[derive(Clone, Debug, PartialEq, Eq)]
pub struct AgentMessage {
    pub id: ElementId,
    pub data: AgentMessageData,
}

/// What a [`AgentMessage`] holds, as a mathematical value.
pub struct AgentMessageModel {
    pub id: ElementIdView,
    pub data: AgentMessageDataModel,
}

impl View for AgentMessage {
    type V = AgentMessageModel;

    open spec fn view(&self) -> AgentMessageModel {
        AgentMessageModel { id: self.id@, data: self.data@ }
    }
}

impl AgentMessage {
    /// The agent turn with the given identity and content.
    pub fn new(id: ElementId, data: AgentMessageData) -> (m: AgentMessage)
        ensures
            m@ == (AgentMessageModel { id: id@, data: data@ }),
    {
        AgentMessage { id, data }
    }
}

} // verus!
