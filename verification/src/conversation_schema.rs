//! The typed shape of a conversation log. Fields that stand for an
//! enumeration (priority, status, kind) are plain strings here: coercion is
//! done when an item is mapped to its view-model.

use vstd::prelude::*;

verus! {

/// A resource attached to a user message.
#[derive(Debug, Clone, PartialEq, Eq)]
pub struct ResourceContentSchema {
    pub uri: String,
    pub mime_type: String,
    pub text: String,
}

/// What a [`ResourceContentSchema`] holds, as a mathematical value.
pub struct ResourceContentSchemaModel {
    pub uri: Seq<char>,
    pub mime_type: Seq<char>,
    pub text: Seq<char>,
}

impl View for ResourceContentSchema {
    type V = ResourceContentSchemaModel;

    open spec fn view(&self) -> ResourceContentSchemaModel {
        ResourceContentSchemaModel { uri: self.uri@, mime_type: self.mime_type@, text: self.text@ }
    }
}

/// One content entry of a user message.
#[derive(Debug, Clone, PartialEq, Eq)]
pub enum MessageContentSchema {
    Text { text: String },
    Resource { resource: ResourceContentSchema },
}

/// What a [`MessageContentSchema`] holds, as a mathematical value.
pub enum MessageContentSchemaModel {
    Text { text: Seq<char> },
    Resource { resource: ResourceContentSchemaModel },
}

impl View for MessageContentSchema {
    type V = MessageContentSchemaModel;

    open spec fn view(&self) -> MessageContentSchemaModel {
        match *self {
            MessageContentSchema::Text { text } => MessageContentSchemaModel::Text { text: text@ },
            MessageContentSchema::Resource { resource } => MessageContentSchemaModel::Resource {
                resource: resource@,
            },
        }
    }
}

/// Payload of a user turn.
#[derive(Debug, Clone, PartialEq, Eq)]
pub struct UserMessageDataSchema {
    pub session_id: String,
    pub contents: Vec<MessageContentSchema>,
}

/// What a [`UserMessageDataSchema`] holds, as a mathematical value.
pub struct UserMessageDataSchemaModel {
    pub session_id: Seq<char>,
    pub contents: Seq<MessageContentSchemaModel>,
}

impl View for UserMessageDataSchema {
    type V = UserMessageDataSchemaModel;

    open spec fn view(&self) -> UserMessageDataSchemaModel {
        UserMessageDataSchemaModel {
            session_id: self.session_id@,
            contents: self.contents@.map_values(|c: MessageContentSchema| c@),
        }
    }
}

/// One streamed chunk of an agent turn.
#[derive(Debug, Clone, PartialEq, Eq)]
pub struct AgentMessageContentSchema {
    pub content_type: String,
    pub text: String,
}

/// What a [`AgentMessageContentSchema`] holds, as a mathematical value.
pub struct AgentMessageContentSchemaModel {
    pub content_type: Seq<char>,
    pub text: Seq<char>,
}

impl View for AgentMessageContentSchema {
    type V = AgentMessageContentSchemaModel;

    open spec fn view(&self) -> AgentMessageContentSchemaModel {
        AgentMessageContentSchemaModel { content_type: self.content_type@, text: self.text@ }
    }
}

/// Payload of an agent turn.
#[derive(Debug, Clone, PartialEq, Eq)]
pub struct AgentMessageDataSchema {
    pub session_id: String,
    pub agent_name: Option<String>,
    pub chunks: Vec<AgentMessageContentSchema>,
    pub is_complete: bool,
}

/// What a [`AgentMessageDataSchema`] holds, as a mathematical value.
pub struct AgentMessageDataSchemaModel {
    pub session_id: Seq<char>,
    pub agent_name: Option<Seq<char>>,
    pub chunks: Seq<AgentMessageContentSchemaModel>,
    pub is_complete: bool,
}

impl View for AgentMessageDataSchema {
    type V = AgentMessageDataSchemaModel;

    open spec fn view(&self) -> AgentMessageDataSchemaModel {
        AgentMessageDataSchemaModel {
            session_id: self.session_id@,
            agent_name: match self.agent_name {
                Some(name) => Some(name@),
                None => None,
            },
            chunks: self.chunks@.map_values(|c: AgentMessageContentSchema| c@),
            is_complete: self.is_complete,
        }
    }
}

/// One entry of a plan, as the log has it.
#[derive(Debug, Clone, PartialEq, Eq)]
pub struct PlanEntrySchema {
    pub content: String,
    pub priority: String,
    pub status: String,
}

/// What a [`PlanEntrySchema`] holds, as a mathematical value.
pub struct PlanEntrySchemaModel {
    pub content: Seq<char>,
    pub priority: Seq<char>,
    pub status: Seq<char>,
}

impl View for PlanEntrySchema {
    type V = PlanEntrySchemaModel;

    open spec fn view(&self) -> PlanEntrySchemaModel {
        PlanEntrySchemaModel {
            content: self.content@,
            priority: self.priority@,
            status: self.status@,
        }
    }
}

/// One piece of output of a tool call.
#[derive(Debug, Clone, PartialEq, Eq)]
pub struct ToolCallContentSchema {
    pub text: String,
}

/// What a [`ToolCallContentSchema`] holds, as a mathematical value.
pub struct ToolCallContentSchemaModel {
    pub text: Seq<char>,
}

impl View for ToolCallContentSchema {
    type V = ToolCallContentSchemaModel;

    open spec fn view(&self) -> ToolCallContentSchemaModel {
        ToolCallContentSchemaModel { text: self.text@ }
    }
}

/// Payload of a tool call.
#[derive(Debug, Clone, PartialEq, Eq)]
pub struct ToolCallDataSchema {
    pub tool_call_id: String,
    pub title: String,
    pub kind: String,
    pub status: String,
    pub content: Vec<ToolCallContentSchema>,
}

/// What a [`ToolCallDataSchema`] holds, as a mathematical value.
pub struct ToolCallDataSchemaModel {
    pub tool_call_id: Seq<char>,
    pub title: Seq<char>,
    pub kind: Seq<char>,
    pub status: Seq<char>,
    pub content: Seq<ToolCallContentSchemaModel>,
}

impl View for ToolCallDataSchema {
    type V = ToolCallDataSchemaModel;

    open spec fn view(&self) -> ToolCallDataSchemaModel {
        ToolCallDataSchemaModel {
            tool_call_id: self.tool_call_id@,
            title: self.title@,
            kind: self.kind@,
            status: self.status@,
            content: self.content@.map_values(|c: ToolCallContentSchema| c@),
        }
    }
}

/// One tool call of a group, with its collapsed/expanded flag.
#[derive(Debug, Clone, PartialEq, Eq)]
pub struct ToolCallItemSchema {
    pub id: String,
    pub data: ToolCallDataSchema,
    pub open: bool,
}

/// What a [`ToolCallItemSchema`] holds, as a mathematical value.
pub struct ToolCallItemSchemaModel {
    pub id: Seq<char>,
    pub data: ToolCallDataSchemaModel,
    pub open: bool,
}

impl View for ToolCallItemSchema {
    type V = ToolCallItemSchemaModel;

    open spec fn view(&self) -> ToolCallItemSchemaModel {
        ToolCallItemSchemaModel { id: self.id@, data: self.data@, open: self.open }
    }
}

/// One item of the conversation log. The log is a sequence of these, in
/// display order.
#[derive(Debug, Clone, PartialEq, Eq)]
pub enum ConversationItem {
    UserMessage { id: String, data: UserMessageDataSchema },
    AgentMessage { id: String, data: AgentMessageDataSchema },
    AgentTodoList { title: String, entries: Vec<PlanEntrySchema> },
    ToolCallGroup { items: Vec<ToolCallItemSchema> },
}

/// What a [`ConversationItem`] holds, as a mathematical value.
pub enum ConversationItemModel {
    UserMessage { id: Seq<char>, data: UserMessageDataSchemaModel },
    AgentMessage { id: Seq<char>, data: AgentMessageDataSchemaModel },
    AgentTodoList { title: Seq<char>, entries: Seq<PlanEntrySchemaModel> },
    ToolCallGroup { items: Seq<ToolCallItemSchemaModel> },
}

impl View for ConversationItem {
    type V = ConversationItemModel;

    open spec fn view(&self) -> ConversationItemModel {
        match *self {
            ConversationItem::UserMessage { id, data } => ConversationItemModel::UserMessage {
                id: id@,
                data: data@,
            },
            ConversationItem::AgentMessage { id, data } => ConversationItemModel::AgentMessage {
                id: id@,
                data: data@,
            },
            ConversationItem::AgentTodoList { title, entries } => {
                ConversationItemModel::AgentTodoList {
                    title: title@,
                    entries: entries@.map_values(|e: PlanEntrySchema| e@),
                }
            },
            ConversationItem::ToolCallGroup { items } => ConversationItemModel::ToolCallGroup {
                items: items@.map_values(|t: ToolCallItemSchema| t@),
            },
        }
    }
}

} // verus!
