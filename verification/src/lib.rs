//! Conversation timeline: the schema of a conversation log, its loader,
//! stable element identities, the mapping of log items to view-model
//! records, and the composition of the timeline that shows them.

pub mod chat_input;
pub mod components;
pub mod config;
pub mod conversation;
pub mod conversation_schema;
pub mod identity;
pub mod json;
pub mod layout;
pub mod loader;
pub mod text;

pub use components::{
    AgentContentType, AgentMessage, AgentMessageContent, AgentMessageData, AgentTodoList,
    MessageContent, MessageContentType, PlanEntry, PlanEntryPriority, PlanEntryStatus,
    ResourceContent, ToolCallContent, ToolCallData, ToolCallItem, ToolCallKind, ToolCallStatus,
    UserMessage, UserMessageData,
};
pub use conversation::{ConversationPanel, TimelineItem};
pub use identity::ElementId;
pub use loader::ParseError;
