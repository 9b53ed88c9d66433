//! View-model records of the conversation timeline.

pub mod agent_message;
pub mod agent_todo_list;
pub mod tool_call_item;
pub mod user_message;

pub use agent_message::{AgentContentType, AgentMessage, AgentMessageContent, AgentMessageData};
pub use agent_todo_list::{AgentTodoList, PlanEntry, PlanEntryPriority, PlanEntryStatus};
pub use tool_call_item::{
    ToolCallContent, ToolCallData, ToolCallItem, ToolCallKind, ToolCallStatus,
};
pub use user_message::{
    MessageContent, MessageContentType, ResourceContent, UserMessage, UserMessageData,
};
