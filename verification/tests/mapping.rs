use agentx::components::{
    AgentContentType, AgentMessageContent, AgentMessageData, AgentTodoList, MessageContent,
    MessageContentType, PlanEntry, PlanEntryPriority, PlanEntryStatus, ResourceContent,
    ToolCallData, ToolCallKind, ToolCallStatus, UserMessageData,
};
use agentx::conversation::{ConversationPanel, TimelineItem};
use agentx::conversation_schema::{
    AgentMessageContentSchema, AgentMessageDataSchema, ConversationItem, MessageContentSchema,
    PlanEntrySchema, ResourceContentSchema, ToolCallContentSchema, ToolCallDataSchema,
    ToolCallItemSchema, UserMessageDataSchema,
};
use agentx::identity::{digest_key, identity, ElementId};
use std::collections::hash_map::DefaultHasher;
use std::hash::{Hash, Hasher};

fn s(text: &str) -> String {
    text.to_string()
}

fn plan_entry(content: &str, priority: &str, status: &str) -> PlanEntrySchema {
    PlanEntrySchema { content: s(content), priority: s(priority), status: s(status) }
}

fn tool_item(id: &str, kind: &str, status: &str, open: bool, output: &[&str]) -> ToolCallItemSchema {
    ToolCallItemSchema {
        id: s(id),
        data: ToolCallDataSchema {
            tool_call_id: format!("call-{}", id),
            title: format!("Title of {}", id),
            kind: s(kind),
            status: s(status),
            content: output.iter().map(|t| ToolCallContentSchema { text: s(t) }).collect(),
        },
        open,
    }
}

fn agent_schema(name: Option<&str>, chunks: &[&str], is_complete: bool) -> AgentMessageDataSchema {
    AgentMessageDataSchema {
        session_id: s("session-1"),
        agent_name: name.map(s),
        chunks: chunks
            .iter()
            .map(|t| AgentMessageContentSchema { content_type: s("Text"), text: s(t) })
            .collect(),
        is_complete,
    }
}

fn std_hash(key: &str) -> u64 {
    let mut hasher = DefaultHasher::new();
    key.hash(&mut hasher);
    hasher.finish()
}

#[test]
fn identity_is_the_default_hash_of_the_key() {
    for key in ["", "msg-1", "tool-42", "日本語", "a\u{0}b"] {
        assert_eq!(digest_key(key), std_hash(key));
        assert_eq!(identity(key), ElementId { name: s("item"), index: std_hash(key) });
    }
}

#[test]
fn identity_is_stable_per_key() {
    for key in ["user-1", "agent-1", "", "tool/7"] {
        assert_eq!(identity(key), identity(key));
        assert_eq!(ConversationPanel::get_id(key), identity(key));
    }
}

#[test]
fn identity_differs_over_a_corpus_of_keys() {
    let mut keys: Vec<String> = Vec::new();
    for i in 0..200 {
        keys.push(format!("msg-{}", i));
        keys.push(format!("tool-{}", i));
    }
    keys.push(s(""));
    keys.push(s("a"));
    keys.push(s("A"));
    for a in 0..keys.len() {
        for b in (a + 1)..keys.len() {
            assert_ne!(identity(&keys[a]), identity(&keys[b]));
        }
    }
}

#[test]
fn user_message_keeps_contents_in_order() {
    let data = UserMessageDataSchema {
        session_id: s("session-9"),
        contents: vec![
            MessageContentSchema::Text { text: s("Hello") },
            MessageContentSchema::Resource {
                resource: ResourceContentSchema {
                    uri: s("file:///tmp/a.rs"),
                    mime_type: s("text/x-rust"),
                    text: s("fn main() {}"),
                },
            },
            MessageContentSchema::Text { text: s("World") },
        ],
    };
    let message = ConversationPanel::map_user_message(s("u-1"), data);
    assert_eq!(message.id, identity("u-1"));
    assert_eq!(message.data.session_id, "session-9");
    assert_eq!(
        message.data.contents,
        vec![
            MessageContent::Text { text: s("Hello") },
            MessageContent::Resource {
                resource: ResourceContent {
                    uri: s("file:///tmp/a.rs"),
                    mime_type: s("text/x-rust"),
                    text: s("fn main() {}"),
                },
            },
            MessageContent::Text { text: s("World") },
        ]
    );
    assert_eq!(message.data.contents[0].content_type(), MessageContentType::Text);
    assert_eq!(message.data.contents[1].content_type(), MessageContentType::Resource);
}

#[test]
fn user_message_without_contents() {
    let data = UserMessageDataSchema { session_id: s("x"), contents: vec![] };
    let message = ConversationPanel::map_user_message(s("u-0"), data);
    assert!(message.data.contents.is_empty());
    assert_eq!(message.data, UserMessageData::new(s("x")));
}

#[test]
fn agent_message_with_empty_chunks_has_empty_text() {
    for flag in [false, true] {
        let message =
            ConversationPanel::map_agent_message(s("a-1"), agent_schema(Some("Bot"), &[], flag));
        assert_eq!(message.data.full_text(), "");
        assert_eq!(message.data.is_complete, flag);
        assert_eq!(message.data.agent_name, Some(s("Bot")));
        assert_eq!(message.data.session_id, "session-1");
        assert_eq!(message.id, identity("a-1"));
    }
}

#[test]
fn agent_message_concatenates_chunks_in_order() {
    let message = ConversationPanel::map_agent_message(
        s("a-2"),
        agent_schema(None, &["Hi", " there", "", "!"], false),
    );
    assert_eq!(message.data.full_text(), "Hi there!");
    assert_eq!(message.data.chunks.len(), 4);
    assert_eq!(message.data.chunks[1], AgentMessageContent::text(s(" there")));
    assert_eq!(message.data.chunks[1].content_type, AgentContentType::Text);
    assert_eq!(message.data.agent_name, None);
    assert!(!message.data.is_complete);
}

#[test]
fn agent_message_builders() {
    let data = AgentMessageData::new(s("s"));
    assert_eq!(data.agent_name, None);
    assert!(!data.is_complete);
    assert_eq!(data.full_text(), "");
    let data = data
        .with_agent_name(s("Assistant"))
        .add_chunk(AgentMessageContent::text(s("a")))
        .complete()
        .add_chunk(AgentMessageContent::text(s("b")));
    assert_eq!(data.agent_name, Some(s("Assistant")));
    assert!(data.is_complete);
    assert_eq!(data.full_text(), "ab");
}

#[test]
fn plan_entry_with_unknown_priority_is_medium() {
    let entry = ConversationPanel::map_plan_entry(plan_entry("x", "Bogus", "Completed"));
    assert_eq!(entry.priority, PlanEntryPriority::Medium);
    assert_eq!(entry.status, PlanEntryStatus::Completed);
}

#[test]
fn plan_entry_with_unknown_status_is_pending() {
    let entry = ConversationPanel::map_plan_entry(plan_entry("x", "Low", "Bogus"));
    assert_eq!(entry.priority, PlanEntryPriority::Low);
    assert_eq!(entry.status, PlanEntryStatus::Pending);
}

#[test]
fn plan_entry_coercion_table() {
    assert_eq!(PlanEntryPriority::from_str("High"), PlanEntryPriority::High);
    assert_eq!(PlanEntryPriority::from_str("Medium"), PlanEntryPriority::Medium);
    assert_eq!(PlanEntryPriority::from_str("Low"), PlanEntryPriority::Low);
    assert_eq!(PlanEntryPriority::from_str("high"), PlanEntryPriority::Medium);
    assert_eq!(PlanEntryPriority::from_str(""), PlanEntryPriority::Medium);
    assert_eq!(PlanEntryStatus::from_str("Pending"), PlanEntryStatus::Pending);
    assert_eq!(PlanEntryStatus::from_str("InProgress"), PlanEntryStatus::InProgress);
    assert_eq!(PlanEntryStatus::from_str("Completed"), PlanEntryStatus::Completed);
    assert_eq!(PlanEntryStatus::from_str("Failed"), PlanEntryStatus::Pending);
    assert_eq!(PlanEntryStatus::from_str("completed"), PlanEntryStatus::Pending);
}

#[test]
fn todo_list_keeps_title_and_order() {
    let list = ConversationPanel::map_todo_list(
        s("Plan"),
        vec![
            plan_entry("Step 1", "High", "Completed"),
            plan_entry("Step 2", "Low", "InProgress"),
            plan_entry("Step 3", "Medium", "Pending"),
        ],
    );
    assert_eq!(list.title, "Plan");
    assert_eq!(
        list.entries,
        vec![
            PlanEntry {
                content: s("Step 1"),
                priority: PlanEntryPriority::High,
                status: PlanEntryStatus::Completed,
            },
            PlanEntry {
                content: s("Step 2"),
                priority: PlanEntryPriority::Low,
                status: PlanEntryStatus::InProgress,
            },
            PlanEntry {
                content: s("Step 3"),
                priority: PlanEntryPriority::Medium,
                status: PlanEntryStatus::Pending,
            },
        ]
    );
}

#[test]
fn todo_list_builders() {
    let empty = AgentTodoList::new();
    assert_eq!(empty.title, "");
    assert!(empty.entries.is_empty());
    let entry = PlanEntry::new(s("do it"));
    assert_eq!(entry.priority, PlanEntryPriority::Medium);
    assert_eq!(entry.status, PlanEntryStatus::Pending);
    let list = empty.title(s("T")).entries(vec![entry.clone().with_priority(PlanEntryPriority::Low)]);
    assert_eq!(list.title, "T");
    assert_eq!(list.entries[0].priority, PlanEntryPriority::Low);
    assert_eq!(list.entries[0].content, "do it");
}

#[test]
fn tool_call_with_unknown_kind_is_other() {
    let call = ConversationPanel::map_tool_call(tool_item("t", "Teleport", "Completed", false, &[]));
    assert_eq!(call.data.kind, ToolCallKind::Other);
    assert_eq!(call.data.status, ToolCallStatus::Completed);
}

#[test]
fn tool_call_with_failed_status_is_failed() {
    let call = ConversationPanel::map_tool_call(tool_item("t", "read", "Failed", false, &[]));
    assert_eq!(call.data.status, ToolCallStatus::Failed);
    assert_eq!(call.data.kind, ToolCallKind::Read);
}

#[test]
fn tool_call_kind_is_looked_up_without_regard_to_case() {
    let cases = [
        ("Read", ToolCallKind::Read),
        ("EDIT", ToolCallKind::Edit),
        ("dElEtE", ToolCallKind::Delete),
        ("Move", ToolCallKind::Move),
        ("SEARCH", ToolCallKind::Search),
        ("Execute", ToolCallKind::Execute),
        ("Think", ToolCallKind::Think),
        ("FETCH", ToolCallKind::Fetch),
        ("fetch", ToolCallKind::Fetch),
        ("Other", ToolCallKind::Other),
        ("", ToolCallKind::Other),
    ];
    for (name, kind) in cases {
        let call = ConversationPanel::map_tool_call(tool_item("t", name, "Pending", false, &[]));
        assert_eq!(call.data.kind, kind);
    }
}

#[test]
fn tool_call_kind_by_exact_name() {
    assert_eq!(ToolCallKind::from_str("read"), ToolCallKind::Read);
    assert_eq!(ToolCallKind::from_str("Read"), ToolCallKind::Other);
    assert_eq!(ToolCallKind::from_str("execute"), ToolCallKind::Execute);
    let item = tool_item("t", "ignored", "Pending", true, &["out"]);
    let call = ConversationPanel::map_tool_call_with_kind(item, "think");
    assert_eq!(call.data.kind, ToolCallKind::Think);
}

#[test]
fn tool_call_status_table() {
    assert_eq!(ToolCallStatus::from_str("Pending"), ToolCallStatus::Pending);
    assert_eq!(ToolCallStatus::from_str("InProgress"), ToolCallStatus::InProgress);
    assert_eq!(ToolCallStatus::from_str("Completed"), ToolCallStatus::Completed);
    assert_eq!(ToolCallStatus::from_str("Failed"), ToolCallStatus::Failed);
    assert_eq!(ToolCallStatus::from_str("Unknown"), ToolCallStatus::Pending);
    assert_eq!(ToolCallStatus::from_str("failed"), ToolCallStatus::Pending);
}

#[test]
fn tool_call_carries_fields_through() {
    let call =
        ConversationPanel::map_tool_call(tool_item("t-7", "Search", "InProgress", true, &["a", "b"]));
    assert_eq!(call.id, identity("t-7"));
    assert!(call.open);
    assert_eq!(call.data.tool_call_id, "call-t-7");
    assert_eq!(call.data.title, "Title of t-7");
    assert_eq!(call.data.content.len(), 2);
    assert_eq!(call.data.content[0].text, "a");
    assert_eq!(call.data.content[1].text, "b");
    let closed = ConversationPanel::map_tool_call(tool_item("t-7", "Search", "InProgress", false, &[]));
    assert!(!closed.open);
    assert_eq!(closed.id, call.id);
}

#[test]
fn tool_call_data_defaults() {
    let data = ToolCallData::new(s("id"), s("title"));
    assert_eq!(data.kind, ToolCallKind::Other);
    assert_eq!(data.status, ToolCallStatus::Pending);
    assert!(data.content.is_empty());
}

#[test]
fn panel_keeps_count_and_order() {
    let items = vec![
        ConversationItem::AgentTodoList { title: s("first"), entries: vec![] },
        ConversationItem::UserMessage {
            id: s("u"),
            data: UserMessageDataSchema { session_id: s("s"), contents: vec![] },
        },
        ConversationItem::ToolCallGroup { items: vec![] },
        ConversationItem::AgentMessage { id: s("a"), data: agent_schema(None, &["x"], true) },
        ConversationItem::UserMessage {
            id: s("u2"),
            data: UserMessageDataSchema { session_id: s("s"), contents: vec![] },
        },
    ];
    let panel = ConversationPanel::new(items.clone());
    assert_eq!(panel.len(), items.len());
    assert!(matches!(&panel.items[0], TimelineItem::AgentTodoList(l) if l.title == "first"));
    assert!(matches!(&panel.items[1], TimelineItem::UserMessage(m) if m.id == identity("u")));
    assert!(matches!(&panel.items[2], TimelineItem::ToolCallGroup(g) if g.is_empty()));
    assert!(matches!(&panel.items[3], TimelineItem::AgentMessage(m) if m.id == identity("a")));
    assert!(matches!(&panel.items[4], TimelineItem::UserMessage(m) if m.id == identity("u2")));
    for (source, mapped) in items.into_iter().zip(panel.items.iter()) {
        assert_eq!(&ConversationPanel::map_item(source), mapped);
    }
}

#[test]
fn empty_log_gives_empty_panel() {
    let panel = ConversationPanel::new(vec![]);
    assert_eq!(panel.len(), 0);
    assert!(panel.render().rows.is_empty());
}

#[test]
fn mapping_the_same_id_twice_gives_the_same_identity() {
    let first = ConversationPanel::map_user_message(
        s("same"),
        UserMessageDataSchema { session_id: s("s1"), contents: vec![] },
    );
    let second = ConversationPanel::map_agent_message(s("same"), agent_schema(None, &["z"], true));
    let third = ConversationPanel::map_tool_call(tool_item("same", "read", "Pending", false, &[]));
    assert_eq!(first.id, second.id);
    assert_eq!(second.id, third.id);
    assert_eq!(first.id, ConversationPanel::get_id("same"));
    assert_eq!(first.id, ConversationPanel::get_id("same"));
}
