use agentx::components::{PlanEntryPriority, PlanEntryStatus, ToolCallKind, ToolCallStatus};
use agentx::conversation::{ConversationPanel, TimelineItem};
use agentx::conversation_schema::{
    AgentMessageContentSchema, AgentMessageDataSchema, ConversationItem, MessageContentSchema,
    PlanEntrySchema, ResourceContentSchema, ToolCallContentSchema, ToolCallDataSchema,
    ToolCallItemSchema, UserMessageDataSchema,
};
use agentx::identity::identity;
use agentx::layout::{Block, Row, TODO_INDENT, TOOL_GAP, TOOL_INDENT};
use agentx::loader::{decode_document, decode_item, load_document, ParseError, Problem, ProblemKind};

const CONVERSATION: &str = r#"[
  {
    "type": "UserMessage",
    "id": "user-1",
    "data": {
      "session_id": "session-1",
      "contents": [
        { "type": "Text", "text": "Hello" },
        { "type": "Text", "text": "World" }
      ]
    }
  },
  {
    "type": "AgentMessage",
    "id": "agent-1",
    "data": {
      "session_id": "session-1",
      "agent_name": "Assistant",
      "chunks": [
        { "content_type": "Text", "text": "Hi" },
        { "content_type": "Text", "text": " there" }
      ],
      "is_complete": true
    }
  },
  {
    "type": "AgentTodoList",
    "title": "Plan",
    "entries": [
      { "content": "Step 1", "priority": "High", "status": "Completed" }
    ]
  }
]"#;

const TOOL_CALLS: &str = r#"[
  {
    "type": "ToolCallGroup",
    "items": [
      {
        "id": "tool-1",
        "open": true,
        "data": {
          "tool_call_id": "call-1",
          "title": "Read the file",
          "kind": "Read",
          "status": "InProgress",
          "content": [ { "text": "line 1" }, { "text": "line 2" } ]
        }
      },
      {
        "id": "tool-2",
        "open": false,
        "data": {
          "tool_call_id": "call-2",
          "title": "Do something",
          "kind": "Mystery",
          "status": "Unknown",
          "content": []
        }
      }
    ]
  }
]"#;

fn text(t: &str) -> String {
    t.to_string()
}

fn item_problem(document: &str) -> (usize, ProblemKind, &'static str) {
    match load_document(document) {
        Err(ParseError::Item { index, problem }) => (index, problem.kind, problem.field),
        other => panic!("expected a malformed item, got {:?}", other),
    }
}

#[test]
fn document_is_read_as_written() {
    let items = load_document(CONVERSATION).unwrap();
    assert_eq!(
        items,
        vec![
            ConversationItem::UserMessage {
                id: text("user-1"),
                data: UserMessageDataSchema {
                    session_id: text("session-1"),
                    contents: vec![
                        MessageContentSchema::Text { text: text("Hello") },
                        MessageContentSchema::Text { text: text("World") },
                    ],
                },
            },
            ConversationItem::AgentMessage {
                id: text("agent-1"),
                data: AgentMessageDataSchema {
                    session_id: text("session-1"),
                    agent_name: Some(text("Assistant")),
                    chunks: vec![
                        AgentMessageContentSchema { content_type: text("Text"), text: text("Hi") },
                        AgentMessageContentSchema {
                            content_type: text("Text"),
                            text: text(" there"),
                        },
                    ],
                    is_complete: true,
                },
            },
            ConversationItem::AgentTodoList {
                title: text("Plan"),
                entries: vec![PlanEntrySchema {
                    content: text("Step 1"),
                    priority: text("High"),
                    status: text("Completed"),
                }],
            },
        ]
    );
}

#[test]
fn tool_calls_are_read_without_coercion() {
    let items = load_document(TOOL_CALLS).unwrap();
    assert_eq!(
        items,
        vec![ConversationItem::ToolCallGroup {
            items: vec![
                ToolCallItemSchema {
                    id: text("tool-1"),
                    data: ToolCallDataSchema {
                        tool_call_id: text("call-1"),
                        title: text("Read the file"),
                        kind: text("Read"),
                        status: text("InProgress"),
                        content: vec![
                            ToolCallContentSchema { text: text("line 1") },
                            ToolCallContentSchema { text: text("line 2") },
                        ],
                    },
                    open: true,
                },
                ToolCallItemSchema {
                    id: text("tool-2"),
                    data: ToolCallDataSchema {
                        tool_call_id: text("call-2"),
                        title: text("Do something"),
                        kind: text("Mystery"),
                        status: text("Unknown"),
                        content: vec![],
                    },
                    open: false,
                },
            ],
        }]
    );
}

#[test]
fn end_to_end_user_agent_todo() {
    let panel = ConversationPanel::from_json(CONVERSATION).unwrap();
    assert_eq!(panel.len(), 3);
    let tree = panel.render();
    assert_eq!(tree.rows.len(), 3);
    match &tree.rows[0] {
        Row::Block(Block::UserMessage(m)) => {
            assert_eq!(m.id, identity("user-1"));
            assert_eq!(m.data.contents.len(), 2);
        }
        other => panic!("first row: {:?}", other),
    }
    match &tree.rows[1] {
        Row::Block(Block::AgentMessage(m)) => {
            assert_eq!(m.data.full_text(), "Hi there");
            assert!(m.data.is_complete);
        }
        other => panic!("second row: {:?}", other),
    }
    match &tree.rows[2] {
        Row::Group(group) => {
            assert_eq!((group.indent, group.gap), (TODO_INDENT, 0));
            match &group.children[..] {
                [Block::TodoList(list)] => {
                    assert_eq!(list.title, "Plan");
                    assert_eq!(list.entries[0].priority, PlanEntryPriority::High);
                    assert_eq!(list.entries[0].status, PlanEntryStatus::Completed);
                }
                other => panic!("children: {:?}", other),
            }
        }
        other => panic!("third row: {:?}", other),
    }
}

#[test]
fn end_to_end_tool_call_group() {
    let panel = ConversationPanel::from_json(TOOL_CALLS).unwrap();
    let tree = panel.render();
    assert_eq!(tree.rows.len(), 1);
    match &tree.rows[0] {
        Row::Group(group) => {
            assert_eq!((group.indent, group.gap), (TOOL_INDENT, TOOL_GAP));
            match &group.children[..] {
                [Block::ToolCall(first), Block::ToolCall(second)] => {
                    assert_eq!(first.id, identity("tool-1"));
                    assert_eq!(first.data.kind, ToolCallKind::Read);
                    assert_eq!(first.data.status, ToolCallStatus::InProgress);
                    assert!(first.open);
                    assert_eq!(second.id, identity("tool-2"));
                    assert_eq!(second.data.kind, ToolCallKind::Other);
                    assert_eq!(second.data.status, ToolCallStatus::Pending);
                    assert!(!second.open);
                }
                other => panic!("children: {:?}", other),
            }
        }
        other => panic!("row: {:?}", other),
    }
}

#[test]
fn empty_array_is_an_empty_log() {
    assert_eq!(load_document("[]"), Ok(vec![]));
    assert_eq!(ConversationPanel::from_json(" [ ] ").map(|p| p.len()), Ok(0));
}

#[test]
fn text_that_is_no_json_is_a_syntax_error() {
    match load_document("[{\"type\": ") {
        Err(ParseError::Syntax { line, column, message }) => {
            assert_eq!(line, 1);
            assert!(column > 0);
            assert!(!message.is_empty());
        }
        other => panic!("{:?}", other),
    }
    assert!(matches!(load_document(""), Err(ParseError::Syntax { .. })));
    assert!(matches!(load_document("[] []"), Err(ParseError::Syntax { .. })));
    assert!(matches!(
        ConversationPanel::from_json("\n\n  nonsense"),
        Err(ParseError::Syntax { line: 3, .. })
    ));
}

#[test]
fn document_that_is_no_array() {
    assert_eq!(load_document("{}"), Err(ParseError::NotAnArray));
    assert_eq!(load_document("null"), Err(ParseError::NotAnArray));
    assert_eq!(load_document("\"[]\""), Err(ParseError::NotAnArray));
    assert_eq!(ConversationPanel::from_json("42"), Err(ParseError::NotAnArray));
}

#[test]
fn item_without_type() {
    assert_eq!(item_problem(r#"[{"id": "x"}]"#), (0, ProblemKind::Missing, "type"));
    assert_eq!(item_problem(r#"[[], 3]"#), (0, ProblemKind::Missing, "type"));
    assert_eq!(item_problem(r#"[{"type": 7}]"#), (0, ProblemKind::WrongType, "type"));
}

#[test]
fn item_of_unknown_type() {
    assert_eq!(
        item_problem(r#"[{"type": "ToolCallGroup", "items": []}, {"type": "Banner"}]"#),
        (1, ProblemKind::UnknownType, "type")
    );
    assert_eq!(
        item_problem(r#"[{"type": "usermessage", "id": "u"}]"#),
        (0, ProblemKind::UnknownType, "type")
    );
}

#[test]
fn first_malformed_item_is_reported() {
    let document = r#"[
        {"type": "AgentTodoList", "title": "ok", "entries": []},
        {"type": "AgentTodoList", "entries": []},
        {"type": "Nothing"}
    ]"#;
    assert_eq!(item_problem(document), (1, ProblemKind::Missing, "title"));
}

#[test]
fn members_are_checked_in_the_order_of_the_schema() {
    assert_eq!(
        item_problem(r#"[{"type": "UserMessage", "data": {}}]"#),
        (0, ProblemKind::Missing, "id")
    );
    assert_eq!(
        item_problem(r#"[{"type": "UserMessage", "id": "u"}]"#),
        (0, ProblemKind::Missing, "data")
    );
    assert_eq!(
        item_problem(r#"[{"type": "UserMessage", "id": "u", "data": {"contents": 1}}]"#),
        (0, ProblemKind::Missing, "session_id")
    );
    assert_eq!(
        item_problem(r#"[{"type": "UserMessage", "id": "u", "data": {"session_id": "s", "contents": 1}}]"#),
        (0, ProblemKind::WrongType, "contents")
    );
    assert_eq!(
        item_problem(r#"[{"type": "UserMessage", "id": 5, "data": {}}]"#),
        (0, ProblemKind::WrongType, "id")
    );
}

#[test]
fn problems_inside_message_contents() {
    let with = |contents: &str| {
        format!(
            r#"[{{"type": "UserMessage", "id": "u", "data": {{"session_id": "s", "contents": {}}}}}]"#,
            contents
        )
    };
    assert_eq!(item_problem(&with(r#"[{"type": "Text"}]"#)), (0, ProblemKind::Missing, "text"));
    assert_eq!(
        item_problem(&with(r#"[{"type": "Text", "text": "a"}, {"type": "Image"}]"#)),
        (0, ProblemKind::UnknownType, "type")
    );
    assert_eq!(
        item_problem(&with(r#"[{"type": "Resource"}]"#)),
        (0, ProblemKind::Missing, "resource")
    );
    assert_eq!(
        item_problem(&with(r#"[{"type": "Resource", "resource": {"uri": "u", "text": "t"}}]"#)),
        (0, ProblemKind::Missing, "mime_type")
    );
    let items = load_document(&with(
        r#"[{"type": "Resource", "resource": {"uri": "u", "mime_type": "m", "text": "t"}}]"#,
    ))
    .unwrap();
    assert_eq!(
        items,
        vec![ConversationItem::UserMessage {
            id: text("u"),
            data: UserMessageDataSchema {
                session_id: text("s"),
                contents: vec![MessageContentSchema::Resource {
                    resource: ResourceContentSchema {
                        uri: text("u"),
                        mime_type: text("m"),
                        text: text("t"),
                    },
                }],
            },
        }]
    );
}

#[test]
fn agent_name_is_optional() {
    let with = |agent_name: &str| {
        format!(
            r#"[{{"type": "AgentMessage", "id": "a", "data": {{"session_id": "s", {} "chunks": [], "is_complete": false}}}}]"#,
            agent_name
        )
    };
    let name_of = |document: &str| match load_document(document).unwrap().remove(0) {
        ConversationItem::AgentMessage { data, .. } => data.agent_name,
        other => panic!("{:?}", other),
    };
    assert_eq!(name_of(&with("")), None);
    assert_eq!(name_of(&with(r#""agent_name": null,"#)), None);
    assert_eq!(name_of(&with(r#""agent_name": "Bot","#)), Some(text("Bot")));
    assert_eq!(item_problem(&with(r#""agent_name": 3,"#)), (0, ProblemKind::WrongType, "agent_name"));
}

#[test]
fn agent_message_problems() {
    assert_eq!(
        item_problem(
            r#"[{"type": "AgentMessage", "id": "a", "data": {"session_id": "s", "chunks": []}}]"#
        ),
        (0, ProblemKind::Missing, "is_complete")
    );
    assert_eq!(
        item_problem(
            r#"[{"type": "AgentMessage", "id": "a", "data": {"session_id": "s", "chunks": [], "is_complete": "yes"}}]"#
        ),
        (0, ProblemKind::WrongType, "is_complete")
    );
    assert_eq!(
        item_problem(
            r#"[{"type": "AgentMessage", "id": "a", "data": {"session_id": "s", "chunks": [{"text": "x"}], "is_complete": true}}]"#
        ),
        (0, ProblemKind::Missing, "content_type")
    );
}

#[test]
fn tool_call_problems() {
    assert_eq!(
        item_problem(r#"[{"type": "ToolCallGroup"}]"#),
        (0, ProblemKind::Missing, "items")
    );
    assert_eq!(
        item_problem(r#"[{"type": "ToolCallGroup", "items": [{"id": "t", "open": true}]}]"#),
        (0, ProblemKind::Missing, "data")
    );
    assert_eq!(
        item_problem(
            r#"[{"type": "ToolCallGroup", "items": [{"id": "t", "data": {"tool_call_id": "c", "title": "t", "kind": "k", "status": "s", "content": [{}]}, "open": true}]}]"#
        ),
        (0, ProblemKind::Missing, "text")
    );
    assert_eq!(
        item_problem(
            r#"[{"type": "ToolCallGroup", "items": [{"id": "t", "data": {"tool_call_id": "c", "title": "t", "kind": "k", "status": "s", "content": []}}]}]"#
        ),
        (0, ProblemKind::Missing, "open")
    );
}

#[test]
fn members_outside_the_schema_are_ignored() {
    let items = load_document(
        r#"[{"type": "AgentTodoList", "title": "T", "note": [1, 2], "entries": [{"content": "c", "priority": "p", "status": "s", "extra": null}]}]"#,
    )
    .unwrap();
    assert_eq!(
        items,
        vec![ConversationItem::AgentTodoList {
            title: text("T"),
            entries: vec![PlanEntrySchema {
                content: text("c"),
                priority: text("p"),
                status: text("s"),
            }],
        }]
    );
}

#[test]
fn order_of_the_array_is_kept() {
    let mut document = String::from("[");
    for i in 0..50 {
        if i > 0 {
            document.push(',');
        }
        document.push_str(&format!(
            r#"{{"type": "AgentTodoList", "title": "list {}", "entries": []}}"#,
            i
        ));
    }
    document.push(']');
    let panel = ConversationPanel::from_json(&document).unwrap();
    assert_eq!(panel.len(), 50);
    for (i, item) in panel.items.iter().enumerate() {
        assert!(matches!(item, TimelineItem::AgentTodoList(l) if l.title == format!("list {}", i)));
    }
    assert_eq!(panel.render().rows.len(), 50);
}

#[test]
fn parsed_values_are_decoded_directly() {
    let value: serde_json::Value = serde_json::from_str(TOOL_CALLS).unwrap();
    assert_eq!(decode_document(&value), load_document(TOOL_CALLS));
    let first = &value.as_array().unwrap()[0];
    assert!(matches!(decode_item(first), Ok(ConversationItem::ToolCallGroup { .. })));
    assert_eq!(
        decode_item(&serde_json::Value::Null),
        Err(Problem { kind: ProblemKind::Missing, field: "type" })
    );
    assert_eq!(decode_document(&serde_json::Value::Bool(true)), Err(ParseError::NotAnArray));
}

#[test]
fn escapes_and_unicode_in_texts() {
    let items = load_document(
        r#"[{"type": "AgentTodoList", "title": "café \"quoted\"\n日本", "entries": []}]"#,
    )
    .unwrap();
    assert_eq!(
        items,
        vec![ConversationItem::AgentTodoList {
            title: text("café \"quoted\"\n日本"),
            entries: vec![],
        }]
    );
}

#[test]
fn syntax_error_carries_the_parsers_position_and_words() {
    for text in ["[\n  {\"type\": }\n]", "", "[1, 2", "{\"a\" 1}", "[]\n\n x", "\u{feff}[]"] {
        let expected = serde_json::from_str::<serde_json::Value>(text).unwrap_err();
        let error = ParseError::Syntax {
            line: expected.line(),
            column: expected.column(),
            message: expected.to_string(),
        };
        assert_eq!(load_document(text), Err(error.clone()));
        assert_eq!(ConversationPanel::from_json(text), Err(error));
    }
    match load_document("[\n  {\"type\": }\n]") {
        Err(ParseError::Syntax { line, column, message }) => {
            assert_eq!(line, 2);
            assert!(column > 0);
            assert!(message.ends_with(&format!("at line {} column {}", line, column)));
        }
        other => panic!("{:?}", other),
    }
}
