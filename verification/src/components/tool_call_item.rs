//! A record of one invoked tool: what it is, how far it has come, and what
//! it has printed.

use crate::identity::{ElementId, ElementIdView};
use vstd::prelude::*;

verus! {

/// What a tool call does. `Other` stands for every kind without a name here.
#[derive(Clone, Copy, Debug, PartialEq, Eq, Structural)]
pub enum ToolCallKind {
    Read,
    Edit,
    Delete,
    Move,
    Search,
    Execute,
    Think,
    Fetch,
    Other,
}

/// How far a tool call has come.
#[derive(Clone, Copy, Debug, PartialEq, Eq, Structural)]
pub enum ToolCallStatus {
    Pending,
    InProgress,
    Completed,
    Failed,
}

/// The kind that a name stands for. The names are in lower case; any other
/// text stands for `Other`.
pub open spec fn kind_of(s: Seq<char>) -> ToolCallKind {
    if s == "read"@ {
        ToolCallKind::Read
    } else if s == "edit"@ {
        ToolCallKind::Edit
    } else if s == "delete"@ {
        ToolCallKind::Delete
    } else if s == "move"@ {
        ToolCallKind::Move
    } else if s == "search"@ {
        ToolCallKind::Search
    } else if s == "execute"@ {
        ToolCallKind::Execute
    } else if s == "think"@ {
        ToolCallKind::Think
    } else if s == "fetch"@ {
        ToolCallKind::Fetch
    } else {
        ToolCallKind::Other
    }
}

/// The status that a source text stands for. A text that is none of the
/// four names stands for `Pending`.
pub open spec fn tool_status_of(s: Seq<char>) -> ToolCallStatus {
    if s == "InProgress"@ {
        ToolCallStatus::InProgress
    } else if s == "Completed"@ {
        ToolCallStatus::Completed
    } else if s == "Failed"@ {
        ToolCallStatus::Failed
    } else {
        ToolCallStatus::Pending
    }
}

/// Leniency: a kind that is none of the eight names is read as `Other`, and
/// a status text that is none of the four names as `Pending`. Neither is an
/// error.
pub proof fn lemma_unknown_tool_names_fall_back(kind: Seq<char>, status: Seq<char>)
    ensures
        kind != "read"@ && kind != "edit"@ && kind != "delete"@ && kind != "move"@ && kind
            != "search"@ && kind != "execute"@ && kind != "think"@ && kind != "fetch"@ ==> kind_of(
            kind,
        ) == ToolCallKind::Other,
        status != "Pending"@ && status != "InProgress"@ && status != "Completed"@ && status
            != "Failed"@ ==> tool_status_of(status) == ToolCallStatus::Pending,
        status == "Failed"@ ==> tool_status_of(status) == ToolCallStatus::Failed,
{
    reveal_strlit("Failed");
    reveal_strlit("InProgress");
    reveal_strlit("Completed");
    assert("Failed"@.len() == 6);
    assert("InProgress"@.len() == 10);
    assert("Completed"@.len() == 9);
}

impl ToolCallKind {
    /// Reads a kind from its lower-case name; an unknown name gives `Other`.
    pub fn from_str(s: &str) -> (kind: ToolCallKind)
        ensures
            kind == kind_of(s@),
    {
        if *s == *"read" {
            ToolCallKind::Read
        } else if *s == *"edit" {
            ToolCallKind::Edit
        } else if *s == *"delete" {
            ToolCallKind::Delete
        } else if *s == *"move" {
            ToolCallKind::Move
        } else if *s == *"search" {
            ToolCallKind::Search
        } else if *s == *"execute" {
            ToolCallKind::Execute
        } else if *s == *"think" {
            ToolCallKind::Think
        } else if *s == *"fetch" {
            ToolCallKind::Fetch
        } else {
            ToolCallKind::Other
        }
    }
}

impl ToolCallStatus {
    /// Reads a status from its name; lenient: an unknown name gives `Pending`.
    pub fn from_str(s: &str) -> (status: ToolCallStatus)
        ensures
            status == tool_status_of(s@),
    {
        if *s == *"InProgress" {
            ToolCallStatus::InProgress
        } else if *s == *"Completed" {
            ToolCallStatus::Completed
        } else if *s == *"Failed" {
            ToolCallStatus::Failed
        } else {
            ToolCallStatus::Pending
        }
    }
}

/// One piece of output of a tool call.
#[derive(Clone, Debug, PartialEq, Eq)]
pub struct ToolCallContent {
    pub text: String,
}

/// What a [`ToolCallContent`] holds, as a mathematical value.
pub struct ToolCallContentModel {
    pub text: Seq<char>,
}

impl View for ToolCallContent {
    type V = ToolCallContentModel;

    open spec fn view(&self) -> ToolCallContentModel {
        ToolCallContentModel { text: self.text@ }
    }
}

impl ToolCallContent {
    /// A piece of output with the given text.
    pub fn new(text: String) -> (c: ToolCallContent)
        ensures
            c@ == (ToolCallContentModel { text: text@ }),
    {
        ToolCallContent { text }
    }
}

/// What is known of a tool call.
#[derive(Clone, Debug, PartialEq, Eq)]
pub struct ToolCallData {
    pub tool_call_id: String,
    pub title: String,
    pub kind: ToolCallKind,
    pub status: ToolCallStatus,
    pub content: Vec<ToolCallContent>,
}

/// What a [`ToolCallData`] holds, as a mathematical value.
pub struct ToolCallDataModel {
    pub tool_call_id: Seq<char>,
    pub title: Seq<char>,
    pub kind: ToolCallKind,
    pub status: ToolCallStatus,
    pub content: Seq<ToolCallContentModel>,
}

impl View for ToolCallData {
    type V = ToolCallDataModel;

    open spec fn view(&self) -> ToolCallDataModel {
        ToolCallDataModel {
            tool_call_id: self.tool_call_id@,
            title: self.title@,
            kind: self.kind,
            status: self.status,
            content: self.content@.map_values(|c: ToolCallContent| c@),
        }
    }
}

impl ToolCallData {
    /// A pending call of kind `Other` that has printed nothing.
    pub fn new(tool_call_id: String, title: String) -> (data: ToolCallData)
        ensures
            data@ == (ToolCallDataModel {
                tool_call_id: tool_call_id@,
                title: title@,
                kind: ToolCallKind::Other,
                status: ToolCallStatus::Pending,
                content: Seq::empty(),
            }),
    {
        let data = ToolCallData {
            tool_call_id,
            title,
            kind: ToolCallKind::Other,
            status: ToolCallStatus::Pending,
            content: Vec::new(),
        };
        assert(data@.content =~= Seq::empty());
        data
    }

    /// The same call with another kind.
    pub fn with_kind(self, kind: ToolCallKind) -> (data: ToolCallData)
        ensures
            data@ == (ToolCallDataModel { kind, ..self@ }),
    {
        ToolCallData {
            tool_call_id: self.tool_call_id,
            title: self.title,
            kind,
            status: self.status,
            content: self.content,
        }
    }

    /// The same call with another status.
    pub fn with_status(self, status: ToolCallStatus) -> (data: ToolCallData)
        ensures
            data@ == (ToolCallDataModel { status, ..self@ }),
    {
        ToolCallData {
            tool_call_id: self.tool_call_id,
            title: self.title,
            kind: self.kind,
            status,
            content: self.content,
        }
    }

    /// The same call with its output replaced.
    pub fn with_content(self, content: Vec<ToolCallContent>) -> (data: ToolCallData)
        ensures
            data@ == (ToolCallDataModel {
                content: content@.map_values(|c: ToolCallContent| c@),
                ..self@
            }),
    {
        ToolCallData {
            tool_call_id: self.tool_call_id,
            title: self.title,
            kind: self.kind,
            status: self.status,
            content,
        }
    }
}

/// A tool call as the timeline shows it: identity, data, and whether its
/// details are expanded.
#[derive(Clone, Debug, PartialEq, Eq)]
pub struct ToolCallItem {
    pub id: ElementId,
    pub data: ToolCallData,
    pub open: bool,
}

/// What a [`ToolCallItem`] holds, as a mathematical value.
pub struct ToolCallItemModel {
    pub id: ElementIdView,
    pub data: ToolCallDataModel,
    pub open: bool,
}

impl View for ToolCallItem {
    type V = ToolCallItemModel;

    open spec fn view(&self) -> ToolCallItemModel {
        ToolCallItemModel { id: self.id@, data: self.data@, open: self.open }
    }
}

impl ToolCallItem {
    /// A collapsed item.
    pub fn new(id: ElementId, data: ToolCallData) -> (item: ToolCallItem)
        ensures
            item@ == (ToolCallItemModel { id: id@, data: data@, open: false }),
    {
        ToolCallItem { id, data, open: false }
    }

    /// The same item, expanded or collapsed as `open` says.
    pub fn open(self, open: bool) -> (item: ToolCallItem)
        ensures
            item@ == (ToolCallItemModel { open, ..self@ }),
    {
        ToolCallItem { id: self.id, data: self.data, open }
    }
}

} // verus!
