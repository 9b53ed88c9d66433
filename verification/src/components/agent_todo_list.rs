//! A plan shown as a checklist.

use vstd::prelude::*;

verus! {

/// How urgent a plan entry is.
#[derive(Clone, Copy, Debug, PartialEq, Eq, Structural)]
pub enum PlanEntryPriority {
    High,
    Medium,
    Low,
}

/// How far a plan entry has come.
#[derive(Clone, Copy, Debug, PartialEq, Eq, Structural)]
pub enum PlanEntryStatus {
    Pending,
    InProgress,
    Completed,
}

/// The priority that a source text stands for. A text that is none of the
/// three names stands for `Medium`.
pub open spec fn priority_of(s: Seq<char>) -> PlanEntryPriority {
    if s == "High"@ {
        PlanEntryPriority::High
    } else if s == "Low"@ {
        PlanEntryPriority::Low
    } else {
        PlanEntryPriority::Medium
    }
}

/// The status that a source text stands for. A text that is none of the
/// three names stands for `Pending`.
pub open spec fn plan_status_of(s: Seq<char>) -> PlanEntryStatus {
    if s == "InProgress"@ {
        PlanEntryStatus::InProgress
    } else if s == "Completed"@ {
        PlanEntryStatus::Completed
    } else {
        PlanEntryStatus::Pending
    }
}

/// Leniency: a priority text that is none of the three names is read as
/// `Medium`, and a status text that is none of the three names as `Pending`.
pub proof fn lemma_unknown_plan_names_fall_back(priority: Seq<char>, status: Seq<char>)
    ensures
        priority != "High"@ && priority != "Medium"@ && priority != "Low"@ ==> priority_of(priority)
            == PlanEntryPriority::Medium,
        status != "Pending"@ && status != "InProgress"@ && status != "Completed"@
            ==> plan_status_of(status) == PlanEntryStatus::Pending,
{
}

impl PlanEntryPriority {
    /// Reads a priority from its name; lenient: an unknown name gives `Medium`.
    pub fn from_str(s: &str) -> (p: PlanEntryPriority)
        ensures
            p == priority_of(s@),
    {
        if *s == *"High" {
            PlanEntryPriority::High
        } else if *s == *"Low" {
            PlanEntryPriority::Low
        } else {
            PlanEntryPriority::Medium
        }
    }
}

impl PlanEntryStatus {
    /// Reads a status from its name; lenient: an unknown name gives `Pending`.
    pub fn from_str(s: &str) -> (st: PlanEntryStatus)
        ensures
            st == plan_status_of(s@),
    {
        if *s == *"InProgress" {
            PlanEntryStatus::InProgress
        } else if *s == *"Completed" {
            PlanEntryStatus::Completed
        } else {
            PlanEntryStatus::Pending
        }
    }
}

/// One entry of a plan.
#[derive(Clone, Debug, PartialEq, Eq)]
pub struct PlanEntry {
    pub content: String,
    pub priority: PlanEntryPriority,
    pub status: PlanEntryStatus,
}

/// What a [`PlanEntry`] holds, as a mathematical value.
pub struct PlanEntryModel {
    pub content: Seq<char>,
    pub priority: PlanEntryPriority,
    pub status: PlanEntryStatus,
}

impl View for PlanEntry {
    type V = PlanEntryModel;

    open spec fn view(&self) -> PlanEntryModel {
        PlanEntryModel { content: self.content@, priority: self.priority, status: self.status }
    }
}

impl PlanEntry {
    /// An entry with the given content, of medium priority and pending.
    pub fn new(content: String) -> (e: PlanEntry)
        ensures
            e@ == (PlanEntryModel {
                content: content@,
                priority: PlanEntryPriority::Medium,
                status: PlanEntryStatus::Pending,
            }),
    {
        PlanEntry {
            content,
            priority: PlanEntryPriority::Medium,
            status: PlanEntryStatus::Pending,
        }
    }

    /// The same entry with another priority.
    pub fn with_priority(self, priority: PlanEntryPriority) -> (e: PlanEntry)
        ensures
            e@ == (PlanEntryModel { priority, ..self@ }),
    {
        PlanEntry { content: self.content, priority, status: self.status }
    }

    /// The same entry with another status.
    pub fn with_status(self, status: PlanEntryStatus) -> (e: PlanEntry)
        ensures
            e@ == (PlanEntryModel { status, ..self@ }),
    {
        PlanEntry { content: self.content, priority: self.priority, status }
    }
}

/// A titled plan: its entries in the order of the log.
#[derive(Clone, Debug, PartialEq, Eq)]
pub struct AgentTodoList {
    pub title: String,
    pub entries: Vec<PlanEntry>,
}

/// What a [`AgentTodoList`] holds, as a mathematical value.
pub struct AgentTodoListModel {
    pub title: Seq<char>,
    pub entries: Seq<PlanEntryModel>,
}

impl View for AgentTodoList {
    type V = AgentTodoListModel;

    open spec fn view(&self) -> AgentTodoListModel {
        AgentTodoListModel {
            title: self.title@,
            entries: self.entries@.map_values(|e: PlanEntry| e@),
        }
    }
}

impl AgentTodoList {
    /// A list without a title and without entries.
    pub fn new() -> (list: AgentTodoList)
        ensures
            list@ == (AgentTodoListModel { title: Seq::empty(), entries: Seq::empty() }),
    {
        let list = AgentTodoList { title: String::new(), entries: Vec::new() };
        assert(list@.entries =~= Seq::empty());
        list
    }

    /// The same list under another title.
    pub fn title(self, title: String) -> (list: AgentTodoList)
        ensures
            list@ == (AgentTodoListModel { title: title@, ..self@ }),
    {
        AgentTodoList { title, entries: self.entries }
    }

    /// The same list with its entries replaced.
    pub fn entries(self, entries: Vec<PlanEntry>) -> (list: AgentTodoList)
        ensures
            list@ == (AgentTodoListModel {
                entries: entries@.map_values(|e: PlanEntry| e@),
                ..self@
            }),
    {
        AgentTodoList { title: self.title, entries }
    }
}

} // verus!
