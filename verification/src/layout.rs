//! The composed timeline: a vertical, scrollable column whose rows are
//! message blocks and indented groups, in the order of the log.
//!
//! Lengths are in spacing units, a quarter of the root font size each.

use crate::components::agent_message::{AgentMessage, AgentMessageModel};
use crate::components::agent_todo_list::{AgentTodoList, AgentTodoListModel};
use crate::components::tool_call_item::{ToolCallItem, ToolCallItemModel};
use crate::components::user_message::{UserMessage, UserMessageModel};
use vstd::prelude::*;

verus! {

/// Padding on all four sides of the timeline.
pub const ROOT_PADDING: u32 = 4;

/// Space between two rows of the timeline.
pub const ROOT_GAP: u32 = 6;

/// Left indentation of a plan under the turn that produced it.
pub const TODO_INDENT: u32 = 6;

/// Left indentation of a group of tool calls. It is deeper than a plan's,
/// so that the two kinds of group are told apart by their indentation.
pub const TOOL_INDENT: u32 = 8;

/// Space between two tool calls of one group.
pub const TOOL_GAP: u32 = 2;

/// A group of tool calls is set apart from a plan: its indentation is not
/// the plan's indentation, and neither is the space between its items.
pub proof fn lemma_tool_group_differs_from_plan()
    ensures
        TOOL_INDENT != TODO_INDENT,
        TOOL_GAP != TODO_INDENT,
        TOOL_GAP != ROOT_GAP,
{
}

/// One rendered record. It borrows the record that it shows.
#[derive(Clone, Copy, Debug, PartialEq, Eq)]
pub enum Block<'a> {
    UserMessage(&'a UserMessage),
    AgentMessage(&'a AgentMessage),
    TodoList(&'a AgentTodoList),
    ToolCall(&'a ToolCallItem),
}

/// What a [`Block`] holds, as a mathematical value.
pub enum BlockModel {
    UserMessage(UserMessageModel),
    AgentMessage(AgentMessageModel),
    TodoList(AgentTodoListModel),
    ToolCall(ToolCallItemModel),
}

impl<'a> View for Block<'a> {
    type V = BlockModel;

    open spec fn view(&self) -> BlockModel {
        match *self {
            Block::UserMessage(m) => BlockModel::UserMessage(m@),
            Block::AgentMessage(m) => BlockModel::AgentMessage(m@),
            Block::TodoList(l) => BlockModel::TodoList(l@),
            Block::ToolCall(t) => BlockModel::ToolCall(t@),
        }
    }
}

/// An indented column of blocks.
#[derive(Clone, Debug, PartialEq, Eq)]
pub struct Group<'a> {
    pub indent: u32,
    pub gap: u32,
    pub children: Vec<Block<'a>>,
}

/// What a [`Group`] holds, as a mathematical value.
pub struct GroupModel {
    pub indent: u32,
    pub gap: u32,
    pub children: Seq<BlockModel>,
}

impl<'a> View for Group<'a> {
    type V = GroupModel;

    open spec fn view(&self) -> GroupModel {
        GroupModel {
            indent: self.indent,
            gap: self.gap,
            children: self.children@.map_values(|b: Block<'a>| b@),
        }
    }
}

/// One row of the timeline: a block that stands directly in it, or a group.
#[derive(Clone, Debug, PartialEq, Eq)]
pub enum Row<'a> {
    Block(Block<'a>),
    Group(Group<'a>),
}

/// What a [`Row`] holds, as a mathematical value.
pub enum RowModel {
    Block(BlockModel),
    Group(GroupModel),
}

impl<'a> View for Row<'a> {
    type V = RowModel;

    open spec fn view(&self) -> RowModel {
        match *self {
            Row::Block(b) => RowModel::Block(b@),
            Row::Group(g) => RowModel::Group(g@),
        }
    }
}

/// The whole timeline.
#[derive(Clone, Debug, PartialEq, Eq)]
pub struct Timeline<'a> {
    pub padding: u32,
    pub gap: u32,
    /// Whether the column scrolls vertically.
    pub scroll_vertical: bool,
    /// Whether the column fills the region that it is given.
    pub size_full: bool,
    pub rows: Vec<Row<'a>>,
}

/// What a [`Timeline`] holds, as a mathematical value.
pub struct TimelineModel {
    pub padding: u32,
    pub gap: u32,
    pub scroll_vertical: bool,
    pub size_full: bool,
    pub rows: Seq<RowModel>,
}

impl<'a> View for Timeline<'a> {
    type V = TimelineModel;

    open spec fn view(&self) -> TimelineModel {
        TimelineModel {
            padding: self.padding,
            gap: self.gap,
            scroll_vertical: self.scroll_vertical,
            size_full: self.size_full,
            rows: self.rows@.map_values(|r: Row<'a>| r@),
        }
    }
}

} // verus!
