//! Mapping of a conversation log to view-model records, and the composition
//! of the timeline.

use crate::components::agent_message::{
    AgentContentType, AgentMessage, AgentMessageContent, AgentMessageContentModel,
    AgentMessageData, AgentMessageDataModel, AgentMessageModel,
};
use crate::components::agent_todo_list::{
    plan_status_of, priority_of, AgentTodoList, AgentTodoListModel, PlanEntry, PlanEntryModel,
    PlanEntryPriority, PlanEntryStatus,
};
use crate::components::tool_call_item::{
    kind_of, tool_status_of, ToolCallContent, ToolCallContentModel, ToolCallData,
    ToolCallDataModel, ToolCallItem, ToolCallItemModel, ToolCallKind, ToolCallStatus,
};
use crate::components::user_message::{
    MessageContent, MessageContentModel, ResourceContent, ResourceContentModel, UserMessage,
    UserMessageData, UserMessageDataModel, UserMessageModel,
};
use crate::conversation_schema::{
    AgentMessageContentSchemaModel, AgentMessageDataSchema, AgentMessageDataSchemaModel,
    ConversationItem, ConversationItemModel, MessageContentSchema, MessageContentSchemaModel,
    PlanEntrySchema, PlanEntrySchemaModel, ToolCallContentSchemaModel, ToolCallItemSchema,
    ToolCallItemSchemaModel, UserMessageDataSchema, UserMessageDataSchemaModel,
};
use crate::identity::{identity, identity_of, ElementId};
use crate::layout::{
    Block, BlockModel, Group, GroupModel, Row, RowModel, Timeline, TimelineModel, ROOT_GAP,
    ROOT_PADDING, TODO_INDENT, TOOL_GAP, TOOL_INDENT,
};
use crate::loader::{load_document, log_of, ParseError};
use crate::text::lowercase;
use vstd::prelude::*;

verus! {

/// The content entry that an entry of the log stands for: the same kind,
/// the same texts.
pub open spec fn message_content_of(c: MessageContentSchemaModel) -> MessageContentModel {
    match c {
        MessageContentSchemaModel::Text { text } => MessageContentModel::Text { text },
        MessageContentSchemaModel::Resource { resource } => MessageContentModel::Resource {
            resource: ResourceContentModel {
                uri: resource.uri,
                mime_type: resource.mime_type,
                text: resource.text,
            },
        },
    }
}

/// The user turn that an id and a payload of the log stand for.
pub open spec fn user_message_of(
    id: Seq<char>,
    data: UserMessageDataSchemaModel,
) -> UserMessageModel {
    UserMessageModel {
        id: identity_of(id),
        data: UserMessageDataModel {
            session_id: data.session_id,
            contents: data.contents.map_values(|c: MessageContentSchemaModel| message_content_of(c)),
        },
    }
}

/// The chunk that a chunk of the log stands for: its text, as text.
pub open spec fn agent_chunk_of(c: AgentMessageContentSchemaModel) -> AgentMessageContentModel {
    AgentMessageContentModel { content_type: AgentContentType::Text, text: c.text }
}

/// The agent turn that an id and a payload of the log stand for.
pub open spec fn agent_message_of(
    id: Seq<char>,
    data: AgentMessageDataSchemaModel,
) -> AgentMessageModel {
    AgentMessageModel {
        id: identity_of(id),
        data: AgentMessageDataModel {
            session_id: data.session_id,
            agent_name: data.agent_name,
            chunks: data.chunks.map_values(|c: AgentMessageContentSchemaModel| agent_chunk_of(c)),
            is_complete: data.is_complete,
        },
    }
}

/// The plan entry that a log entry stands for.
pub open spec fn plan_entry_of(e: PlanEntrySchemaModel) -> PlanEntryModel {
    PlanEntryModel {
        content: e.content,
        priority: priority_of(e.priority),
        status: plan_status_of(e.status),
    }
}

/// The plan that a title and the log's entries stand for.
pub open spec fn todo_list_of(
    title: Seq<char>,
    entries: Seq<PlanEntrySchemaModel>,
) -> AgentTodoListModel {
    AgentTodoListModel {
        title,
        entries: entries.map_values(|e: PlanEntrySchemaModel| plan_entry_of(e)),
    }
}

/// The piece of output that a piece of the log stands for.
pub open spec fn tool_content_of(c: ToolCallContentSchemaModel) -> ToolCallContentModel {
    ToolCallContentModel { text: c.text }
}

/// The tool call that an item of the log stands for. The kind is looked up
/// by the lower-case form of its name.
pub open spec fn tool_call_of(item: ToolCallItemSchemaModel) -> ToolCallItemModel {
    ToolCallItemModel {
        id: identity_of(item.id),
        data: ToolCallDataModel {
            tool_call_id: item.data.tool_call_id,
            title: item.data.title,
            kind: kind_of(lowercase(item.data.kind)),
            status: tool_status_of(item.data.status),
            content: item.data.content.map_values(
                |c: ToolCallContentSchemaModel| tool_content_of(c),
            ),
        },
        open: item.open,
    }
}

/// A mapped item of the timeline, ready to be rendered.
#[derive(Clone, Debug, PartialEq, Eq)]
pub enum TimelineItem {
    UserMessage(UserMessage),
    AgentMessage(AgentMessage),
    AgentTodoList(AgentTodoList),
    ToolCallGroup(Vec<ToolCallItem>),
}

/// What a [`TimelineItem`] holds, as a mathematical value.
pub enum TimelineItemModel {
    UserMessage(UserMessageModel),
    AgentMessage(AgentMessageModel),
    AgentTodoList(AgentTodoListModel),
    ToolCallGroup(Seq<ToolCallItemModel>),
}

impl View for TimelineItem {
    type V = TimelineItemModel;

    open spec fn view(&self) -> TimelineItemModel {
        match *self {
            TimelineItem::UserMessage(m) => TimelineItemModel::UserMessage(m@),
            TimelineItem::AgentMessage(m) => TimelineItemModel::AgentMessage(m@),
            TimelineItem::AgentTodoList(l) => TimelineItemModel::AgentTodoList(l@),
            TimelineItem::ToolCallGroup(items) => TimelineItemModel::ToolCallGroup(
                items@.map_values(|t: ToolCallItem| t@),
            ),
        }
    }
}

/// The timeline item that an item of the log stands for.
pub open spec fn timeline_item_of(item: ConversationItemModel) -> TimelineItemModel {
    match item {
        ConversationItemModel::UserMessage { id, data } => TimelineItemModel::UserMessage(
            user_message_of(id, data),
        ),
        ConversationItemModel::AgentMessage { id, data } => TimelineItemModel::AgentMessage(
            agent_message_of(id, data),
        ),
        ConversationItemModel::AgentTodoList { title, entries } => {
            TimelineItemModel::AgentTodoList(todo_list_of(title, entries))
        },
        ConversationItemModel::ToolCallGroup { items } => TimelineItemModel::ToolCallGroup(
            items.map_values(|t: ToolCallItemSchemaModel| tool_call_of(t)),
        ),
    }
}

/// The row in which a timeline item is shown. A turn stands directly in the
/// timeline. A plan stands alone in an indented group. The tool calls of a
/// group stand in one indented group, spaced, in their order.
pub open spec fn row_of(item: TimelineItemModel) -> RowModel {
    match item {
        TimelineItemModel::UserMessage(m) => RowModel::Block(BlockModel::UserMessage(m)),
        TimelineItemModel::AgentMessage(m) => RowModel::Block(BlockModel::AgentMessage(m)),
        TimelineItemModel::AgentTodoList(l) => RowModel::Group(
            GroupModel { indent: TODO_INDENT, gap: 0, children: seq![BlockModel::TodoList(l)] },
        ),
        TimelineItemModel::ToolCallGroup(items) => RowModel::Group(
            GroupModel {
                indent: TOOL_INDENT,
                gap: TOOL_GAP,
                children: items.map_values(|t: ToolCallItemModel| BlockModel::ToolCall(t)),
            },
        ),
    }
}

/// The composed timeline of a sequence of items: one row for each item, in
/// the same order, in a padded column that scrolls vertically and fills its
/// region.
pub open spec fn timeline_of(items: Seq<TimelineItemModel>) -> TimelineModel {
    TimelineModel {
        padding: ROOT_PADDING,
        gap: ROOT_GAP,
        scroll_vertical: true,
        size_full: true,
        rows: items.map_values(|i: TimelineItemModel| row_of(i)),
    }
}

/// The conversation panel: the items of one conversation, mapped once and
/// shown in the order of the log.
#[derive(Clone, Debug, PartialEq, Eq)]
pub struct ConversationPanel {
    pub items: Vec<TimelineItem>,
}

impl View for ConversationPanel {
    type V = Seq<TimelineItemModel>;

    open spec fn view(&self) -> Seq<TimelineItemModel> {
        self.items@.map_values(|i: TimelineItem| i@)
    }
}

impl ConversationPanel {
    /// The element identity of the item with the given logical id.
    pub fn get_id(id: &str) -> (e: ElementId)
        ensures
            e@ == identity_of(id@),
    {
        identity(id)
    }

    /// Maps a user turn: every content entry is kept, in order, with its
    /// texts as they are.
    pub fn map_user_message(id: String, data: UserMessageDataSchema) -> (m: UserMessage)
        ensures
            m@ == user_message_of(id@, data@),
    {
        let ghost source = data.contents@;
        let mut user_data = UserMessageData::new(data.session_id);
        for content in it: data.contents
            invariant
                it.seq() == source,
                user_data@.session_id == data.session_id@,
                user_data@.contents.len() == it.index(),
                forall|j: int|
                    0 <= j < it.index() ==> #[trigger] user_data@.contents[j] == message_content_of(
                        source[j]@,
                    ),
        {
            match content {
                MessageContentSchema::Text { text } => {
                    user_data = user_data.add_content(MessageContent::text(text));
                },
                MessageContentSchema::Resource { resource } => {
                    user_data = user_data.add_content(
                        MessageContent::resource(
                            ResourceContent::new(resource.uri, resource.mime_type, resource.text),
                        ),
                    );
                },
            }
        }
        assert(user_data@.contents =~= data@.contents.map_values(
            |c: MessageContentSchemaModel| message_content_of(c),
        ));
        UserMessage::new(Self::get_id(id.as_str()), user_data)
    }

    /// Maps an agent turn: the name is set where the log has one, the turn
    /// is complete where the log says so, and the chunks are kept in order.
    pub fn map_agent_message(id: String, data: AgentMessageDataSchema) -> (m: AgentMessage)
        ensures
            m@ == agent_message_of(id@, data@),
    {
        let ghost source = data.chunks@;
        let mut agent_data = AgentMessageData::new(data.session_id);
        if let Some(name) = data.agent_name {
            agent_data = agent_data.with_agent_name(name);
        }
        if data.is_complete {
            agent_data = agent_data.complete();
        }
        for chunk in it: data.chunks
            invariant
                it.seq() == source,
                agent_data@.session_id == data.session_id@,
                agent_data@.agent_name == data@.agent_name,
                agent_data@.is_complete == data.is_complete,
                agent_data@.chunks.len() == it.index(),
                forall|j: int|
                    0 <= j < it.index() ==> #[trigger] agent_data@.chunks[j] == agent_chunk_of(
                        source[j]@,
                    ),
        {
            agent_data = agent_data.add_chunk(AgentMessageContent::text(chunk.text));
        }
        assert(agent_data@.chunks =~= data@.chunks.map_values(
            |c: AgentMessageContentSchemaModel| agent_chunk_of(c),
        ));
        AgentMessage::new(Self::get_id(id.as_str()), agent_data)
    }

    /// Maps one entry of a plan, coercing its priority and status.
    pub fn map_plan_entry(e: PlanEntrySchema) -> (entry: PlanEntry)
        ensures
            entry@ == plan_entry_of(e@),
    {
        let priority = PlanEntryPriority::from_str(e.priority.as_str());
        let status = PlanEntryStatus::from_str(e.status.as_str());
        PlanEntry::new(e.content).with_priority(priority).with_status(status)
    }

    /// Maps a plan: the title passes through, each entry is coerced, the
    /// order stays.
    pub fn map_todo_list(title: String, entries: Vec<PlanEntrySchema>) -> (list: AgentTodoList)
        ensures
            list@ == todo_list_of(title@, entries@.map_values(|e: PlanEntrySchema| e@)),
    {
        let ghost source = entries@;
        let mut plan_entries: Vec<PlanEntry> = Vec::new();
        for e in it: entries
            invariant
                it.seq() == source,
                plan_entries@.len() == it.index(),
                forall|j: int|
                    0 <= j < it.index() ==> (#[trigger] plan_entries@[j])@ == plan_entry_of(
                        source[j]@,
                    ),
        {
            plan_entries.push(Self::map_plan_entry(e));
        }
        let list = AgentTodoList::new().title(title).entries(plan_entries);
        assert(list@.entries =~= source.map_values(|e: PlanEntrySchema| e@).map_values(
            |e: PlanEntrySchemaModel| plan_entry_of(e),
        ));
        list
    }

    /// Maps a tool call whose kind has been put in lower case already:
    /// the kind is looked up by `lowered_kind`, the status is coerced, the
    /// output is kept in order, and the `open` flag passes through.
    pub fn map_tool_call_with_kind(
        item: ToolCallItemSchema,
        lowered_kind: &str,
    ) -> (t: ToolCallItem)
        ensures
            t@ == (ToolCallItemModel {
                id: identity_of(item@.id),
                data: ToolCallDataModel {
                    tool_call_id: item@.data.tool_call_id,
                    title: item@.data.title,
                    kind: kind_of(lowered_kind@),
                    status: tool_status_of(item@.data.status),
                    content: item@.data.content.map_values(
                        |c: ToolCallContentSchemaModel| tool_content_of(c),
                    ),
                },
                open: item@.open,
            }),
    {
        let kind = ToolCallKind::from_str(lowered_kind);
        let status = ToolCallStatus::from_str(item.data.status.as_str());
        let ghost source = item.data.content@;
        let mut content: Vec<ToolCallContent> = Vec::new();
        for c in it: item.data.content
            invariant
                it.seq() == source,
                content@.len() == it.index(),
                forall|j: int|
                    0 <= j < it.index() ==> (#[trigger] content@[j])@ == tool_content_of(
                        source[j]@,
                    ),
        {
            content.push(ToolCallContent::new(c.text));
        }
        assert(content@.map_values(|c: ToolCallContent| c@) =~= item@.data.content.map_values(
            |c: ToolCallContentSchemaModel| tool_content_of(c),
        ));
        let data = ToolCallData::new(item.data.tool_call_id, item.data.title).with_kind(
            kind,
        ).with_status(status).with_content(content);
        ToolCallItem::new(Self::get_id(item.id.as_str()), data).open(item.open)
    }

    /// Maps a tool call. The kind is looked up without regard to case; an
    /// unknown kind gives `Other`, an unknown status `Pending`.
    pub fn map_tool_call(item: ToolCallItemSchema) -> (t: ToolCallItem)
        ensures
            t@ == tool_call_of(item@),
    {
        let lowered = item.data.kind.as_str().to_lowercase();
        Self::map_tool_call_with_kind(item, lowered.as_str())
    }

    /// Maps one item of the log.
    pub fn map_item(item: ConversationItem) -> (mapped: TimelineItem)
        ensures
            mapped@ == timeline_item_of(item@),
    {
        match item {
            ConversationItem::UserMessage { id, data } => TimelineItem::UserMessage(
                Self::map_user_message(id, data),
            ),
            ConversationItem::AgentMessage { id, data } => TimelineItem::AgentMessage(
                Self::map_agent_message(id, data),
            ),
            ConversationItem::AgentTodoList { title, entries } => TimelineItem::AgentTodoList(
                Self::map_todo_list(title, entries),
            ),
            ConversationItem::ToolCallGroup { items } => {
                let ghost source = items@;
                let mut calls: Vec<ToolCallItem> = Vec::new();
                for tool_item in it: items
                    invariant
                        it.seq() == source,
                        calls@.len() == it.index(),
                        forall|j: int|
                            0 <= j < it.index() ==> (#[trigger] calls@[j])@ == tool_call_of(
                                source[j]@,
                            ),
                {
                    calls.push(Self::map_tool_call(tool_item));
                }
                assert(calls@.map_values(|t: ToolCallItem| t@) =~= source.map_values(
                    |t: ToolCallItemSchema| t@,
                ).map_values(|t: ToolCallItemSchemaModel| tool_call_of(t)));
                TimelineItem::ToolCallGroup(calls)
            },
        }
    }

    /// Builds the panel from the items of a log: one mapped item for each
    /// item of the log, in the same order.
    pub fn new(items: Vec<ConversationItem>) -> (panel: ConversationPanel)
        ensures
            panel@.len() == items@.len(),
            forall|i: int|
                0 <= i < items@.len() ==> #[trigger] panel@[i] == timeline_item_of(items@[i]@),
    {
        let ghost source = items@;
        let mut mapped: Vec<TimelineItem> = Vec::new();
        for item in it: items
            invariant
                it.seq() == source,
                mapped@.len() == it.index(),
                forall|j: int|
                    0 <= j < it.index() ==> (#[trigger] mapped@[j])@ == timeline_item_of(
                        source[j]@,
                    ),
        {
            mapped.push(Self::map_item(item));
        }
        ConversationPanel { items: mapped }
    }

    /// Builds the panel from the text of a JSON document. A text that is
    /// no JSON gives the parser's error, a document that is no log the
    /// first reason why; a log gives the panel of its items, mapped, in
    /// order.
    pub fn from_json(text: &str) -> (outcome: Result<ConversationPanel, ParseError>)
        ensures
            match log_of(text@) {
                Ok(items) => outcome is Ok && outcome->Ok_0@ == items.map_values(
                    |i: ConversationItemModel| timeline_item_of(i),
                ),
                Err(e) => outcome is Err && outcome->Err_0@ == e,
            },
    {
        match load_document(text) {
            Ok(items) => {
                let ghost source = items@.map_values(|i: ConversationItem| i@);
                let panel = Self::new(items);
                assert(panel@ =~= source.map_values(
                    |i: ConversationItemModel| timeline_item_of(i),
                ));
                Ok(panel)
            },
            Err(e) => Err(e),
        }
    }

    /// How many items the panel shows.
    pub fn len(&self) -> (n: usize)
        ensures
            n == self@.len(),
    {
        self.items.len()
    }

    /// The row in which one item is shown.
    pub fn render_item<'a>(item: &'a TimelineItem) -> (row: Row<'a>)
        ensures
            row@ == row_of(item@),
    {
        match item {
            TimelineItem::UserMessage(m) => Row::Block(Block::UserMessage(m)),
            TimelineItem::AgentMessage(m) => Row::Block(Block::AgentMessage(m)),
            TimelineItem::AgentTodoList(l) => {
                let mut children: Vec<Block<'a>> = Vec::new();
                children.push(Block::TodoList(l));
                let group = Group { indent: TODO_INDENT, gap: 0, children };
                assert(group@.children =~= seq![BlockModel::TodoList(l@)]);
                Row::Group(group)
            },
            TimelineItem::ToolCallGroup(items) => {
                let mut children: Vec<Block<'a>> = Vec::new();
                let n = items.len();
                let mut i: usize = 0;
                while i < n
                    invariant
                        n == items@.len(),
                        i <= n,
                        children@.len() == i,
                        forall|j: int|
                            0 <= j < i ==> (#[trigger] children@[j])@ == BlockModel::ToolCall(
                                items@[j]@,
                            ),
                    decreases n - i,
                {
                    children.push(Block::ToolCall(&items[i]));
                    i += 1;
                }
                let group = Group { indent: TOOL_INDENT, gap: TOOL_GAP, children };
                assert(group@.children =~= items@.map_values(|t: ToolCallItem| t@).map_values(
                    |t: ToolCallItemModel| BlockModel::ToolCall(t),
                ));
                Row::Group(group)
            },
        }
    }

    /// Composes the timeline: one row for each item, in order. The panel is
    /// read and not changed, so rendering again gives the same tree.
    pub fn render<'a>(&'a self) -> (tree: Timeline<'a>)
        ensures
            tree@ == timeline_of(self@),
    {
        let mut rows: Vec<Row<'a>> = Vec::new();
        let n = self.items.len();
        let mut i: usize = 0;
        while i < n
            invariant
                n == self.items@.len(),
                i <= n,
                rows@.len() == i,
                forall|j: int| 0 <= j < i ==> (#[trigger] rows@[j])@ == row_of(self.items@[j]@),
            decreases n - i,
        {
            rows.push(Self::render_item(&self.items[i]));
            i += 1;
        }
        let tree = Timeline {
            padding: ROOT_PADDING,
            gap: ROOT_GAP,
            scroll_vertical: true,
            size_full: true,
            rows,
        };
        assert(tree@.rows =~= self@.map_values(|i: TimelineItemModel| row_of(i)));
        tree
    }
}

/// A log item's identity depends on its logical id alone: whatever the
/// payload, and whether it is mapped as a user turn, an agent turn or a tool
/// call, an item with the id `id` gets the identity of `id`. Mapping the
/// same id again gives the same identity again.
pub proof fn lemma_mapped_identity_stable(
    id: Seq<char>,
    user: UserMessageDataSchemaModel,
    agent: AgentMessageDataSchemaModel,
    tool: ToolCallItemSchemaModel,
)
    requires
        tool.id == id,
    ensures
        user_message_of(id, user).id == identity_of(id),
        agent_message_of(id, agent).id == identity_of(id),
        tool_call_of(tool).id == identity_of(id),
{
}

/// An agent turn without chunks is mapped to a message whose body is the
/// empty text, and which is complete exactly where the log says so.
pub proof fn lemma_no_chunks_no_text(id: Seq<char>, data: AgentMessageDataSchemaModel)
    requires
        data.chunks.len() == 0,
    ensures
        agent_message_of(id, data).data.full_text() == Seq::<char>::empty(),
        agent_message_of(id, data).data.is_complete == data.is_complete,
{
}

/// A plan and a group of tool calls are shown in groups of different
/// indentation, whatever they hold.
pub proof fn lemma_groups_are_told_apart(plan: AgentTodoListModel, calls: Seq<ToolCallItemModel>)
    ensures
        row_of(TimelineItemModel::AgentTodoList(plan)) is Group,
        row_of(TimelineItemModel::ToolCallGroup(calls)) is Group,
        row_of(TimelineItemModel::ToolCallGroup(calls))->Group_0.indent != row_of(
            TimelineItemModel::AgentTodoList(plan),
        )->Group_0.indent,
        row_of(TimelineItemModel::ToolCallGroup(calls))->Group_0.gap != row_of(
            TimelineItemModel::AgentTodoList(plan),
        )->Group_0.indent,
        row_of(TimelineItemModel::ToolCallGroup(calls))->Group_0.children.len() == calls.len(),
{
}

/// The timeline has one row for each item of the log, and the row at each
/// place shows the item at that place.
pub proof fn lemma_rows_follow_log(items: Seq<ConversationItemModel>, i: int)
    requires
        0 <= i < items.len(),
    ensures
        timeline_of(items.map_values(|c: ConversationItemModel| timeline_item_of(c))).rows.len()
            == items.len(),
        timeline_of(items.map_values(|c: ConversationItemModel| timeline_item_of(c))).rows[i]
            == row_of(timeline_item_of(items[i])),
{
}

} // verus!
