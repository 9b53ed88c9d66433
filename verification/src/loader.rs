//! Reading a conversation log from a JSON document.
//!
//! The document is an array of objects. The member `type` of each says
//! which kind of item it is. Members that the schema does not name are
//! ignored. Texts that stand for an enumeration are kept as they are.
//!
//! Where an object holds a key more than once, the last one counts. An
//! item or a payload must be written as an object, with its members by
//! name. The members of an object are checked in the order of the schema,
//! whatever their order in the text, and the first problem found in that
//! order is the one reported.

use crate::conversation_schema::{
    AgentMessageContentSchema, AgentMessageContentSchemaModel, AgentMessageDataSchema,
    AgentMessageDataSchemaModel, ConversationItem, ConversationItemModel, MessageContentSchema,
    MessageContentSchemaModel, PlanEntrySchema, PlanEntrySchemaModel, ResourceContentSchema,
    ResourceContentSchemaModel, ToolCallContentSchema, ToolCallContentSchemaModel,
    ToolCallDataSchema, ToolCallDataSchemaModel, ToolCallItemSchema, ToolCallItemSchemaModel,
    UserMessageDataSchema, UserMessageDataSchemaModel,
};
use crate::json::{
    error_column, error_line, error_message, json_elements, json_error_column, json_error_line,
    json_error_message, json_flag, json_is_null, json_member, json_parsed, json_text, parse_value,
    value_elements, value_flag, value_is_null, value_member, value_text,
};
use serde_json::Value;
use vstd::prelude::*;

verus! {

/// What is wrong with a member of an item.
#[derive(Clone, Copy, Debug, PartialEq, Eq, Structural)]
pub enum ProblemKind {
    /// A required member is not there, or what should hold it is no object.
    Missing,
    /// The member is there and is of the wrong kind of value.
    WrongType,
    /// The member `type` names no kind of item.
    UnknownType,
}

/// A malformed member: what is wrong, and the member's name.
#[derive(Clone, Copy, Debug, PartialEq, Eq)]
pub struct Problem {
    pub kind: ProblemKind,
    pub field: &'static str,
}

/// What a [`Problem`] holds, as a mathematical value.
pub struct ProblemModel {
    pub kind: ProblemKind,
    pub field: Seq<char>,
}

impl View for Problem {
    type V = ProblemModel;

    open spec fn view(&self) -> ProblemModel {
        ProblemModel { kind: self.kind, field: self.field@ }
    }
}

/// Why a document could not be read as a conversation log.
#[derive(Clone, Debug, PartialEq, Eq)]
pub enum ParseError {
    /// The text is not JSON; where the parser stopped, and why.
    Syntax { line: usize, column: usize, message: String },
    /// The document is not an array.
    NotAnArray,
    /// The item at `index` of the array is malformed.
    Item { index: usize, problem: Problem },
}

/// What a [`ParseError`] holds, as a mathematical value.
pub enum ParseErrorModel {
    Syntax { line: usize, column: usize, message: Seq<char> },
    NotAnArray,
    Item { index: int, problem: ProblemModel },
}

impl View for ParseError {
    type V = ParseErrorModel;

    open spec fn view(&self) -> ParseErrorModel {
        match *self {
            ParseError::Syntax { line, column, message } => ParseErrorModel::Syntax {
                line,
                column,
                message: message@,
            },
            ParseError::NotAnArray => ParseErrorModel::NotAnArray,
            ParseError::Item { index, problem } => ParseErrorModel::Item {
                index: index as int,
                problem: problem@,
            },
        }
    }
}

/// The problem of the given kind with the member named `field`.
pub open spec fn problem(kind: ProblemKind, field: Seq<char>) -> ProblemModel {
    ProblemModel { kind, field }
}

/// The member under `key`, which must be there.
pub open spec fn member_of(v: Value, key: Seq<char>) -> Result<Value, ProblemModel> {
    match json_member(v, key) {
        None => Err(problem(ProblemKind::Missing, key)),
        Some(m) => Ok(m),
    }
}

/// The text of the member under `key`, which must be a string.
pub open spec fn text_member_of(v: Value, key: Seq<char>) -> Result<Seq<char>, ProblemModel> {
    match json_member(v, key) {
        None => Err(problem(ProblemKind::Missing, key)),
        Some(m) => match json_text(m) {
            None => Err(problem(ProblemKind::WrongType, key)),
            Some(t) => Ok(t),
        },
    }
}

/// The text of the member under `key`, which may be absent or `null`, and
/// must be a string otherwise.
pub open spec fn optional_text_member_of(v: Value, key: Seq<char>) -> Result<
    Option<Seq<char>>,
    ProblemModel,
> {
    match json_member(v, key) {
        None => Ok(None),
        Some(m) => if json_is_null(m) {
            Ok(None)
        } else {
            match json_text(m) {
                None => Err(problem(ProblemKind::WrongType, key)),
                Some(t) => Ok(Some(t)),
            }
        },
    }
}

/// The truth value of the member under `key`, which must be a boolean.
pub open spec fn flag_member_of(v: Value, key: Seq<char>) -> Result<bool, ProblemModel> {
    match json_member(v, key) {
        None => Err(problem(ProblemKind::Missing, key)),
        Some(m) => match json_flag(m) {
            None => Err(problem(ProblemKind::WrongType, key)),
            Some(b) => Ok(b),
        },
    }
}

/// The elements of the member under `key`, which must be an array.
pub open spec fn elements_member_of(v: Value, key: Seq<char>) -> Result<Seq<Value>, ProblemModel> {
    match json_member(v, key) {
        None => Err(problem(ProblemKind::Missing, key)),
        Some(m) => match json_elements(m) {
            None => Err(problem(ProblemKind::WrongType, key)),
            Some(s) => Ok(s),
        },
    }
}

/// Decodes the elements of an array one by one, in order. The outcome is
/// the decoded elements in the same order, or the place and the problem of
/// the first element that cannot be decoded.
pub open spec fn decode_all<T>(
    vs: Seq<Value>,
    f: spec_fn(Value) -> Result<T, ProblemModel>,
) -> Result<Seq<T>, (int, ProblemModel)>
    decreases vs.len(),
{
    if vs.len() == 0 {
        Ok(Seq::empty())
    } else {
        match decode_all(vs.drop_last(), f) {
            Err(e) => Err(e),
            Ok(front) => match f(vs.last()) {
                Err(p) => Err((vs.len() - 1, p)),
                Ok(x) => Ok(front.push(x)),
            },
        }
    }
}

/// The elements of an array member, decoded; a problem of an element is
/// the problem of the member.
pub open spec fn decoded_member_of<T>(
    v: Value,
    key: Seq<char>,
    f: spec_fn(Value) -> Result<T, ProblemModel>,
) -> Result<Seq<T>, ProblemModel> {
    match elements_member_of(v, key) {
        Err(e) => Err(e),
        Ok(vs) => match decode_all(vs, f) {
            Err(e) => Err(e.1),
            Ok(s) => Ok(s),
        },
    }
}

/// One more element: decoding the first `i + 1` elements is decoding the
/// first `i` and then the element at `i`.
proof fn lemma_decode_all_step<T>(
    vs: Seq<Value>,
    f: spec_fn(Value) -> Result<T, ProblemModel>,
    i: int,
)
    requires
        0 <= i < vs.len(),
    ensures
        decode_all(vs.take(i + 1), f) == (match decode_all(vs.take(i), f) {
            Err(e) => Err(e),
            Ok(front) => match f(vs[i]) {
                Err(p) => Err((i, p)),
                Ok(x) => Ok(front.push(x)),
            },
        }),
{
    assert(vs.take(i + 1).drop_last() =~= vs.take(i));
    assert(vs.take(i + 1).last() == vs[i]);
}

/// A failure on a prefix is the failure on the whole array.
proof fn lemma_decode_all_error<T>(
    vs: Seq<Value>,
    f: spec_fn(Value) -> Result<T, ProblemModel>,
    i: int,
)
    requires
        0 <= i <= vs.len(),
        decode_all(vs.take(i), f) is Err,
    ensures
        decode_all(vs, f) == decode_all(vs.take(i), f),
    decreases vs.len() - i,
{
    if i == vs.len() {
        assert(vs.take(i) =~= vs);
    } else {
        lemma_decode_all_step(vs, f, i);
        lemma_decode_all_error(vs, f, i + 1);
    }
}

/// Decoding keeps count and order: where every element of an array can be
/// decoded, there are as many decoded elements as elements, and the one at
/// each place is what the element at that place decodes to.
pub proof fn lemma_decode_all_keeps_order<T>(
    vs: Seq<Value>,
    f: spec_fn(Value) -> Result<T, ProblemModel>,
)
    requires
        decode_all(vs, f) is Ok,
    ensures
        decode_all(vs, f)->Ok_0.len() == vs.len(),
        forall|i: int|
            0 <= i < vs.len() ==> f(#[trigger] vs[i]) == Ok::<T, ProblemModel>(
                decode_all(vs, f)->Ok_0[i],
            ),
    decreases vs.len(),
{
    if vs.len() > 0 {
        let front = vs.drop_last();
        lemma_decode_all_keeps_order(front, f);
        assert forall|i: int| 0 <= i < vs.len() implies f(#[trigger] vs[i]) == Ok::<
            T,
            ProblemModel,
        >(decode_all(vs, f)->Ok_0[i]) by {
            if i < front.len() {
                assert(front[i] == vs[i]);
            }
        }
    }
}

/// Decoding fails at the first element that cannot be decoded: the
/// elements before the reported place can all be decoded, and the element
/// at that place has the reported problem.
pub proof fn lemma_decode_all_fails_first<T>(
    vs: Seq<Value>,
    f: spec_fn(Value) -> Result<T, ProblemModel>,
)
    requires
        decode_all(vs, f) is Err,
    ensures
        0 <= decode_all(vs, f)->Err_0.0 < vs.len(),
        f(vs[decode_all(vs, f)->Err_0.0]) == Err::<T, ProblemModel>(decode_all(vs, f)->Err_0.1),
        forall|i: int| 0 <= i < decode_all(vs, f)->Err_0.0 ==> f(#[trigger] vs[i]) is Ok,
    decreases vs.len(),
{
    if vs.len() > 0 {
        let front = vs.drop_last();
        if decode_all(front, f) is Err {
            lemma_decode_all_fails_first(front, f);
        } else {
            lemma_decode_all_keeps_order(front, f);
        }
        let at = decode_all(vs, f)->Err_0.0;
        assert(at < vs.len() - 1 ==> front[at] == vs[at]);
        assert forall|i: int| 0 <= i < at implies f(#[trigger] vs[i]) is Ok by {
            assert(front[i] == vs[i]);
        }
    }
}

/// The resource that an object stands for.
pub open spec fn resource_of(v: Value) -> Result<ResourceContentSchemaModel, ProblemModel> {
    let uri = text_member_of(v, "uri"@);
    let mime_type = text_member_of(v, "mime_type"@);
    let text = text_member_of(v, "text"@);
    if uri is Err {
        Err(uri->Err_0)
    } else if mime_type is Err {
        Err(mime_type->Err_0)
    } else if text is Err {
        Err(text->Err_0)
    } else {
        Ok(
            ResourceContentSchemaModel {
                uri: uri->Ok_0,
                mime_type: mime_type->Ok_0,
                text: text->Ok_0,
            },
        )
    }
}

/// The content entry that an object stands for; its member `type` says
/// whether it is a text or a resource.
pub open spec fn message_content_of_json(v: Value) -> Result<
    MessageContentSchemaModel,
    ProblemModel,
> {
    let tag = text_member_of(v, "type"@);
    if tag is Err {
        Err(tag->Err_0)
    } else if tag->Ok_0 == "Text"@ {
        match text_member_of(v, "text"@) {
            Err(e) => Err(e),
            Ok(text) => Ok(MessageContentSchemaModel::Text { text }),
        }
    } else if tag->Ok_0 == "Resource"@ {
        match member_of(v, "resource"@) {
            Err(e) => Err(e),
            Ok(r) => match resource_of(r) {
                Err(e) => Err(e),
                Ok(resource) => Ok(MessageContentSchemaModel::Resource { resource }),
            },
        }
    } else {
        Err(problem(ProblemKind::UnknownType, "type"@))
    }
}

/// [`message_content_of_json`] as a function value.
pub open spec fn content_decoder() -> spec_fn(Value) -> Result<
    MessageContentSchemaModel,
    ProblemModel,
> {
    |v: Value| message_content_of_json(v)
}

/// The payload of a user turn that an object stands for.
pub open spec fn user_data_of(v: Value) -> Result<UserMessageDataSchemaModel, ProblemModel> {
    let session_id = text_member_of(v, "session_id"@);
    let contents = decoded_member_of(v, "contents"@, content_decoder());
    if session_id is Err {
        Err(session_id->Err_0)
    } else if contents is Err {
        Err(contents->Err_0)
    } else {
        Ok(UserMessageDataSchemaModel { session_id: session_id->Ok_0, contents: contents->Ok_0 })
    }
}

/// The chunk of an agent turn that an object stands for.
pub open spec fn chunk_of(v: Value) -> Result<AgentMessageContentSchemaModel, ProblemModel> {
    let content_type = text_member_of(v, "content_type"@);
    let text = text_member_of(v, "text"@);
    if content_type is Err {
        Err(content_type->Err_0)
    } else if text is Err {
        Err(text->Err_0)
    } else {
        Ok(AgentMessageContentSchemaModel { content_type: content_type->Ok_0, text: text->Ok_0 })
    }
}

/// [`chunk_of`] as a function value.
pub open spec fn chunk_decoder() -> spec_fn(Value) -> Result<
    AgentMessageContentSchemaModel,
    ProblemModel,
> {
    |v: Value| chunk_of(v)
}

/// The payload of an agent turn that an object stands for. The agent's
/// name may be absent.
pub open spec fn agent_data_of(v: Value) -> Result<AgentMessageDataSchemaModel, ProblemModel> {
    let session_id = text_member_of(v, "session_id"@);
    let agent_name = optional_text_member_of(v, "agent_name"@);
    let chunks = decoded_member_of(v, "chunks"@, chunk_decoder());
    let is_complete = flag_member_of(v, "is_complete"@);
    if session_id is Err {
        Err(session_id->Err_0)
    } else if agent_name is Err {
        Err(agent_name->Err_0)
    } else if chunks is Err {
        Err(chunks->Err_0)
    } else if is_complete is Err {
        Err(is_complete->Err_0)
    } else {
        Ok(
            AgentMessageDataSchemaModel {
                session_id: session_id->Ok_0,
                agent_name: agent_name->Ok_0,
                chunks: chunks->Ok_0,
                is_complete: is_complete->Ok_0,
            },
        )
    }
}

/// The plan entry that an object stands for.
pub open spec fn plan_entry_of_json(v: Value) -> Result<PlanEntrySchemaModel, ProblemModel> {
    let content = text_member_of(v, "content"@);
    let priority = text_member_of(v, "priority"@);
    let status = text_member_of(v, "status"@);
    if content is Err {
        Err(content->Err_0)
    } else if priority is Err {
        Err(priority->Err_0)
    } else if status is Err {
        Err(status->Err_0)
    } else {
        Ok(
            PlanEntrySchemaModel {
                content: content->Ok_0,
                priority: priority->Ok_0,
                status: status->Ok_0,
            },
        )
    }
}

/// [`plan_entry_of_json`] as a function value.
pub open spec fn plan_entry_decoder() -> spec_fn(Value) -> Result<
    PlanEntrySchemaModel,
    ProblemModel,
> {
    |v: Value| plan_entry_of_json(v)
}

/// The piece of tool output that an object stands for.
pub open spec fn tool_content_of_json(v: Value) -> Result<
    ToolCallContentSchemaModel,
    ProblemModel,
> {
    match text_member_of(v, "text"@) {
        Err(e) => Err(e),
        Ok(text) => Ok(ToolCallContentSchemaModel { text }),
    }
}

/// [`tool_content_of_json`] as a function value.
pub open spec fn tool_content_decoder() -> spec_fn(Value) -> Result<
    ToolCallContentSchemaModel,
    ProblemModel,
> {
    |v: Value| tool_content_of_json(v)
}

/// The payload of a tool call that an object stands for.
pub open spec fn tool_data_of(v: Value) -> Result<ToolCallDataSchemaModel, ProblemModel> {
    let tool_call_id = text_member_of(v, "tool_call_id"@);
    let title = text_member_of(v, "title"@);
    let kind = text_member_of(v, "kind"@);
    let status = text_member_of(v, "status"@);
    let content = decoded_member_of(v, "content"@, tool_content_decoder());
    if tool_call_id is Err {
        Err(tool_call_id->Err_0)
    } else if title is Err {
        Err(title->Err_0)
    } else if kind is Err {
        Err(kind->Err_0)
    } else if status is Err {
        Err(status->Err_0)
    } else if content is Err {
        Err(content->Err_0)
    } else {
        Ok(
            ToolCallDataSchemaModel {
                tool_call_id: tool_call_id->Ok_0,
                title: title->Ok_0,
                kind: kind->Ok_0,
                status: status->Ok_0,
                content: content->Ok_0,
            },
        )
    }
}

/// The tool call that an object stands for.
pub open spec fn tool_item_of(v: Value) -> Result<ToolCallItemSchemaModel, ProblemModel> {
    let id = text_member_of(v, "id"@);
    let data = match member_of(v, "data"@) {
        Err(e) => Err(e),
        Ok(d) => tool_data_of(d),
    };
    let open = flag_member_of(v, "open"@);
    if id is Err {
        Err(id->Err_0)
    } else if data is Err {
        Err(data->Err_0)
    } else if open is Err {
        Err(open->Err_0)
    } else {
        Ok(ToolCallItemSchemaModel { id: id->Ok_0, data: data->Ok_0, open: open->Ok_0 })
    }
}

/// [`tool_item_of`] as a function value.
pub open spec fn tool_item_decoder() -> spec_fn(Value) -> Result<
    ToolCallItemSchemaModel,
    ProblemModel,
> {
    |v: Value| tool_item_of(v)
}

/// The item that a value of the document stands for, or the first problem
/// met when its members are read in the order of the schema.
pub open spec fn item_of(v: Value) -> Result<ConversationItemModel, ProblemModel> {
    let tag = text_member_of(v, "type"@);
    if tag is Err {
        Err(tag->Err_0)
    } else if tag->Ok_0 == "UserMessage"@ {
        let id = text_member_of(v, "id"@);
        let data = match member_of(v, "data"@) {
            Err(e) => Err(e),
            Ok(d) => user_data_of(d),
        };
        if id is Err {
            Err(id->Err_0)
        } else if data is Err {
            Err(data->Err_0)
        } else {
            Ok(ConversationItemModel::UserMessage { id: id->Ok_0, data: data->Ok_0 })
        }
    } else if tag->Ok_0 == "AgentMessage"@ {
        let id = text_member_of(v, "id"@);
        let data = match member_of(v, "data"@) {
            Err(e) => Err(e),
            Ok(d) => agent_data_of(d),
        };
        if id is Err {
            Err(id->Err_0)
        } else if data is Err {
            Err(data->Err_0)
        } else {
            Ok(ConversationItemModel::AgentMessage { id: id->Ok_0, data: data->Ok_0 })
        }
    } else if tag->Ok_0 == "AgentTodoList"@ {
        let title = text_member_of(v, "title"@);
        let entries = decoded_member_of(v, "entries"@, plan_entry_decoder());
        if title is Err {
            Err(title->Err_0)
        } else if entries is Err {
            Err(entries->Err_0)
        } else {
            Ok(ConversationItemModel::AgentTodoList { title: title->Ok_0, entries: entries->Ok_0 })
        }
    } else if tag->Ok_0 == "ToolCallGroup"@ {
        match decoded_member_of(v, "items"@, tool_item_decoder()) {
            Err(e) => Err(e),
            Ok(items) => Ok(ConversationItemModel::ToolCallGroup { items }),
        }
    } else {
        Err(problem(ProblemKind::UnknownType, "type"@))
    }
}

/// [`item_of`] as a function value.
pub open spec fn item_decoder() -> spec_fn(Value) -> Result<ConversationItemModel, ProblemModel> {
    |v: Value| item_of(v)
}

/// The log that a parsed document stands for: its items in the order of
/// the array, or why it is no log.
pub open spec fn document_of(v: Value) -> Result<Seq<ConversationItemModel>, ParseErrorModel> {
    match json_elements(v) {
        None => Err(ParseErrorModel::NotAnArray),
        Some(vs) => match decode_all(vs, item_decoder()) {
            Err(e) => Err(ParseErrorModel::Item { index: e.0, problem: e.1 }),
            Ok(items) => Ok(items),
        },
    }
}

/// A document that is a log has as many items as its array has elements,
/// and its item at each place is what the element at that place stands for.
pub proof fn lemma_document_keeps_count_and_order(v: Value, i: int)
    requires
        document_of(v) is Ok,
        0 <= i < document_of(v)->Ok_0.len(),
    ensures
        json_elements(v) is Some,
        document_of(v)->Ok_0.len() == json_elements(v)->Some_0.len(),
        item_of(json_elements(v)->Some_0[i]) == Ok::<ConversationItemModel, ProblemModel>(
            document_of(v)->Ok_0[i],
        ),
{
    let vs = json_elements(v)->Some_0;
    lemma_decode_all_keeps_order(vs, item_decoder());
    assert(item_decoder()(vs[i]) == item_of(vs[i]));
}

/// The member under `key`, which must be there.
fn get_member<'a>(v: &'a Value, key: &'static str) -> (r: Result<&'a Value, Problem>)
    ensures
        match member_of(*v, key@) {
            Ok(m) => r is Ok && *r->Ok_0 == m,
            Err(e) => r is Err && r->Err_0@ == e,
        },
{
    match value_member(v, key) {
        None => Err(Problem { kind: ProblemKind::Missing, field: key }),
        Some(m) => Ok(m),
    }
}

/// The text of the string member under `key`.
fn get_text(v: &Value, key: &'static str) -> (r: Result<String, Problem>)
    ensures
        match text_member_of(*v, key@) {
            Ok(t) => r is Ok && r->Ok_0@ == t,
            Err(e) => r is Err && r->Err_0@ == e,
        },
{
    match value_member(v, key) {
        None => Err(Problem { kind: ProblemKind::Missing, field: key }),
        Some(m) => match value_text(m) {
            None => Err(Problem { kind: ProblemKind::WrongType, field: key }),
            Some(t) => Ok(t.to_owned()),
        },
    }
}

/// The text of the string member under `key`, if there is one and it is
/// not `null`.
fn get_optional_text(v: &Value, key: &'static str) -> (r: Result<Option<String>, Problem>)
    ensures
        match optional_text_member_of(*v, key@) {
            Ok(Some(t)) => r is Ok && r->Ok_0 is Some && r->Ok_0->Some_0@ == t,
            Ok(None) => r is Ok && r->Ok_0 is None,
            Err(e) => r is Err && r->Err_0@ == e,
        },
{
    match value_member(v, key) {
        None => Ok(None),
        Some(m) => {
            if value_is_null(m) {
                Ok(None)
            } else {
                match value_text(m) {
                    None => Err(Problem { kind: ProblemKind::WrongType, field: key }),
                    Some(t) => Ok(Some(t.to_owned())),
                }
            }
        },
    }
}

/// The truth value of the boolean member under `key`.
fn get_flag(v: &Value, key: &'static str) -> (r: Result<bool, Problem>)
    ensures
        match flag_member_of(*v, key@) {
            Ok(b) => r == Ok::<bool, Problem>(b),
            Err(e) => r is Err && r->Err_0@ == e,
        },
{
    match value_member(v, key) {
        None => Err(Problem { kind: ProblemKind::Missing, field: key }),
        Some(m) => match value_flag(m) {
            None => Err(Problem { kind: ProblemKind::WrongType, field: key }),
            Some(b) => Ok(b),
        },
    }
}

/// The elements of the array member under `key`.
fn get_elements<'a>(v: &'a Value, key: &'static str) -> (r: Result<&'a Vec<Value>, Problem>)
    ensures
        match elements_member_of(*v, key@) {
            Ok(s) => r is Ok && r->Ok_0@ == s,
            Err(e) => r is Err && r->Err_0@ == e,
        },
{
    match value_member(v, key) {
        None => Err(Problem { kind: ProblemKind::Missing, field: key }),
        Some(m) => match value_elements(m) {
            None => Err(Problem { kind: ProblemKind::WrongType, field: key }),
            Some(s) => Ok(s),
        },
    }
}

/// Whether an outcome of decoding is the one that the model asks for: the
/// same value by its view, or the same problem.
pub open spec fn decodes_to<T: View>(
    out: Result<T, Problem>,
    model: Result<T::V, ProblemModel>,
) -> bool {
    match model {
        Ok(m) => out is Ok && out->Ok_0@ == m,
        Err(p) => out is Err && out->Err_0@ == p,
    }
}

/// Decodes the elements of an array in order with `decode`, which computes
/// `f`, and stops at the first element that cannot be decoded.
fn decode_each<T: View, F: Fn(&Value) -> Result<T, Problem>>(
    vs: &Vec<Value>,
    decode: F,
    Ghost(f): Ghost<spec_fn(Value) -> Result<T::V, ProblemModel>>,
) -> (r: Result<Vec<T>, (usize, Problem)>)
    requires
        forall|e: &Value| #[trigger] call_requires(decode, (e,)),
        forall|e: &Value, out: Result<T, Problem>| #[trigger]
            call_ensures(decode, (e,), out) ==> decodes_to(out, f(*e)),
    ensures
        match decode_all(vs@, f) {
            Ok(s) => r is Ok && r->Ok_0@.map_values(|t: T| t@) == s,
            Err(e) => r is Err && r->Err_0.0 == e.0 && r->Err_0.1@ == e.1,
        },
{
    let mut out: Vec<T> = Vec::new();
    let n = vs.len();
    let mut i: usize = 0;
    assert(vs@.take(0) =~= Seq::<Value>::empty());
    assert(out@.map_values(|t: T| t@) =~= Seq::<T::V>::empty());
    while i < n
        invariant
            n == vs@.len(),
            i <= n,
            forall|e: &Value| #[trigger] call_requires(decode, (e,)),
            forall|e: &Value, out: Result<T, Problem>| #[trigger]
                call_ensures(decode, (e,), out) ==> decodes_to(out, f(*e)),
            decode_all(vs@.take(i as int), f) == Ok::<Seq<T::V>, (int, ProblemModel)>(
                out@.map_values(|t: T| t@),
            ),
        decreases n - i,
    {
        proof {
            lemma_decode_all_step(vs@, f, i as int);
        }
        let ghost front = out@.map_values(|t: T| t@);
        match decode(&vs[i]) {
            Ok(x) => {
                out.push(x);
                assert(out@.map_values(|t: T| t@) =~= front.push(x@));
            },
            Err(p) => {
                proof {
                    lemma_decode_all_error(vs@, f, i + 1);
                }
                return Err((i, p));
            },
        }
        i += 1;
    }
    assert(vs@.take(n as int) =~= vs@);
    Ok(out)
}

/// Decodes the elements of the array member under `key`; a problem of an
/// element is the problem of the member.
fn decode_member<T: View, F: Fn(&Value) -> Result<T, Problem>>(
    v: &Value,
    key: &'static str,
    decode: F,
    Ghost(f): Ghost<spec_fn(Value) -> Result<T::V, ProblemModel>>,
) -> (r: Result<Vec<T>, Problem>)
    requires
        forall|e: &Value| #[trigger] call_requires(decode, (e,)),
        forall|e: &Value, out: Result<T, Problem>| #[trigger]
            call_ensures(decode, (e,), out) ==> decodes_to(out, f(*e)),
    ensures
        match decoded_member_of(*v, key@, f) {
            Ok(s) => r is Ok && r->Ok_0@.map_values(|t: T| t@) == s,
            Err(e) => r is Err && r->Err_0@ == e,
        },
{
    let vs = get_elements(v, key)?;
    match decode_each(vs, decode, Ghost(f)) {
        Ok(out) => Ok(out),
        Err(e) => Err(e.1),
    }
}

/// Reads a resource.
fn decode_resource(v: &Value) -> (r: Result<ResourceContentSchema, Problem>)
    ensures
        match resource_of(*v) {
            Ok(m) => r is Ok && r->Ok_0@ == m,
            Err(e) => r is Err && r->Err_0@ == e,
        },
{
    let uri = get_text(v, "uri")?;
    let mime_type = get_text(v, "mime_type")?;
    let text = get_text(v, "text")?;
    Ok(ResourceContentSchema { uri, mime_type, text })
}

/// Reads one content entry of a user turn.
fn decode_message_content(v: &Value) -> (r: Result<MessageContentSchema, Problem>)
    ensures
        match message_content_of_json(*v) {
            Ok(m) => r is Ok && r->Ok_0@ == m,
            Err(e) => r is Err && r->Err_0@ == e,
        },
{
    let tag = get_text(v, "type")?;
    if *tag.as_str() == *"Text" {
        let text = get_text(v, "text")?;
        Ok(MessageContentSchema::Text { text })
    } else if *tag.as_str() == *"Resource" {
        let member = get_member(v, "resource")?;
        let resource = decode_resource(member)?;
        Ok(MessageContentSchema::Resource { resource })
    } else {
        Err(Problem { kind: ProblemKind::UnknownType, field: "type" })
    }
}

/// Reads the payload of a user turn.
fn decode_user_data(v: &Value) -> (r: Result<UserMessageDataSchema, Problem>)
    ensures
        match user_data_of(*v) {
            Ok(m) => r is Ok && r->Ok_0@ == m,
            Err(e) => r is Err && r->Err_0@ == e,
        },
{
    let session_id = get_text(v, "session_id")?;
    let contents = decode_member(v, "contents", decode_message_content, Ghost(content_decoder()))?;
    Ok(UserMessageDataSchema { session_id, contents })
}

/// Reads one chunk of an agent turn.
fn decode_chunk(v: &Value) -> (r: Result<AgentMessageContentSchema, Problem>)
    ensures
        match chunk_of(*v) {
            Ok(m) => r is Ok && r->Ok_0@ == m,
            Err(e) => r is Err && r->Err_0@ == e,
        },
{
    let content_type = get_text(v, "content_type")?;
    let text = get_text(v, "text")?;
    Ok(AgentMessageContentSchema { content_type, text })
}

/// Reads the payload of an agent turn.
fn decode_agent_data(v: &Value) -> (r: Result<AgentMessageDataSchema, Problem>)
    ensures
        match agent_data_of(*v) {
            Ok(m) => r is Ok && r->Ok_0@ == m,
            Err(e) => r is Err && r->Err_0@ == e,
        },
{
    let session_id = get_text(v, "session_id")?;
    let agent_name = get_optional_text(v, "agent_name")?;
    let chunks = decode_member(v, "chunks", decode_chunk, Ghost(chunk_decoder()))?;
    let is_complete = get_flag(v, "is_complete")?;
    Ok(AgentMessageDataSchema { session_id, agent_name, chunks, is_complete })
}

/// Reads one entry of a plan.
fn decode_plan_entry(v: &Value) -> (r: Result<PlanEntrySchema, Problem>)
    ensures
        match plan_entry_of_json(*v) {
            Ok(m) => r is Ok && r->Ok_0@ == m,
            Err(e) => r is Err && r->Err_0@ == e,
        },
{
    let content = get_text(v, "content")?;
    let priority = get_text(v, "priority")?;
    let status = get_text(v, "status")?;
    Ok(PlanEntrySchema { content, priority, status })
}

/// Reads one piece of output of a tool call.
fn decode_tool_content(v: &Value) -> (r: Result<ToolCallContentSchema, Problem>)
    ensures
        match tool_content_of_json(*v) {
            Ok(m) => r is Ok && r->Ok_0@ == m,
            Err(e) => r is Err && r->Err_0@ == e,
        },
{
    let text = get_text(v, "text")?;
    Ok(ToolCallContentSchema { text })
}

/// Reads the payload of a tool call.
fn decode_tool_data(v: &Value) -> (r: Result<ToolCallDataSchema, Problem>)
    ensures
        match tool_data_of(*v) {
            Ok(m) => r is Ok && r->Ok_0@ == m,
            Err(e) => r is Err && r->Err_0@ == e,
        },
{
    let tool_call_id = get_text(v, "tool_call_id")?;
    let title = get_text(v, "title")?;
    let kind = get_text(v, "kind")?;
    let status = get_text(v, "status")?;
    let content = decode_member(v, "content", decode_tool_content, Ghost(tool_content_decoder()))?;
    Ok(ToolCallDataSchema { tool_call_id, title, kind, status, content })
}

/// Reads one tool call of a group.
fn decode_tool_item(v: &Value) -> (r: Result<ToolCallItemSchema, Problem>)
    ensures
        match tool_item_of(*v) {
            Ok(m) => r is Ok && r->Ok_0@ == m,
            Err(e) => r is Err && r->Err_0@ == e,
        },
{
    let id = get_text(v, "id")?;
    let member = get_member(v, "data")?;
    let data = decode_tool_data(member)?;
    let open = get_flag(v, "open")?;
    Ok(ToolCallItemSchema { id, data, open })
}

/// Reads one item of the log from a value of the document.
pub fn decode_item(v: &Value) -> (r: Result<ConversationItem, Problem>)
    ensures
        match item_of(*v) {
            Ok(m) => r is Ok && r->Ok_0@ == m,
            Err(e) => r is Err && r->Err_0@ == e,
        },
{
    let tag = get_text(v, "type")?;
    if *tag.as_str() == *"UserMessage" {
        let id = get_text(v, "id")?;
        let member = get_member(v, "data")?;
        let data = decode_user_data(member)?;
        Ok(ConversationItem::UserMessage { id, data })
    } else if *tag.as_str() == *"AgentMessage" {
        let id = get_text(v, "id")?;
        let member = get_member(v, "data")?;
        let data = decode_agent_data(member)?;
        Ok(ConversationItem::AgentMessage { id, data })
    } else if *tag.as_str() == *"AgentTodoList" {
        let title = get_text(v, "title")?;
        let entries = decode_member(v, "entries", decode_plan_entry, Ghost(plan_entry_decoder()))?;
        Ok(ConversationItem::AgentTodoList { title, entries })
    } else if *tag.as_str() == *"ToolCallGroup" {
        let items = decode_member(v, "items", decode_tool_item, Ghost(tool_item_decoder()))?;
        Ok(ConversationItem::ToolCallGroup { items })
    } else {
        Err(Problem { kind: ProblemKind::UnknownType, field: "type" })
    }
}

/// Reads the log from a parsed document: the items of the array in their
/// order, or the first reason for which the document is no log.
pub fn decode_document(v: &Value) -> (r: Result<Vec<ConversationItem>, ParseError>)
    ensures
        match document_of(*v) {
            Ok(items) => r is Ok && r->Ok_0@.map_values(|i: ConversationItem| i@) == items,
            Err(e) => r is Err && r->Err_0@ == e,
        },
{
    let vs = match value_elements(v) {
        None => {
            return Err(ParseError::NotAnArray);
        },
        Some(vs) => vs,
    };
    match decode_each(vs, decode_item, Ghost(item_decoder())) {
        Ok(items) => Ok(items),
        Err(e) => Err(ParseError::Item { index: e.0, problem: e.1 }),
    }
}

/// The problem that a parser's error stands for: where the parser stopped,
/// and why.
pub open spec fn syntax_error_of(e: serde_json::Error) -> ParseErrorModel {
    ParseErrorModel::Syntax {
        line: json_error_line(e),
        column: json_error_column(e),
        message: json_error_message(e),
    }
}

/// The log that a text stands for: what its document stands for where the
/// text is JSON, and the parser's error where it is not.
pub open spec fn log_of(text: Seq<char>) -> Result<Seq<ConversationItemModel>, ParseErrorModel> {
    match json_parsed(text) {
        Err(e) => Err(syntax_error_of(e)),
        Ok(v) => document_of(v),
    }
}

/// Reads the log from the text of a document. A text that is not JSON
/// gives a `Syntax` error with the parser's line, column and message; a
/// text that is JSON gives what [`decode_document`] gives for its value.
pub fn load_document(text: &str) -> (r: Result<Vec<ConversationItem>, ParseError>)
    ensures
        match log_of(text@) {
            Ok(items) => r is Ok && r->Ok_0@.map_values(|i: ConversationItem| i@) == items,
            Err(e) => r is Err && r->Err_0@ == e,
        },
{
    match parse_value(text) {
        Err(e) => Err(
            ParseError::Syntax {
                line: error_line(&e),
                column: error_column(&e),
                message: error_message(&e),
            },
        ),
        Ok(v) => decode_document(&v),
    }
}

} // verus!
