//! The canonical wire encoding of backend notifications.
//!
//! Every notification serializes to a JSON envelope
//! `{"method": <tag>, "params": <payload>}`; items and other payloads are
//! tagged objects with a fixed key order. `notification_to_json` produces the
//! encoding, `json_to_notification` reads it back; the two are inverse on
//! well-formed notifications, which is what makes `Unknown.raw` lossless.

use vstd::prelude::*;
use crate::json::{JsonValue, JsonData, json_clone, json_data, json_data_seq, json_data_entries,
    json_data_seq_props, json_data_entries_props};
use crate::codex::{
    UserInput, UserInputView, FileUpdateChange, FileUpdateChangeView, McpToolCallError,
    McpToolCallErrorView, ThreadItem, ThreadItemView, Thread, ThreadView, Turn, TurnView,
    TurnError, TurnErrorView, ThreadStartedNotification, ThreadStartedNotificationView,
    TurnStartedNotification, TurnStartedNotificationView, TurnCompletedNotification,
    TurnCompletedNotificationView, ItemStartedNotification, ItemStartedNotificationView,
    ItemCompletedNotification, ItemCompletedNotificationView, ItemDeltaNotification,
    ItemDeltaNotificationView, ErrorNotification, ErrorNotificationView, ThreadAuxNotification,
    ThreadAuxNotificationView, ServerNotification, ServerNotificationView,
    CommandExecutionStatus, PatchApplyStatus, McpToolCallStatus, CollabAgentToolCallStatus,
    CollabAgentTool, spec_command_status_name, spec_patch_status_name, spec_mcp_status_name,
    spec_collab_status_name, spec_collab_tool_name, command_status_name, patch_status_name,
    mcp_status_name, collab_status_name, collab_tool_name,
};

verus! {

broadcast use json_data_seq_props, json_data_entries_props;

// ---------------------------------------------------------------------------
// small encodings

/// An optional string encodes as the string or as null.
pub open spec fn spec_opt_text_json(o: Option<Seq<char>>) -> JsonData {
    match o {
        Some(s) => JsonData::Text(s),
        None => JsonData::Null,
    }
}

/// An optional 64-bit integer encodes as the number or as null.
pub open spec fn spec_opt_i64_json(o: Option<i64>) -> JsonData {
    match o {
        Some(i) => JsonData::Int(i as int),
        None => JsonData::Null,
    }
}

/// An optional 32-bit integer encodes as the number or as null.
pub open spec fn spec_opt_i32_json(o: Option<i32>) -> JsonData {
    match o {
        Some(i) => JsonData::Int(i as int),
        None => JsonData::Null,
    }
}

/// An optional JSON payload encodes as itself or as null.
pub open spec fn spec_opt_value_json(o: Option<JsonData>) -> JsonData {
    match o {
        Some(v) => v,
        None => JsonData::Null,
    }
}

/// A list of strings encodes as an array of strings.
pub open spec fn spec_texts_json(ss: Seq<Seq<char>>) -> JsonData {
    JsonData::Arr(ss.map_values(|t: Seq<char>| JsonData::Text(t)))
}

pub fn opt_text_json(o: &Option<String>) -> (r: JsonValue)
    ensures
        r@ == spec_opt_text_json(o.deep_view()),
{
    match o {
        Some(s) => JsonValue::Text(s.clone()),
        None => JsonValue::Null,
    }
}

pub fn opt_i64_json(o: &Option<i64>) -> (r: JsonValue)
    ensures
        r@ == spec_opt_i64_json(*o),
{
    match o {
        Some(i) => JsonValue::Int(*i),
        None => JsonValue::Null,
    }
}

pub fn opt_i32_json(o: &Option<i32>) -> (r: JsonValue)
    ensures
        r@ == spec_opt_i32_json(*o),
{
    match o {
        Some(i) => JsonValue::Int(*i as i64),
        None => JsonValue::Null,
    }
}

pub fn opt_value_json(o: &Option<JsonValue>) -> (r: JsonValue)
    ensures
        r@ == spec_opt_value_json(o.deep_view()),
{
    match o {
        Some(v) => json_clone(v),
        None => JsonValue::Null,
    }
}

pub fn texts_json(v: &Vec<String>) -> (r: JsonValue)
    ensures
        r@ == spec_texts_json(v.deep_view()),
{
    let mut out: Vec<JsonValue> = Vec::new();
    let mut i: usize = 0;
    while i < v.len()
        invariant
            i <= v.len(),
            out@.len() == i as int,
            forall|j: int| 0 <= j < i ==> out@[j]@ == JsonData::Text(v@[j]@),
        decreases v.len() - i,
    {
        out.push(JsonValue::Text(v[i].clone()));
        i = i + 1;
    }
    proof {
        assert(json_data_seq(out@) =~= v.deep_view().map_values(
            |t: Seq<char>| JsonData::Text(t),
        ));
    }
    JsonValue::Arr(out)
}

// ---------------------------------------------------------------------------
// tagged objects

/// Every notification envelope is `{"method": <tag>, "params": <payload>}`.
pub open spec fn spec_envelope_json(method: Seq<char>, params: JsonData) -> JsonData {
    JsonData::Obj(
        seq![("method"@, JsonData::Text(method)), ("params"@, params)],
    )
}

pub fn envelope_json(method: &str, params: JsonValue) -> (r: JsonValue)
    ensures
        r@ == spec_envelope_json(method@, params@),
{
    let mut e: Vec<(String, JsonValue)> = Vec::new();
    e.push(("method".to_owned(), JsonValue::Text(method.to_owned())));
    e.push(("params".to_owned(), params));
    proof {
        assert(json_data_entries(e@) =~= spec_envelope_json(method@, params@)->Obj_0);
    }
    JsonValue::Obj(e)
}

/// One block of user input as a tagged object.
pub open spec fn spec_user_input_json(u: UserInputView) -> JsonData {
    match u {
        UserInputView::Text { text, text_elements } => JsonData::Obj(
            seq![
                ("type"@, JsonData::Text("text"@)),
                ("text"@, JsonData::Text(text)),
                ("textElements"@, spec_texts_json(text_elements)),
            ],
        ),
        UserInputView::Image { image_url } => JsonData::Obj(
            seq![
                ("type"@, JsonData::Text("image"@)),
                ("imageUrl"@, JsonData::Text(image_url)),
            ],
        ),
        UserInputView::LocalImage { path } => JsonData::Obj(
            seq![
                ("type"@, JsonData::Text("localImage"@)),
                ("path"@, JsonData::Text(path)),
            ],
        ),
        UserInputView::Skill { name, path } => JsonData::Obj(
            seq![
                ("type"@, JsonData::Text("skill"@)),
                ("name"@, JsonData::Text(name)),
                ("path"@, JsonData::Text(path)),
            ],
        ),
    }
}

pub fn user_input_json(u: &UserInput) -> (r: JsonValue)
    ensures
        r@ == spec_user_input_json(u.deep_view()),
{
    let mut e: Vec<(String, JsonValue)> = Vec::new();
    match u {
        UserInput::Text { text, text_elements } => {
            e.push(("type".to_owned(), JsonValue::Text("text".to_owned())));
            e.push(("text".to_owned(), JsonValue::Text(text.clone())));
            e.push(("textElements".to_owned(), texts_json(text_elements)));
        },
        UserInput::Image { image_url } => {
            e.push(("type".to_owned(), JsonValue::Text("image".to_owned())));
            e.push(("imageUrl".to_owned(), JsonValue::Text(image_url.clone())));
        },
        UserInput::LocalImage { path } => {
            e.push(("type".to_owned(), JsonValue::Text("localImage".to_owned())));
            e.push(("path".to_owned(), JsonValue::Text(path.clone())));
        },
        UserInput::Skill { name, path } => {
            e.push(("type".to_owned(), JsonValue::Text("skill".to_owned())));
            e.push(("name".to_owned(), JsonValue::Text(name.clone())));
            e.push(("path".to_owned(), JsonValue::Text(path.clone())));
        },
    }
    proof {
        assert(json_data_entries(e@) =~= spec_user_input_json(u.deep_view())->Obj_0);
    }
    JsonValue::Obj(e)
}

pub fn user_inputs_json(v: &Vec<UserInput>) -> (r: JsonValue)
    ensures
        r@ == JsonData::Arr(v.deep_view().map_values(|u: UserInputView| spec_user_input_json(u))),
{
    let mut out: Vec<JsonValue> = Vec::new();
    let mut i: usize = 0;
    while i < v.len()
        invariant
            i <= v.len(),
            out@.len() == i as int,
            forall|j: int| 0 <= j < i ==> out@[j]@ == spec_user_input_json(v@[j].deep_view()),
        decreases v.len() - i,
    {
        out.push(user_input_json(&v[i]));
        i = i + 1;
    }
    proof {
        assert(json_data_seq(out@) =~= v.deep_view().map_values(
            |u: UserInputView| spec_user_input_json(u),
        ));
    }
    JsonValue::Arr(out)
}

/// One file-change entry as an object.
pub open spec fn spec_file_change_json(c: FileUpdateChangeView) -> JsonData {
    JsonData::Obj(
        seq![
            ("path"@, JsonData::Text(c.path)),
            ("kind"@, JsonData::Text(c.kind)),
            ("diff"@, JsonData::Text(c.diff)),
        ],
    )
}

pub fn file_change_json(c: &FileUpdateChange) -> (r: JsonValue)
    ensures
        r@ == spec_file_change_json(c.deep_view()),
{
    let mut e: Vec<(String, JsonValue)> = Vec::new();
    e.push(("path".to_owned(), JsonValue::Text(c.path.clone())));
    e.push(("kind".to_owned(), JsonValue::Text(c.kind.clone())));
    e.push(("diff".to_owned(), JsonValue::Text(c.diff.clone())));
    proof {
        assert(json_data_entries(e@) =~= spec_file_change_json(c.deep_view())->Obj_0);
    }
    JsonValue::Obj(e)
}

pub fn file_changes_json(v: &Vec<FileUpdateChange>) -> (r: JsonValue)
    ensures
        r@ == JsonData::Arr(v.deep_view().map_values(
            |c: FileUpdateChangeView| spec_file_change_json(c),
        )),
{
    let mut out: Vec<JsonValue> = Vec::new();
    let mut i: usize = 0;
    while i < v.len()
        invariant
            i <= v.len(),
            out@.len() == i as int,
            forall|j: int| 0 <= j < i ==> out@[j]@ == spec_file_change_json(v@[j].deep_view()),
        decreases v.len() - i,
    {
        out.push(file_change_json(&v[i]));
        i = i + 1;
    }
    proof {
        assert(json_data_seq(out@) =~= v.deep_view().map_values(
            |c: FileUpdateChangeView| spec_file_change_json(c),
        ));
    }
    JsonValue::Arr(out)
}

/// The error half of an MCP tool call as an object.
pub open spec fn spec_mcp_error_json(e: McpToolCallErrorView) -> JsonData {
    JsonData::Obj(seq![("message"@, JsonData::Text(e.message))])
}

pub fn mcp_error_json(err: &McpToolCallError) -> (r: JsonValue)
    ensures
        r@ == spec_mcp_error_json(err.deep_view()),
{
    let mut e: Vec<(String, JsonValue)> = Vec::new();
    e.push(("message".to_owned(), JsonValue::Text(err.message.clone())));
    proof {
        assert(json_data_entries(e@) =~= spec_mcp_error_json(err.deep_view())->Obj_0);
    }
    JsonValue::Obj(e)
}

/// An optional MCP error encodes as the error object or as null.
pub open spec fn spec_opt_mcp_error_json(o: Option<McpToolCallErrorView>) -> JsonData {
    match o {
        Some(e) => spec_mcp_error_json(e),
        None => JsonData::Null,
    }
}

pub fn opt_mcp_error_json(o: &Option<McpToolCallError>) -> (r: JsonValue)
    ensures
        r@ == spec_opt_mcp_error_json(o.deep_view()),
{
    match o {
        Some(e) => mcp_error_json(e),
        None => JsonValue::Null,
    }
}

pub fn values_json(v: &Vec<JsonValue>) -> (r: JsonValue)
    ensures
        r@ == JsonData::Arr(v.deep_view()),
{
    let mut out: Vec<JsonValue> = Vec::new();
    let mut i: usize = 0;
    while i < v.len()
        invariant
            i <= v.len(),
            out@.len() == i as int,
            forall|j: int| 0 <= j < i ==> out@[j]@ == v@[j]@,
        decreases v.len() - i,
    {
        out.push(json_clone(&v[i]));
        i = i + 1;
    }
    proof {
        assert(json_data_seq(out@) =~= v.deep_view());
    }
    JsonValue::Arr(out)
}

} // verus!

verus! {

// ---------------------------------------------------------------------------
// items

/// A thread item as a tagged object. The tag doubles as the canonical
/// `itemType` metadata value.
pub open spec fn spec_item_json(it: ThreadItemView) -> JsonData {
    match it {
        ThreadItemView::UserMessage { content, id } => JsonData::Obj(
            seq![
                ("type"@, JsonData::Text("userMessage"@)),
                ("content"@, JsonData::Arr(content.map_values(
                    |u: UserInputView| spec_user_input_json(u),
                ))),
                ("id"@, JsonData::Text(id)),
            ],
        ),
        ThreadItemView::AgentMessage { id, text } => JsonData::Obj(
            seq![
                ("type"@, JsonData::Text("agentMessage"@)),
                ("id"@, JsonData::Text(id)),
                ("text"@, JsonData::Text(text)),
            ],
        ),
        ThreadItemView::Reasoning { content, id, summary } => JsonData::Obj(
            seq![
                ("type"@, JsonData::Text("reasoning"@)),
                ("content"@, spec_texts_json(content)),
                ("id"@, JsonData::Text(id)),
                ("summary"@, spec_texts_json(summary)),
            ],
        ),
        ThreadItemView::CommandExecution {
            aggregated_output,
            command,
            command_actions,
            cwd,
            duration_ms,
            exit_code,
            id,
            process_id,
            status,
        } => JsonData::Obj(
            seq![
                ("type"@, JsonData::Text("commandExecution"@)),
                ("aggregatedOutput"@, spec_opt_text_json(aggregated_output)),
                ("command"@, JsonData::Text(command)),
                ("commandActions"@, JsonData::Arr(command_actions)),
                ("cwd"@, JsonData::Text(cwd)),
                ("durationMs"@, spec_opt_i64_json(duration_ms)),
                ("exitCode"@, spec_opt_i32_json(exit_code)),
                ("id"@, JsonData::Text(id)),
                ("processId"@, spec_opt_i64_json(process_id)),
                ("status"@, JsonData::Text(spec_command_status_name(status))),
            ],
        ),
        ThreadItemView::FileChange { changes, id, status } => JsonData::Obj(
            seq![
                ("type"@, JsonData::Text("fileChange"@)),
                ("changes"@, JsonData::Arr(changes.map_values(
                    |c: FileUpdateChangeView| spec_file_change_json(c),
                ))),
                ("id"@, JsonData::Text(id)),
                ("status"@, JsonData::Text(spec_patch_status_name(status))),
            ],
        ),
        ThreadItemView::McpToolCall {
            arguments,
            duration_ms,
            error,
            id,
            result,
            server,
            status,
            tool,
        } => JsonData::Obj(
            seq![
                ("type"@, JsonData::Text("mcpToolCall"@)),
                ("arguments"@, arguments),
                ("durationMs"@, spec_opt_i64_json(duration_ms)),
                ("error"@, spec_opt_mcp_error_json(error)),
                ("id"@, JsonData::Text(id)),
                ("result"@, spec_opt_value_json(result)),
                ("server"@, JsonData::Text(server)),
                ("status"@, JsonData::Text(spec_mcp_status_name(status))),
                ("tool"@, JsonData::Text(tool)),
            ],
        ),
        ThreadItemView::CollabAgentToolCall {
            agents_states,
            id,
            prompt,
            receiver_thread_ids,
            sender_thread_id,
            status,
            tool,
        } => JsonData::Obj(
            seq![
                ("type"@, JsonData::Text("collabAgentToolCall"@)),
                ("agentsStates"@, agents_states),
                ("id"@, JsonData::Text(id)),
                ("prompt"@, spec_opt_text_json(prompt)),
                ("receiverThreadIds"@, spec_texts_json(receiver_thread_ids)),
                ("senderThreadId"@, JsonData::Text(sender_thread_id)),
                ("status"@, JsonData::Text(spec_collab_status_name(status))),
                ("tool"@, JsonData::Text(spec_collab_tool_name(tool))),
            ],
        ),
        ThreadItemView::WebSearch { id, query } => JsonData::Obj(
            seq![
                ("type"@, JsonData::Text("webSearch"@)),
                ("id"@, JsonData::Text(id)),
                ("query"@, JsonData::Text(query)),
            ],
        ),
        ThreadItemView::ImageView { id, path } => JsonData::Obj(
            seq![
                ("type"@, JsonData::Text("imageView"@)),
                ("id"@, JsonData::Text(id)),
                ("path"@, JsonData::Text(path)),
            ],
        ),
        ThreadItemView::EnteredReviewMode { id, review } => JsonData::Obj(
            seq![
                ("type"@, JsonData::Text("enteredReviewMode"@)),
                ("id"@, JsonData::Text(id)),
                ("review"@, JsonData::Text(review)),
            ],
        ),
        ThreadItemView::ExitedReviewMode { id, review } => JsonData::Obj(
            seq![
                ("type"@, JsonData::Text("exitedReviewMode"@)),
                ("id"@, JsonData::Text(id)),
                ("review"@, JsonData::Text(review)),
            ],
        ),
    }
}

pub fn thread_item_json(it: &ThreadItem) -> (r: JsonValue)
    ensures
        r@ == spec_item_json(it.deep_view()),
{
    let mut e: Vec<(String, JsonValue)> = Vec::new();
    match it {
        ThreadItem::UserMessage { content, id } => {
            e.push(("type".to_owned(), JsonValue::Text("userMessage".to_owned())));
            e.push(("content".to_owned(), user_inputs_json(content)));
            e.push(("id".to_owned(), JsonValue::Text(id.clone())));
        },
        ThreadItem::AgentMessage { id, text } => {
            e.push(("type".to_owned(), JsonValue::Text("agentMessage".to_owned())));
            e.push(("id".to_owned(), JsonValue::Text(id.clone())));
            e.push(("text".to_owned(), JsonValue::Text(text.clone())));
        },
        ThreadItem::Reasoning { content, id, summary } => {
            e.push(("type".to_owned(), JsonValue::Text("reasoning".to_owned())));
            e.push(("content".to_owned(), texts_json(content)));
            e.push(("id".to_owned(), JsonValue::Text(id.clone())));
            e.push(("summary".to_owned(), texts_json(summary)));
        },
        ThreadItem::CommandExecution {
            aggregated_output,
            command,
            command_actions,
            cwd,
            duration_ms,
            exit_code,
            id,
            process_id,
            status,
        } => {
            e.push(("type".to_owned(), JsonValue::Text("commandExecution".to_owned())));
            e.push(("aggregatedOutput".to_owned(), opt_text_json(aggregated_output)));
            e.push(("command".to_owned(), JsonValue::Text(command.clone())));
            e.push(("commandActions".to_owned(), values_json(command_actions)));
            e.push(("cwd".to_owned(), JsonValue::Text(cwd.clone())));
            e.push(("durationMs".to_owned(), opt_i64_json(duration_ms)));
            e.push(("exitCode".to_owned(), opt_i32_json(exit_code)));
            e.push(("id".to_owned(), JsonValue::Text(id.clone())));
            e.push(("processId".to_owned(), opt_i64_json(process_id)));
            e.push(("status".to_owned(), JsonValue::Text(command_status_name(status).to_owned())));
        },
        ThreadItem::FileChange { changes, id, status } => {
            e.push(("type".to_owned(), JsonValue::Text("fileChange".to_owned())));
            e.push(("changes".to_owned(), file_changes_json(changes)));
            e.push(("id".to_owned(), JsonValue::Text(id.clone())));
            e.push(("status".to_owned(), JsonValue::Text(patch_status_name(status).to_owned())));
        },
        ThreadItem::McpToolCall {
            arguments,
            duration_ms,
            error,
            id,
            result,
            server,
            status,
            tool,
        } => {
            e.push(("type".to_owned(), JsonValue::Text("mcpToolCall".to_owned())));
            e.push(("arguments".to_owned(), json_clone(arguments)));
            e.push(("durationMs".to_owned(), opt_i64_json(duration_ms)));
            e.push(("error".to_owned(), opt_mcp_error_json(error)));
            e.push(("id".to_owned(), JsonValue::Text(id.clone())));
            e.push(("result".to_owned(), opt_value_json(result)));
            e.push(("server".to_owned(), JsonValue::Text(server.clone())));
            e.push(("status".to_owned(), JsonValue::Text(mcp_status_name(status).to_owned())));
            e.push(("tool".to_owned(), JsonValue::Text(tool.clone())));
        },
        ThreadItem::CollabAgentToolCall {
            agents_states,
            id,
            prompt,
            receiver_thread_ids,
            sender_thread_id,
            status,
            tool,
        } => {
            e.push(("type".to_owned(), JsonValue::Text("collabAgentToolCall".to_owned())));
            e.push(("agentsStates".to_owned(), json_clone(agents_states)));
            e.push(("id".to_owned(), JsonValue::Text(id.clone())));
            e.push(("prompt".to_owned(), opt_text_json(prompt)));
            e.push(("receiverThreadIds".to_owned(), texts_json(receiver_thread_ids)));
            e.push(("senderThreadId".to_owned(), JsonValue::Text(sender_thread_id.clone())));
            e.push(("status".to_owned(), JsonValue::Text(collab_status_name(status).to_owned())));
            e.push(("tool".to_owned(), JsonValue::Text(collab_tool_name(tool).to_owned())));
        },
        ThreadItem::WebSearch { id, query } => {
            e.push(("type".to_owned(), JsonValue::Text("webSearch".to_owned())));
            e.push(("id".to_owned(), JsonValue::Text(id.clone())));
            e.push(("query".to_owned(), JsonValue::Text(query.clone())));
        },
        ThreadItem::ImageView { id, path } => {
            e.push(("type".to_owned(), JsonValue::Text("imageView".to_owned())));
            e.push(("id".to_owned(), JsonValue::Text(id.clone())));
            e.push(("path".to_owned(), JsonValue::Text(path.clone())));
        },
        ThreadItem::EnteredReviewMode { id, review } => {
            e.push(("type".to_owned(), JsonValue::Text("enteredReviewMode".to_owned())));
            e.push(("id".to_owned(), JsonValue::Text(id.clone())));
            e.push(("review".to_owned(), JsonValue::Text(review.clone())));
        },
        ThreadItem::ExitedReviewMode { id, review } => {
            e.push(("type".to_owned(), JsonValue::Text("exitedReviewMode".to_owned())));
            e.push(("id".to_owned(), JsonValue::Text(id.clone())));
            e.push(("review".to_owned(), JsonValue::Text(review.clone())));
        },
    }
    proof {
        assert(json_data_entries(e@) =~= spec_item_json(it.deep_view())->Obj_0);
    }
    JsonValue::Obj(e)
}

pub fn thread_items_json(v: &Vec<ThreadItem>) -> (r: JsonValue)
    ensures
        r@ == JsonData::Arr(v.deep_view().map_values(|it: ThreadItemView| spec_item_json(it))),
{
    let mut out: Vec<JsonValue> = Vec::new();
    let mut i: usize = 0;
    while i < v.len()
        invariant
            i <= v.len(),
            out@.len() == i as int,
            forall|j: int| 0 <= j < i ==> out@[j]@ == spec_item_json(v@[j].deep_view()),
        decreases v.len() - i,
    {
        out.push(thread_item_json(&v[i]));
        i = i + 1;
    }
    proof {
        assert(json_data_seq(out@) =~= v.deep_view().map_values(
            |it: ThreadItemView| spec_item_json(it),
        ));
    }
    JsonValue::Arr(out)
}

} // verus!

verus! {

// ---------------------------------------------------------------------------
// notification payloads

/// A thread object.
pub open spec fn spec_thread_json(t: ThreadView) -> JsonData {
    JsonData::Obj(seq![("id"@, JsonData::Text(t.id))])
}

pub fn thread_json(t: &Thread) -> (r: JsonValue)
    ensures
        r@ == spec_thread_json(t.deep_view()),
{
    let mut e: Vec<(String, JsonValue)> = Vec::new();
    e.push(("id".to_owned(), JsonValue::Text(t.id.clone())));
    proof {
        assert(json_data_entries(e@) =~= spec_thread_json(t.deep_view())->Obj_0);
    }
    JsonValue::Obj(e)
}

/// A turn object, items included.
pub open spec fn spec_turn_json(t: TurnView) -> JsonData {
    JsonData::Obj(
        seq![
            ("id"@, JsonData::Text(t.id)),
            ("items"@, JsonData::Arr(t.items.map_values(|it: ThreadItemView| spec_item_json(it)))),
        ],
    )
}

pub fn turn_json(t: &Turn) -> (r: JsonValue)
    ensures
        r@ == spec_turn_json(t.deep_view()),
{
    let mut e: Vec<(String, JsonValue)> = Vec::new();
    e.push(("id".to_owned(), JsonValue::Text(t.id.clone())));
    e.push(("items".to_owned(), thread_items_json(&t.items)));
    proof {
        assert(json_data_entries(e@) =~= spec_turn_json(t.deep_view())->Obj_0);
    }
    JsonValue::Obj(e)
}

/// The error payload of an error notification.
pub open spec fn spec_turn_error_json(e: TurnErrorView) -> JsonData {
    JsonData::Obj(
        seq![
            ("message"@, JsonData::Text(e.message)),
            ("additionalDetails"@, spec_opt_text_json(e.additional_details)),
            ("codexErrorInfo"@, spec_opt_value_json(e.codex_error_info)),
        ],
    )
}

pub fn turn_error_json(err: &TurnError) -> (r: JsonValue)
    ensures
        r@ == spec_turn_error_json(err.deep_view()),
{
    let mut e: Vec<(String, JsonValue)> = Vec::new();
    e.push(("message".to_owned(), JsonValue::Text(err.message.clone())));
    e.push(("additionalDetails".to_owned(), opt_text_json(&err.additional_details)));
    e.push(("codexErrorInfo".to_owned(), opt_value_json(&err.codex_error_info)));
    proof {
        assert(json_data_entries(e@) =~= spec_turn_error_json(err.deep_view())->Obj_0);
    }
    JsonValue::Obj(e)
}

pub open spec fn spec_thread_started_params(p: ThreadStartedNotificationView) -> JsonData {
    JsonData::Obj(seq![("thread"@, spec_thread_json(p.thread))])
}

pub fn thread_started_params(p: &ThreadStartedNotification) -> (r: JsonValue)
    ensures
        r@ == spec_thread_started_params(p.deep_view()),
{
    let mut e: Vec<(String, JsonValue)> = Vec::new();
    e.push(("thread".to_owned(), thread_json(&p.thread)));
    proof {
        assert(json_data_entries(e@) =~= spec_thread_started_params(p.deep_view())->Obj_0);
    }
    JsonValue::Obj(e)
}

pub open spec fn spec_turn_params(thread_id: Seq<char>, turn: TurnView) -> JsonData {
    JsonData::Obj(
        seq![
            ("threadId"@, JsonData::Text(thread_id)),
            ("turn"@, spec_turn_json(turn)),
        ],
    )
}

pub fn turn_params(thread_id: &String, turn: &Turn) -> (r: JsonValue)
    ensures
        r@ == spec_turn_params(thread_id@, turn.deep_view()),
{
    let mut e: Vec<(String, JsonValue)> = Vec::new();
    e.push(("threadId".to_owned(), JsonValue::Text(thread_id.clone())));
    e.push(("turn".to_owned(), turn_json(turn)));
    proof {
        assert(json_data_entries(e@) =~= spec_turn_params(thread_id@, turn.deep_view())->Obj_0);
    }
    JsonValue::Obj(e)
}

pub open spec fn spec_item_params(
    item: ThreadItemView,
    thread_id: Seq<char>,
    turn_id: Seq<char>,
) -> JsonData {
    JsonData::Obj(
        seq![
            ("item"@, spec_item_json(item)),
            ("threadId"@, JsonData::Text(thread_id)),
            ("turnId"@, JsonData::Text(turn_id)),
        ],
    )
}

pub fn item_params(item: &ThreadItem, thread_id: &String, turn_id: &String) -> (r: JsonValue)
    ensures
        r@ == spec_item_params(item.deep_view(), thread_id@, turn_id@),
{
    let mut e: Vec<(String, JsonValue)> = Vec::new();
    e.push(("item".to_owned(), thread_item_json(item)));
    e.push(("threadId".to_owned(), JsonValue::Text(thread_id.clone())));
    e.push(("turnId".to_owned(), JsonValue::Text(turn_id.clone())));
    proof {
        assert(json_data_entries(e@) =~= spec_item_params(
            item.deep_view(),
            thread_id@,
            turn_id@,
        )->Obj_0);
    }
    JsonValue::Obj(e)
}

pub open spec fn spec_delta_params(p: ItemDeltaNotificationView) -> JsonData {
    JsonData::Obj(
        seq![
            ("delta"@, JsonData::Text(p.delta)),
            ("itemId"@, JsonData::Text(p.item_id)),
            ("threadId"@, JsonData::Text(p.thread_id)),
            ("turnId"@, JsonData::Text(p.turn_id)),
        ],
    )
}

pub fn delta_params(p: &ItemDeltaNotification) -> (r: JsonValue)
    ensures
        r@ == spec_delta_params(p.deep_view()),
{
    let mut e: Vec<(String, JsonValue)> = Vec::new();
    e.push(("delta".to_owned(), JsonValue::Text(p.delta.clone())));
    e.push(("itemId".to_owned(), JsonValue::Text(p.item_id.clone())));
    e.push(("threadId".to_owned(), JsonValue::Text(p.thread_id.clone())));
    e.push(("turnId".to_owned(), JsonValue::Text(p.turn_id.clone())));
    proof {
        assert(json_data_entries(e@) =~= spec_delta_params(p.deep_view())->Obj_0);
    }
    JsonValue::Obj(e)
}

pub open spec fn spec_error_params(p: ErrorNotificationView) -> JsonData {
    JsonData::Obj(
        seq![
            ("error"@, spec_turn_error_json(p.error)),
            ("threadId"@, JsonData::Text(p.thread_id)),
            ("turnId"@, JsonData::Text(p.turn_id)),
            ("willRetry"@, JsonData::Bool(p.will_retry)),
        ],
    )
}

pub fn error_params(p: &ErrorNotification) -> (r: JsonValue)
    ensures
        r@ == spec_error_params(p.deep_view()),
{
    let mut e: Vec<(String, JsonValue)> = Vec::new();
    e.push(("error".to_owned(), turn_error_json(&p.error)));
    e.push(("threadId".to_owned(), JsonValue::Text(p.thread_id.clone())));
    e.push(("turnId".to_owned(), JsonValue::Text(p.turn_id.clone())));
    e.push(("willRetry".to_owned(), JsonValue::Bool(p.will_retry)));
    proof {
        assert(json_data_entries(e@) =~= spec_error_params(p.deep_view())->Obj_0);
    }
    JsonValue::Obj(e)
}

pub open spec fn spec_aux_params(p: ThreadAuxNotificationView) -> JsonData {
    JsonData::Obj(
        seq![
            ("threadId"@, JsonData::Text(p.thread_id)),
            ("payload"@, p.payload),
        ],
    )
}

pub fn aux_params(p: &ThreadAuxNotification) -> (r: JsonValue)
    ensures
        r@ == spec_aux_params(p.deep_view()),
{
    let mut e: Vec<(String, JsonValue)> = Vec::new();
    e.push(("threadId".to_owned(), JsonValue::Text(p.thread_id.clone())));
    e.push(("payload".to_owned(), json_clone(&p.payload)));
    proof {
        assert(json_data_entries(e@) =~= spec_aux_params(p.deep_view())->Obj_0);
    }
    JsonValue::Obj(e)
}

// ---------------------------------------------------------------------------
// the notification envelope

/// The wire method tag of a notification.
pub open spec fn spec_method_tag(n: ServerNotificationView) -> Seq<char> {
    match n {
        ServerNotificationView::ThreadStarted(_) => "thread/started"@,
        ServerNotificationView::TurnStarted(_) => "turn/started"@,
        ServerNotificationView::TurnCompleted(_) => "turn/completed"@,
        ServerNotificationView::ItemStarted(_) => "item/started"@,
        ServerNotificationView::ItemCompleted(_) => "item/completed"@,
        ServerNotificationView::ItemAgentMessageDelta(_) => "item/agentMessageDelta"@,
        ServerNotificationView::ItemReasoningTextDelta(_) => "item/reasoningTextDelta"@,
        ServerNotificationView::ItemReasoningSummaryTextDelta(_)
            => "item/reasoningSummaryTextDelta"@,
        ServerNotificationView::ItemCommandExecutionOutputDelta(_)
            => "item/commandExecutionOutputDelta"@,
        ServerNotificationView::ItemFileChangeOutputDelta(_) => "item/fileChangeOutputDelta"@,
        ServerNotificationView::Error(_) => "error"@,
        ServerNotificationView::ThreadTokenUsageUpdated(_) => "thread/tokenUsageUpdated"@,
        ServerNotificationView::TurnDiffUpdated(_) => "turn/diffUpdated"@,
        ServerNotificationView::TurnPlanUpdated(_) => "turn/planUpdated"@,
        ServerNotificationView::ItemCommandExecutionTerminalInteraction(_)
            => "item/commandExecutionTerminalInteraction"@,
        ServerNotificationView::ItemMcpToolCallProgress(_) => "item/mcpToolCallProgress"@,
        ServerNotificationView::ItemReasoningSummaryPartAdded(_)
            => "item/reasoningSummaryPartAdded"@,
        ServerNotificationView::ThreadCompacted(_) => "thread/compacted"@,
        ServerNotificationView::AccountUpdated(_) => "account/updated"@,
        ServerNotificationView::AccountRateLimitsUpdated(_) => "account/rateLimitsUpdated"@,
        ServerNotificationView::AccountLoginCompleted(_) => "account/loginCompleted"@,
        ServerNotificationView::McpServerOauthLoginCompleted(_)
            => "mcpServer/oauthLoginCompleted"@,
        ServerNotificationView::AuthStatusChange(_) => "authStatusChange"@,
        ServerNotificationView::LoginChatGptComplete(_) => "loginChatGptComplete"@,
        ServerNotificationView::SessionConfigured(_) => "sessionConfigured"@,
        ServerNotificationView::DeprecationNotice(_) => "deprecationNotice"@,
        ServerNotificationView::ConfigWarning(_) => "configWarning"@,
        ServerNotificationView::WindowsWorldWritableWarning(_)
            => "windowsWorldWritableWarning"@,
        ServerNotificationView::RawResponseItemCompleted(_) => "rawResponseItemCompleted"@,
    }
}

/// The wire params of a notification.
pub open spec fn spec_params_json(n: ServerNotificationView) -> JsonData {
    match n {
        ServerNotificationView::ThreadStarted(p) => spec_thread_started_params(p),
        ServerNotificationView::TurnStarted(p) => spec_turn_params(p.thread_id, p.turn),
        ServerNotificationView::TurnCompleted(p) => spec_turn_params(p.thread_id, p.turn),
        ServerNotificationView::ItemStarted(p) => spec_item_params(
            p.item,
            p.thread_id,
            p.turn_id,
        ),
        ServerNotificationView::ItemCompleted(p) => spec_item_params(
            p.item,
            p.thread_id,
            p.turn_id,
        ),
        ServerNotificationView::ItemAgentMessageDelta(p) => spec_delta_params(p),
        ServerNotificationView::ItemReasoningTextDelta(p) => spec_delta_params(p),
        ServerNotificationView::ItemReasoningSummaryTextDelta(p) => spec_delta_params(p),
        ServerNotificationView::ItemCommandExecutionOutputDelta(p) => spec_delta_params(p),
        ServerNotificationView::ItemFileChangeOutputDelta(p) => spec_delta_params(p),
        ServerNotificationView::Error(p) => spec_error_params(p),
        ServerNotificationView::ThreadTokenUsageUpdated(p) => spec_aux_params(p),
        ServerNotificationView::TurnDiffUpdated(p) => spec_aux_params(p),
        ServerNotificationView::TurnPlanUpdated(p) => spec_aux_params(p),
        ServerNotificationView::ItemCommandExecutionTerminalInteraction(p) => spec_aux_params(p),
        ServerNotificationView::ItemMcpToolCallProgress(p) => spec_aux_params(p),
        ServerNotificationView::ItemReasoningSummaryPartAdded(p) => spec_aux_params(p),
        ServerNotificationView::ThreadCompacted(p) => spec_aux_params(p),
        ServerNotificationView::AccountUpdated(p) => p,
        ServerNotificationView::AccountRateLimitsUpdated(p) => p,
        ServerNotificationView::AccountLoginCompleted(p) => p,
        ServerNotificationView::McpServerOauthLoginCompleted(p) => p,
        ServerNotificationView::AuthStatusChange(p) => p,
        ServerNotificationView::LoginChatGptComplete(p) => p,
        ServerNotificationView::SessionConfigured(p) => p,
        ServerNotificationView::DeprecationNotice(p) => p,
        ServerNotificationView::ConfigWarning(p) => p,
        ServerNotificationView::WindowsWorldWritableWarning(p) => p,
        ServerNotificationView::RawResponseItemCompleted(p) => p,
    }
}

/// The canonical wire encoding of a notification.
pub open spec fn spec_notification_json(n: ServerNotificationView) -> JsonData {
    spec_envelope_json(spec_method_tag(n), spec_params_json(n))
}

/// Serialize a notification verbatim into its canonical wire encoding.
pub fn notification_to_json(n: &ServerNotification) -> (r: JsonValue)
    ensures
        r@ == spec_notification_json(n.deep_view()),
{
    match n {
        ServerNotification::ThreadStarted(p) => envelope_json(
            "thread/started",
            thread_started_params(p),
        ),
        ServerNotification::TurnStarted(p) => envelope_json(
            "turn/started",
            turn_params(&p.thread_id, &p.turn),
        ),
        ServerNotification::TurnCompleted(p) => envelope_json(
            "turn/completed",
            turn_params(&p.thread_id, &p.turn),
        ),
        ServerNotification::ItemStarted(p) => envelope_json(
            "item/started",
            item_params(&p.item, &p.thread_id, &p.turn_id),
        ),
        ServerNotification::ItemCompleted(p) => envelope_json(
            "item/completed",
            item_params(&p.item, &p.thread_id, &p.turn_id),
        ),
        ServerNotification::ItemAgentMessageDelta(p) => envelope_json(
            "item/agentMessageDelta",
            delta_params(p),
        ),
        ServerNotification::ItemReasoningTextDelta(p) => envelope_json(
            "item/reasoningTextDelta",
            delta_params(p),
        ),
        ServerNotification::ItemReasoningSummaryTextDelta(p) => envelope_json(
            "item/reasoningSummaryTextDelta",
            delta_params(p),
        ),
        ServerNotification::ItemCommandExecutionOutputDelta(p) => envelope_json(
            "item/commandExecutionOutputDelta",
            delta_params(p),
        ),
        ServerNotification::ItemFileChangeOutputDelta(p) => envelope_json(
            "item/fileChangeOutputDelta",
            delta_params(p),
        ),
        ServerNotification::Error(p) => envelope_json("error", error_params(p)),
        ServerNotification::ThreadTokenUsageUpdated(p) => envelope_json(
            "thread/tokenUsageUpdated",
            aux_params(p),
        ),
        ServerNotification::TurnDiffUpdated(p) => envelope_json(
            "turn/diffUpdated",
            aux_params(p),
        ),
        ServerNotification::TurnPlanUpdated(p) => envelope_json(
            "turn/planUpdated",
            aux_params(p),
        ),
        ServerNotification::ItemCommandExecutionTerminalInteraction(p) => envelope_json(
            "item/commandExecutionTerminalInteraction",
            aux_params(p),
        ),
        ServerNotification::ItemMcpToolCallProgress(p) => envelope_json(
            "item/mcpToolCallProgress",
            aux_params(p),
        ),
        ServerNotification::ItemReasoningSummaryPartAdded(p) => envelope_json(
            "item/reasoningSummaryPartAdded",
            aux_params(p),
        ),
        ServerNotification::ThreadCompacted(p) => envelope_json(
            "thread/compacted",
            aux_params(p),
        ),
        ServerNotification::AccountUpdated(p) => envelope_json("account/updated", json_clone(p)),
        ServerNotification::AccountRateLimitsUpdated(p) => envelope_json(
            "account/rateLimitsUpdated",
            json_clone(p),
        ),
        ServerNotification::AccountLoginCompleted(p) => envelope_json(
            "account/loginCompleted",
            json_clone(p),
        ),
        ServerNotification::McpServerOauthLoginCompleted(p) => envelope_json(
            "mcpServer/oauthLoginCompleted",
            json_clone(p),
        ),
        ServerNotification::AuthStatusChange(p) => envelope_json(
            "authStatusChange",
            json_clone(p),
        ),
        ServerNotification::LoginChatGptComplete(p) => envelope_json(
            "loginChatGptComplete",
            json_clone(p),
        ),
        ServerNotification::SessionConfigured(p) => envelope_json(
            "sessionConfigured",
            json_clone(p),
        ),
        ServerNotification::DeprecationNotice(p) => envelope_json(
            "deprecationNotice",
            json_clone(p),
        ),
        ServerNotification::ConfigWarning(p) => envelope_json("configWarning", json_clone(p)),
        ServerNotification::WindowsWorldWritableWarning(p) => envelope_json(
            "windowsWorldWritableWarning",
            json_clone(p),
        ),
        ServerNotification::RawResponseItemCompleted(p) => envelope_json(
            "rawResponseItemCompleted",
            json_clone(p),
        ),
    }
}

} // verus!

verus! {

// ---------------------------------------------------------------------------
// well-formedness of notifications on the wire
//
// An absent optional JSON payload encodes as null, so a payload that is
// present must not itself be null — otherwise the encoding could not be read
// back. Every other field round-trips unconditionally.

/// A thread item whose optional tool-call result, when present, is not null.
pub open spec fn spec_item_wf(it: ThreadItemView) -> bool {
    match it {
        ThreadItemView::McpToolCall { result, .. } => result != Some(JsonData::Null),
        _ => true,
    }
}

/// Every item of the sequence is well formed.
pub open spec fn spec_items_wf(items: Seq<ThreadItemView>) -> bool {
    forall|i: int| 0 <= i < items.len() ==> spec_item_wf(#[trigger] items[i])
}

/// A notification whose optional JSON payloads, when present, are not null.
pub open spec fn spec_notification_wf(n: ServerNotificationView) -> bool {
    match n {
        ServerNotificationView::TurnStarted(p) => spec_items_wf(p.turn.items),
        ServerNotificationView::TurnCompleted(p) => spec_items_wf(p.turn.items),
        ServerNotificationView::ItemStarted(p) => spec_item_wf(p.item),
        ServerNotificationView::ItemCompleted(p) => spec_item_wf(p.item),
        ServerNotificationView::Error(p) => p.error.codex_error_info != Some(JsonData::Null),
        _ => true,
    }
}

// ---------------------------------------------------------------------------
// reading the wire encoding back, ghost side
//
// The reader is strict: it accepts exactly the canonical encoding that
// `spec_notification_json` produces, with keys in their canonical order.

pub open spec fn spec_parse_text(j: JsonData) -> Option<Seq<char>> {
    match j {
        JsonData::Text(s) => Some(s),
        _ => None,
    }
}

pub open spec fn spec_parse_opt_text(j: JsonData) -> Option<Option<Seq<char>>> {
    match j {
        JsonData::Null => Some(None),
        JsonData::Text(s) => Some(Some(s)),
        _ => None,
    }
}

pub open spec fn spec_parse_opt_i64(j: JsonData) -> Option<Option<i64>> {
    match j {
        JsonData::Null => Some(None),
        JsonData::Int(x) => if i64::MIN <= x <= i64::MAX {
            Some(Some(x as i64))
        } else {
            None
        },
        _ => None,
    }
}

pub open spec fn spec_parse_opt_i32(j: JsonData) -> Option<Option<i32>> {
    match j {
        JsonData::Null => Some(None),
        JsonData::Int(x) => if i32::MIN <= x <= i32::MAX {
            Some(Some(x as i32))
        } else {
            None
        },
        _ => None,
    }
}

/// A present payload was encoded as itself, an absent one as null.
pub open spec fn spec_parse_opt_value(j: JsonData) -> Option<JsonData> {
    match j {
        JsonData::Null => None,
        _ => Some(j),
    }
}

pub open spec fn spec_parse_texts_seq(items: Seq<JsonData>) -> Option<Seq<Seq<char>>>
    decreases items.len(),
{
    if items.len() == 0 {
        Some(Seq::empty())
    } else {
        match spec_parse_texts_seq(items.drop_last()) {
            Some(rest) => match items.last() {
                JsonData::Text(s) => Some(rest.push(s)),
                _ => None,
            },
            None => None,
        }
    }
}

pub open spec fn spec_parse_texts(j: JsonData) -> Option<Seq<Seq<char>>> {
    match j {
        JsonData::Arr(items) => spec_parse_texts_seq(items),
        _ => None,
    }
}

pub open spec fn spec_parse_command_status(s: Seq<char>) -> Option<CommandExecutionStatus> {
    if s == "InProgress"@ {
        Some(CommandExecutionStatus::InProgress)
    } else if s == "Completed"@ {
        Some(CommandExecutionStatus::Completed)
    } else if s == "Failed"@ {
        Some(CommandExecutionStatus::Failed)
    } else {
        None
    }
}

pub open spec fn spec_parse_patch_status(s: Seq<char>) -> Option<PatchApplyStatus> {
    if s == "InProgress"@ {
        Some(PatchApplyStatus::InProgress)
    } else if s == "Completed"@ {
        Some(PatchApplyStatus::Completed)
    } else if s == "Failed"@ {
        Some(PatchApplyStatus::Failed)
    } else {
        None
    }
}

pub open spec fn spec_parse_mcp_status(s: Seq<char>) -> Option<McpToolCallStatus> {
    if s == "InProgress"@ {
        Some(McpToolCallStatus::InProgress)
    } else if s == "Completed"@ {
        Some(McpToolCallStatus::Completed)
    } else if s == "Failed"@ {
        Some(McpToolCallStatus::Failed)
    } else {
        None
    }
}

pub open spec fn spec_parse_collab_status(s: Seq<char>) -> Option<CollabAgentToolCallStatus> {
    if s == "InProgress"@ {
        Some(CollabAgentToolCallStatus::InProgress)
    } else if s == "Completed"@ {
        Some(CollabAgentToolCallStatus::Completed)
    } else if s == "Failed"@ {
        Some(CollabAgentToolCallStatus::Failed)
    } else {
        None
    }
}

pub open spec fn spec_parse_collab_tool(s: Seq<char>) -> Option<CollabAgentTool> {
    if s == "SpawnAgent"@ {
        Some(CollabAgentTool::SpawnAgent)
    } else if s == "SendMessage"@ {
        Some(CollabAgentTool::SendMessage)
    } else if s == "Wait"@ {
        Some(CollabAgentTool::Wait)
    } else if s == "CloseAgent"@ {
        Some(CollabAgentTool::CloseAgent)
    } else {
        None
    }
}

/// One entry of an object, when it carries the expected key.
pub open spec fn spec_entry_at(
    es: Seq<(Seq<char>, JsonData)>,
    i: int,
    key: Seq<char>,
) -> Option<JsonData> {
    if 0 <= i < es.len() && es[i].0 == key {
        Some(es[i].1)
    } else {
        None
    }
}

pub open spec fn spec_parse_user_input(j: JsonData) -> Option<UserInputView> {
    match j {
        JsonData::Obj(es) => {
            match spec_entry_at(es, 0, "type"@) {
                Some(JsonData::Text(tag)) => {
                    if tag == "text"@ {
                        if es.len() == 3 && es[1].0 == "text"@ && es[2].0 == "textElements"@ {
                            match (spec_parse_text(es[1].1), spec_parse_texts(es[2].1)) {
                                (Some(text), Some(text_elements)) => Some(
                                    UserInputView::Text { text, text_elements },
                                ),
                                _ => None,
                            }
                        } else {
                            None
                        }
                    } else if tag == "image"@ {
                        if es.len() == 2 && es[1].0 == "imageUrl"@ {
                            match spec_parse_text(es[1].1) {
                                Some(image_url) => Some(UserInputView::Image { image_url }),
                                _ => None,
                            }
                        } else {
                            None
                        }
                    } else if tag == "localImage"@ {
                        if es.len() == 2 && es[1].0 == "path"@ {
                            match spec_parse_text(es[1].1) {
                                Some(path) => Some(UserInputView::LocalImage { path }),
                                _ => None,
                            }
                        } else {
                            None
                        }
                    } else if tag == "skill"@ {
                        if es.len() == 3 && es[1].0 == "name"@ && es[2].0 == "path"@ {
                            match (spec_parse_text(es[1].1), spec_parse_text(es[2].1)) {
                                (Some(name), Some(path)) => Some(
                                    UserInputView::Skill { name, path },
                                ),
                                _ => None,
                            }
                        } else {
                            None
                        }
                    } else {
                        None
                    }
                },
                _ => None,
            }
        },
        _ => None,
    }
}

pub open spec fn spec_parse_user_inputs_seq(items: Seq<JsonData>) -> Option<Seq<UserInputView>>
    decreases items.len(),
{
    if items.len() == 0 {
        Some(Seq::empty())
    } else {
        match (spec_parse_user_inputs_seq(items.drop_last()), spec_parse_user_input(
            items.last(),
        )) {
            (Some(rest), Some(u)) => Some(rest.push(u)),
            _ => None,
        }
    }
}

pub open spec fn spec_parse_file_change(j: JsonData) -> Option<FileUpdateChangeView> {
    match j {
        JsonData::Obj(es) => {
            if es.len() == 3 && es[0].0 == "path"@ && es[1].0 == "kind"@ && es[2].0 == "diff"@ {
                match (spec_parse_text(es[0].1), spec_parse_text(es[1].1), spec_parse_text(
                    es[2].1,
                )) {
                    (Some(path), Some(kind), Some(diff)) => Some(
                        FileUpdateChangeView { path, kind, diff },
                    ),
                    _ => None,
                }
            } else {
                None
            }
        },
        _ => None,
    }
}

pub open spec fn spec_parse_file_changes_seq(items: Seq<JsonData>) -> Option<
    Seq<FileUpdateChangeView>,
>
    decreases items.len(),
{
    if items.len() == 0 {
        Some(Seq::empty())
    } else {
        match (spec_parse_file_changes_seq(items.drop_last()), spec_parse_file_change(
            items.last(),
        )) {
            (Some(rest), Some(c)) => Some(rest.push(c)),
            _ => None,
        }
    }
}

pub open spec fn spec_parse_mcp_error(j: JsonData) -> Option<McpToolCallErrorView> {
    match j {
        JsonData::Obj(es) => {
            if es.len() == 1 && es[0].0 == "message"@ {
                match spec_parse_text(es[0].1) {
                    Some(message) => Some(McpToolCallErrorView { message }),
                    _ => None,
                }
            } else {
                None
            }
        },
        _ => None,
    }
}

pub open spec fn spec_parse_opt_mcp_error(j: JsonData) -> Option<Option<McpToolCallErrorView>> {
    match j {
        JsonData::Null => Some(None),
        _ => match spec_parse_mcp_error(j) {
            Some(e) => Some(Some(e)),
            None => None,
        },
    }
}

} // verus!

verus! {

pub open spec fn spec_parse_item(j: JsonData) -> Option<ThreadItemView> {
    match j {
        JsonData::Obj(es) => {
            match spec_entry_at(es, 0, "type"@) {
                Some(JsonData::Text(tag)) => {
                    if tag == "userMessage"@ {
                        spec_parse_user_message_item(es)
                    } else if tag == "agentMessage"@ {
                        spec_parse_agent_message_item(es)
                    } else if tag == "reasoning"@ {
                        spec_parse_reasoning_item(es)
                    } else if tag == "commandExecution"@ {
                        spec_parse_command_execution_item(es)
                    } else if tag == "fileChange"@ {
                        spec_parse_file_change_item(es)
                    } else if tag == "mcpToolCall"@ {
                        spec_parse_mcp_tool_call_item(es)
                    } else if tag == "collabAgentToolCall"@ {
                        spec_parse_collab_item(es)
                    } else if tag == "webSearch"@ {
                        spec_parse_web_search_item(es)
                    } else if tag == "imageView"@ {
                        spec_parse_image_view_item(es)
                    } else if tag == "enteredReviewMode"@ {
                        spec_parse_review_item(es, true)
                    } else if tag == "exitedReviewMode"@ {
                        spec_parse_review_item(es, false)
                    } else {
                        None
                    }
                },
                _ => None,
            }
        },
        _ => None,
    }
}

pub open spec fn spec_parse_user_message_item(es: Seq<(Seq<char>, JsonData)>) -> Option<
    ThreadItemView,
> {
    if es.len() == 3 && es[1].0 == "content"@ && es[2].0 == "id"@ {
        match (es[1].1, spec_parse_text(es[2].1)) {
            (JsonData::Arr(inputs), Some(id)) => match spec_parse_user_inputs_seq(inputs) {
                Some(content) => Some(ThreadItemView::UserMessage { content, id }),
                None => None,
            },
            _ => None,
        }
    } else {
        None
    }
}

pub open spec fn spec_parse_agent_message_item(es: Seq<(Seq<char>, JsonData)>) -> Option<
    ThreadItemView,
> {
    if es.len() == 3 && es[1].0 == "id"@ && es[2].0 == "text"@ {
        match (spec_parse_text(es[1].1), spec_parse_text(es[2].1)) {
            (Some(id), Some(text)) => Some(ThreadItemView::AgentMessage { id, text }),
            _ => None,
        }
    } else {
        None
    }
}

pub open spec fn spec_parse_reasoning_item(es: Seq<(Seq<char>, JsonData)>) -> Option<
    ThreadItemView,
> {
    if es.len() == 4 && es[1].0 == "content"@ && es[2].0 == "id"@ && es[3].0 == "summary"@ {
        match (spec_parse_texts(es[1].1), spec_parse_text(es[2].1), spec_parse_texts(es[3].1)) {
            (Some(content), Some(id), Some(summary)) => Some(
                ThreadItemView::Reasoning { content, id, summary },
            ),
            _ => None,
        }
    } else {
        None
    }
}

pub open spec fn spec_parse_command_execution_item(es: Seq<(Seq<char>, JsonData)>) -> Option<
    ThreadItemView,
> {
    if es.len() == 10 && es[1].0 == "aggregatedOutput"@ && es[2].0 == "command"@ && es[3].0
        == "commandActions"@ && es[4].0 == "cwd"@ && es[5].0 == "durationMs"@ && es[6].0
        == "exitCode"@ && es[7].0 == "id"@ && es[8].0 == "processId"@ && es[9].0 == "status"@ {
        match (
            spec_parse_opt_text(es[1].1),
            spec_parse_text(es[2].1),
            es[3].1,
            spec_parse_text(es[4].1),
            spec_parse_opt_i64(es[5].1),
            spec_parse_opt_i32(es[6].1),
            spec_parse_text(es[7].1),
            spec_parse_opt_i64(es[8].1),
            spec_parse_text(es[9].1),
        ) {
            (
                Some(aggregated_output),
                Some(command),
                JsonData::Arr(command_actions),
                Some(cwd),
                Some(duration_ms),
                Some(exit_code),
                Some(id),
                Some(process_id),
                Some(status_name),
            ) => match spec_parse_command_status(status_name) {
                Some(status) => Some(
                    ThreadItemView::CommandExecution {
                        aggregated_output,
                        command,
                        command_actions,
                        cwd,
                        duration_ms,
                        exit_code,
                        id,
                        process_id,
                        status,
                    },
                ),
                None => None,
            },
            _ => None,
        }
    } else {
        None
    }
}

pub open spec fn spec_parse_file_change_item(es: Seq<(Seq<char>, JsonData)>) -> Option<
    ThreadItemView,
> {
    if es.len() == 4 && es[1].0 == "changes"@ && es[2].0 == "id"@ && es[3].0 == "status"@ {
        match (es[1].1, spec_parse_text(es[2].1), spec_parse_text(es[3].1)) {
            (JsonData::Arr(changes), Some(id), Some(status_name)) => match (
                spec_parse_file_changes_seq(changes),
                spec_parse_patch_status(status_name),
            ) {
                (Some(changes), Some(status)) => Some(
                    ThreadItemView::FileChange { changes, id, status },
                ),
                _ => None,
            },
            _ => None,
        }
    } else {
        None
    }
}

pub open spec fn spec_parse_mcp_tool_call_item(es: Seq<(Seq<char>, JsonData)>) -> Option<
    ThreadItemView,
> {
    if es.len() == 9 && es[1].0 == "arguments"@ && es[2].0 == "durationMs"@ && es[3].0 == "error"@
        && es[4].0 == "id"@ && es[5].0 == "result"@ && es[6].0 == "server"@ && es[7].0 == "status"@
        && es[8].0 == "tool"@ {
        match (
            spec_parse_opt_i64(es[2].1),
            spec_parse_opt_mcp_error(es[3].1),
            spec_parse_text(es[4].1),
            spec_parse_text(es[6].1),
            spec_parse_text(es[7].1),
            spec_parse_text(es[8].1),
        ) {
            (Some(duration_ms), Some(error), Some(id), Some(server), Some(status_name), Some(
                tool,
            )) => match spec_parse_mcp_status(status_name) {
                Some(status) => Some(
                    ThreadItemView::McpToolCall {
                        arguments: es[1].1,
                        duration_ms,
                        error,
                        id,
                        result: spec_parse_opt_value(es[5].1),
                        server,
                        status,
                        tool,
                    },
                ),
                None => None,
            },
            _ => None,
        }
    } else {
        None
    }
}

pub open spec fn spec_parse_collab_item(es: Seq<(Seq<char>, JsonData)>) -> Option<ThreadItemView> {
    if es.len() == 8 && es[1].0 == "agentsStates"@ && es[2].0 == "id"@ && es[3].0 == "prompt"@
        && es[4].0 == "receiverThreadIds"@ && es[5].0 == "senderThreadId"@ && es[6].0 == "status"@
        && es[7].0 == "tool"@ {
        match (
            spec_parse_text(es[2].1),
            spec_parse_opt_text(es[3].1),
            spec_parse_texts(es[4].1),
            spec_parse_text(es[5].1),
            spec_parse_text(es[6].1),
            spec_parse_text(es[7].1),
        ) {
            (Some(id), Some(prompt), Some(receiver_thread_ids), Some(sender_thread_id), Some(
                status_name,
            ), Some(tool_name)) => match (
                spec_parse_collab_status(status_name),
                spec_parse_collab_tool(tool_name),
            ) {
                (Some(status), Some(tool)) => Some(
                    ThreadItemView::CollabAgentToolCall {
                        agents_states: es[1].1,
                        id,
                        prompt,
                        receiver_thread_ids,
                        sender_thread_id,
                        status,
                        tool,
                    },
                ),
                _ => None,
            },
            _ => None,
        }
    } else {
        None
    }
}

pub open spec fn spec_parse_web_search_item(es: Seq<(Seq<char>, JsonData)>) -> Option<
    ThreadItemView,
> {
    if es.len() == 3 && es[1].0 == "id"@ && es[2].0 == "query"@ {
        match (spec_parse_text(es[1].1), spec_parse_text(es[2].1)) {
            (Some(id), Some(query)) => Some(ThreadItemView::WebSearch { id, query }),
            _ => None,
        }
    } else {
        None
    }
}

pub open spec fn spec_parse_image_view_item(es: Seq<(Seq<char>, JsonData)>) -> Option<
    ThreadItemView,
> {
    if es.len() == 3 && es[1].0 == "id"@ && es[2].0 == "path"@ {
        match (spec_parse_text(es[1].1), spec_parse_text(es[2].1)) {
            (Some(id), Some(path)) => Some(ThreadItemView::ImageView { id, path }),
            _ => None,
        }
    } else {
        None
    }
}

pub open spec fn spec_parse_review_item(es: Seq<(Seq<char>, JsonData)>, entered: bool) -> Option<
    ThreadItemView,
> {
    if es.len() == 3 && es[1].0 == "id"@ && es[2].0 == "review"@ {
        match (spec_parse_text(es[1].1), spec_parse_text(es[2].1)) {
            (Some(id), Some(review)) => Some(
                if entered {
                    ThreadItemView::EnteredReviewMode { id, review }
                } else {
                    ThreadItemView::ExitedReviewMode { id, review }
                },
            ),
            _ => None,
        }
    } else {
        None
    }
}

pub open spec fn spec_parse_items_seq(items: Seq<JsonData>) -> Option<Seq<ThreadItemView>>
    decreases items.len(),
{
    if items.len() == 0 {
        Some(Seq::empty())
    } else {
        match (spec_parse_items_seq(items.drop_last()), spec_parse_item(items.last())) {
            (Some(rest), Some(it)) => Some(rest.push(it)),
            _ => None,
        }
    }
}

pub open spec fn spec_parse_thread(j: JsonData) -> Option<ThreadView> {
    match j {
        JsonData::Obj(es) => {
            if es.len() == 1 && es[0].0 == "id"@ {
                match spec_parse_text(es[0].1) {
                    Some(id) => Some(ThreadView { id }),
                    _ => None,
                }
            } else {
                None
            }
        },
        _ => None,
    }
}

pub open spec fn spec_parse_turn(j: JsonData) -> Option<TurnView> {
    match j {
        JsonData::Obj(es) => {
            if es.len() == 2 && es[0].0 == "id"@ && es[1].0 == "items"@ {
                match (spec_parse_text(es[0].1), es[1].1) {
                    (Some(id), JsonData::Arr(items)) => match spec_parse_items_seq(items) {
                        Some(items) => Some(TurnView { id, items }),
                        None => None,
                    },
                    _ => None,
                }
            } else {
                None
            }
        },
        _ => None,
    }
}

pub open spec fn spec_parse_turn_error(j: JsonData) -> Option<TurnErrorView> {
    match j {
        JsonData::Obj(es) => {
            if es.len() == 3 && es[0].0 == "message"@ && es[1].0 == "additionalDetails"@ && es[2].0
                == "codexErrorInfo"@ {
                match (spec_parse_text(es[0].1), spec_parse_opt_text(es[1].1)) {
                    (Some(message), Some(additional_details)) => Some(
                        TurnErrorView {
                            message,
                            additional_details,
                            codex_error_info: spec_parse_opt_value(es[2].1),
                        },
                    ),
                    _ => None,
                }
            } else {
                None
            }
        },
        _ => None,
    }
}

} // verus!

verus! {

pub open spec fn spec_parse_thread_started(p: JsonData) -> Option<ServerNotificationView> {
    match p {
        JsonData::Obj(es) => {
            if es.len() == 1 && es[0].0 == "thread"@ {
                match spec_parse_thread(es[0].1) {
                    Some(thread) => Some(
                        ServerNotificationView::ThreadStarted(
                            ThreadStartedNotificationView { thread },
                        ),
                    ),
                    None => None,
                }
            } else {
                None
            }
        },
        _ => None,
    }
}

/// The shared `{threadId, turn}` payload of turn lifecycle notifications.
pub open spec fn spec_parse_turn_payload(p: JsonData) -> Option<(Seq<char>, TurnView)> {
    match p {
        JsonData::Obj(es) => {
            if es.len() == 2 && es[0].0 == "threadId"@ && es[1].0 == "turn"@ {
                match (spec_parse_text(es[0].1), spec_parse_turn(es[1].1)) {
                    (Some(thread_id), Some(turn)) => Some((thread_id, turn)),
                    _ => None,
                }
            } else {
                None
            }
        },
        _ => None,
    }
}

/// The shared `{item, threadId, turnId}` payload of item lifecycle
/// notifications.
pub open spec fn spec_parse_item_payload(p: JsonData) -> Option<
    (ThreadItemView, Seq<char>, Seq<char>),
> {
    match p {
        JsonData::Obj(es) => {
            if es.len() == 3 && es[0].0 == "item"@ && es[1].0 == "threadId"@ && es[2].0
                == "turnId"@ {
                match (spec_parse_item(es[0].1), spec_parse_text(es[1].1), spec_parse_text(
                    es[2].1,
                )) {
                    (Some(item), Some(thread_id), Some(turn_id)) => Some(
                        (item, thread_id, turn_id),
                    ),
                    _ => None,
                }
            } else {
                None
            }
        },
        _ => None,
    }
}

pub open spec fn spec_parse_delta_payload(p: JsonData) -> Option<ItemDeltaNotificationView> {
    match p {
        JsonData::Obj(es) => {
            if es.len() == 4 && es[0].0 == "delta"@ && es[1].0 == "itemId"@ && es[2].0
                == "threadId"@ && es[3].0 == "turnId"@ {
                match (
                    spec_parse_text(es[0].1),
                    spec_parse_text(es[1].1),
                    spec_parse_text(es[2].1),
                    spec_parse_text(es[3].1),
                ) {
                    (Some(delta), Some(item_id), Some(thread_id), Some(turn_id)) => Some(
                        ItemDeltaNotificationView { delta, item_id, thread_id, turn_id },
                    ),
                    _ => None,
                }
            } else {
                None
            }
        },
        _ => None,
    }
}

pub open spec fn spec_parse_error_payload(p: JsonData) -> Option<ErrorNotificationView> {
    match p {
        JsonData::Obj(es) => {
            if es.len() == 4 && es[0].0 == "error"@ && es[1].0 == "threadId"@ && es[2].0
                == "turnId"@ && es[3].0 == "willRetry"@ {
                match (
                    spec_parse_turn_error(es[0].1),
                    spec_parse_text(es[1].1),
                    spec_parse_text(es[2].1),
                    es[3].1,
                ) {
                    (Some(error), Some(thread_id), Some(turn_id), JsonData::Bool(will_retry))
                        => Some(
                        ErrorNotificationView { error, thread_id, turn_id, will_retry },
                    ),
                    _ => None,
                }
            } else {
                None
            }
        },
        _ => None,
    }
}

pub open spec fn spec_parse_aux_payload(p: JsonData) -> Option<ThreadAuxNotificationView> {
    match p {
        JsonData::Obj(es) => {
            if es.len() == 2 && es[0].0 == "threadId"@ && es[1].0 == "payload"@ {
                match spec_parse_text(es[0].1) {
                    Some(thread_id) => Some(
                        ThreadAuxNotificationView { thread_id, payload: es[1].1 },
                    ),
                    _ => None,
                }
            } else {
                None
            }
        },
        _ => None,
    }
}

/// Read a canonical wire envelope back into a notification. Strict: accepts
/// exactly what `spec_notification_json` produces.
pub open spec fn spec_json_to_notification(j: JsonData) -> Option<ServerNotificationView> {
    match j {
        JsonData::Obj(env) => {
            if env.len() == 2 && env[0].0 == "method"@ && env[1].0 == "params"@ {
                match env[0].1 {
                    JsonData::Text(method) => spec_dispatch_method(method, env[1].1),
                    _ => None,
                }
            } else {
                None
            }
        },
        _ => None,
    }
}

pub open spec fn spec_dispatch_method(method: Seq<char>, p: JsonData) -> Option<
    ServerNotificationView,
> {
    if method == "thread/started"@ {
        spec_parse_thread_started(p)
    } else if method == "turn/started"@ {
        match spec_parse_turn_payload(p) {
            Some((thread_id, turn)) => Some(
                ServerNotificationView::TurnStarted(
                    TurnStartedNotificationView { thread_id, turn },
                ),
            ),
            None => None,
        }
    } else if method == "turn/completed"@ {
        match spec_parse_turn_payload(p) {
            Some((thread_id, turn)) => Some(
                ServerNotificationView::TurnCompleted(
                    TurnCompletedNotificationView { thread_id, turn },
                ),
            ),
            None => None,
        }
    } else if method == "item/started"@ {
        match spec_parse_item_payload(p) {
            Some((item, thread_id, turn_id)) => Some(
                ServerNotificationView::ItemStarted(
                    ItemStartedNotificationView { item, thread_id, turn_id },
                ),
            ),
            None => None,
        }
    } else if method == "item/completed"@ {
        match spec_parse_item_payload(p) {
            Some((item, thread_id, turn_id)) => Some(
                ServerNotificationView::ItemCompleted(
                    ItemCompletedNotificationView { item, thread_id, turn_id },
                ),
            ),
            None => None,
        }
    } else if method == "item/agentMessageDelta"@ {
        match spec_parse_delta_payload(p) {
            Some(d) => Some(ServerNotificationView::ItemAgentMessageDelta(d)),
            None => None,
        }
    } else if method == "item/reasoningTextDelta"@ {
        match spec_parse_delta_payload(p) {
            Some(d) => Some(ServerNotificationView::ItemReasoningTextDelta(d)),
            None => None,
        }
    } else if method == "item/reasoningSummaryTextDelta"@ {
        match spec_parse_delta_payload(p) {
            Some(d) => Some(ServerNotificationView::ItemReasoningSummaryTextDelta(d)),
            None => None,
        }
    } else if method == "item/commandExecutionOutputDelta"@ {
        match spec_parse_delta_payload(p) {
            Some(d) => Some(ServerNotificationView::ItemCommandExecutionOutputDelta(d)),
            None => None,
        }
    } else if method == "item/fileChangeOutputDelta"@ {
        match spec_parse_delta_payload(p) {
            Some(d) => Some(ServerNotificationView::ItemFileChangeOutputDelta(d)),
            None => None,
        }
    } else if method == "error"@ {
        match spec_parse_error_payload(p) {
            Some(e) => Some(ServerNotificationView::Error(e)),
            None => None,
        }
    } else if method == "thread/tokenUsageUpdated"@ {
        match spec_parse_aux_payload(p) {
            Some(a) => Some(ServerNotificationView::ThreadTokenUsageUpdated(a)),
            None => None,
        }
    } else if method == "turn/diffUpdated"@ {
        match spec_parse_aux_payload(p) {
            Some(a) => Some(ServerNotificationView::TurnDiffUpdated(a)),
            None => None,
        }
    } else if method == "turn/planUpdated"@ {
        match spec_parse_aux_payload(p) {
            Some(a) => Some(ServerNotificationView::TurnPlanUpdated(a)),
            None => None,
        }
    } else if method == "item/commandExecutionTerminalInteraction"@ {
        match spec_parse_aux_payload(p) {
            Some(a) => Some(ServerNotificationView::ItemCommandExecutionTerminalInteraction(a)),
            None => None,
        }
    } else if method == "item/mcpToolCallProgress"@ {
        match spec_parse_aux_payload(p) {
            Some(a) => Some(ServerNotificationView::ItemMcpToolCallProgress(a)),
            None => None,
        }
    } else if method == "item/reasoningSummaryPartAdded"@ {
        match spec_parse_aux_payload(p) {
            Some(a) => Some(ServerNotificationView::ItemReasoningSummaryPartAdded(a)),
            None => None,
        }
    } else if method == "thread/compacted"@ {
        match spec_parse_aux_payload(p) {
            Some(a) => Some(ServerNotificationView::ThreadCompacted(a)),
            None => None,
        }
    } else if method == "account/updated"@ {
        Some(ServerNotificationView::AccountUpdated(p))
    } else if method == "account/rateLimitsUpdated"@ {
        Some(ServerNotificationView::AccountRateLimitsUpdated(p))
    } else if method == "account/loginCompleted"@ {
        Some(ServerNotificationView::AccountLoginCompleted(p))
    } else if method == "mcpServer/oauthLoginCompleted"@ {
        Some(ServerNotificationView::McpServerOauthLoginCompleted(p))
    } else if method == "authStatusChange"@ {
        Some(ServerNotificationView::AuthStatusChange(p))
    } else if method == "loginChatGptComplete"@ {
        Some(ServerNotificationView::LoginChatGptComplete(p))
    } else if method == "sessionConfigured"@ {
        Some(ServerNotificationView::SessionConfigured(p))
    } else if method == "deprecationNotice"@ {
        Some(ServerNotificationView::DeprecationNotice(p))
    } else if method == "configWarning"@ {
        Some(ServerNotificationView::ConfigWarning(p))
    } else if method == "windowsWorldWritableWarning"@ {
        Some(ServerNotificationView::WindowsWorldWritableWarning(p))
    } else if method == "rawResponseItemCompleted"@ {
        Some(ServerNotificationView::RawResponseItemCompleted(p))
    } else {
        None
    }
}

} // verus!

verus! {

// ---------------------------------------------------------------------------
// losslessness: reading back what was written
//
// The reader is inverse to the writer on well-formed notifications, so an
// `Unknown.raw` payload deserializes back into a value equal to the original
// typed notification.

proof fn lemma_texts_rt(ss: Seq<Seq<char>>)
    ensures
        spec_parse_texts(spec_texts_json(ss)) == Some(ss),
    decreases ss.len(),
{
    let m = ss.map_values(|t: Seq<char>| JsonData::Text(t));
    if ss.len() == 0 {
        assert(m =~= Seq::<JsonData>::empty());
        assert(ss =~= Seq::<Seq<char>>::empty());
    } else {
        lemma_texts_rt(ss.drop_last());
        assert(m.drop_last() =~= ss.drop_last().map_values(|t: Seq<char>| JsonData::Text(t)));
        assert(m.last() == JsonData::Text(ss.last()));
        assert(spec_parse_texts_seq(m) == Some(ss.drop_last().push(ss.last())));
        assert(ss.drop_last().push(ss.last()) =~= ss);
    }
}

proof fn lemma_user_input_rt(u: UserInputView)
    ensures
        spec_parse_user_input(spec_user_input_json(u)) == Some(u),
{
    reveal_strlit("text");
    reveal_strlit("image");
    reveal_strlit("localImage");
    reveal_strlit("skill");
    assert("text"@.len() == 4);
    assert("image"@.len() == 5);
    assert("localImage"@.len() == 10);
    assert("skill"@.len() == 5);
    assert("image"@[0] == 'i');
    assert("skill"@[0] == 's');
    match u {
        UserInputView::Text { text, text_elements } => {
            lemma_texts_rt(text_elements);
        },
        _ => {},
    }
}

proof fn lemma_user_inputs_rt(us: Seq<UserInputView>)
    ensures
        spec_parse_user_inputs_seq(
            us.map_values(|u: UserInputView| spec_user_input_json(u)),
        ) == Some(us),
    decreases us.len(),
{
    let m = us.map_values(|u: UserInputView| spec_user_input_json(u));
    if us.len() == 0 {
        assert(m =~= Seq::<JsonData>::empty());
        assert(us =~= Seq::<UserInputView>::empty());
    } else {
        lemma_user_inputs_rt(us.drop_last());
        lemma_user_input_rt(us.last());
        assert(m.drop_last() =~= us.drop_last().map_values(
            |u: UserInputView| spec_user_input_json(u),
        ));
        assert(m.last() == spec_user_input_json(us.last()));
        assert(us.drop_last().push(us.last()) =~= us);
    }
}

proof fn lemma_file_change_rt(c: FileUpdateChangeView)
    ensures
        spec_parse_file_change(spec_file_change_json(c)) == Some(c),
{
}

proof fn lemma_file_changes_rt(cs: Seq<FileUpdateChangeView>)
    ensures
        spec_parse_file_changes_seq(
            cs.map_values(|c: FileUpdateChangeView| spec_file_change_json(c)),
        ) == Some(cs),
    decreases cs.len(),
{
    let m = cs.map_values(|c: FileUpdateChangeView| spec_file_change_json(c));
    if cs.len() == 0 {
        assert(m =~= Seq::<JsonData>::empty());
        assert(cs =~= Seq::<FileUpdateChangeView>::empty());
    } else {
        lemma_file_changes_rt(cs.drop_last());
        lemma_file_change_rt(cs.last());
        assert(m.drop_last() =~= cs.drop_last().map_values(
            |c: FileUpdateChangeView| spec_file_change_json(c),
        ));
        assert(m.last() == spec_file_change_json(cs.last()));
        assert(cs.drop_last().push(cs.last()) =~= cs);
    }
}

proof fn lemma_status_names_rt()
    ensures
        forall|s: CommandExecutionStatus|
            spec_parse_command_status(#[trigger] spec_command_status_name(s)) == Some(s),
        forall|s: PatchApplyStatus|
            spec_parse_patch_status(#[trigger] spec_patch_status_name(s)) == Some(s),
        forall|s: McpToolCallStatus|
            spec_parse_mcp_status(#[trigger] spec_mcp_status_name(s)) == Some(s),
        forall|s: CollabAgentToolCallStatus|
            spec_parse_collab_status(#[trigger] spec_collab_status_name(s)) == Some(s),
        forall|t: CollabAgentTool|
            spec_parse_collab_tool(#[trigger] spec_collab_tool_name(t)) == Some(t),
{
    reveal_strlit("InProgress");
    reveal_strlit("Completed");
    reveal_strlit("Failed");
    reveal_strlit("SpawnAgent");
    reveal_strlit("SendMessage");
    reveal_strlit("Wait");
    reveal_strlit("CloseAgent");
    assert("InProgress"@.len() == 10);
    assert("Completed"@.len() == 9);
    assert("Failed"@.len() == 6);
    assert("SpawnAgent"@.len() == 10);
    assert("SendMessage"@.len() == 11);
    assert("Wait"@.len() == 4);
    assert("CloseAgent"@.len() == 10);
    assert("SpawnAgent"@[0] == 'S');
    assert("CloseAgent"@[0] == 'C');
    assert("InProgress"@[0] == 'I');
}

proof fn lemma_opt_mcp_error_rt(o: Option<McpToolCallErrorView>)
    ensures
        spec_parse_opt_mcp_error(spec_opt_mcp_error_json(o)) == Some(o),
{
}

proof fn lemma_item_rt(it: ThreadItemView)
    requires
        spec_item_wf(it),
    ensures
        spec_parse_item(spec_item_json(it)) == Some(it),
{
    reveal_strlit("userMessage");
    reveal_strlit("agentMessage");
    reveal_strlit("reasoning");
    reveal_strlit("commandExecution");
    reveal_strlit("fileChange");
    reveal_strlit("mcpToolCall");
    reveal_strlit("collabAgentToolCall");
    reveal_strlit("webSearch");
    reveal_strlit("imageView");
    reveal_strlit("enteredReviewMode");
    reveal_strlit("exitedReviewMode");
    assert("userMessage"@.len() == 11);
    assert("agentMessage"@.len() == 12);
    assert("reasoning"@.len() == 9);
    assert("commandExecution"@.len() == 16);
    assert("fileChange"@.len() == 10);
    assert("mcpToolCall"@.len() == 11);
    assert("collabAgentToolCall"@.len() == 19);
    assert("webSearch"@.len() == 9);
    assert("imageView"@.len() == 9);
    assert("enteredReviewMode"@.len() == 17);
    assert("exitedReviewMode"@.len() == 16);
    assert("userMessage"@[0] == 'u');
    assert("mcpToolCall"@[0] == 'm');
    assert("reasoning"@[0] == 'r');
    assert("webSearch"@[0] == 'w');
    assert("imageView"@[0] == 'i');
    assert("commandExecution"@[0] == 'c');
    assert("exitedReviewMode"@[0] == 'e');
    match it {
        ThreadItemView::UserMessage { content, .. } => {
            lemma_user_inputs_rt(content);
        },
        ThreadItemView::Reasoning { content, summary, .. } => {
            lemma_texts_rt(content);
            lemma_texts_rt(summary);
        },
        ThreadItemView::CommandExecution { status, .. } => {
            lemma_status_names_rt();
        },
        ThreadItemView::FileChange { changes, status, .. } => {
            lemma_file_changes_rt(changes);
            lemma_status_names_rt();
        },
        ThreadItemView::McpToolCall { error, status, .. } => {
            lemma_opt_mcp_error_rt(error);
            lemma_status_names_rt();
        },
        ThreadItemView::CollabAgentToolCall { receiver_thread_ids, status, tool, .. } => {
            lemma_texts_rt(receiver_thread_ids);
            lemma_status_names_rt();
        },
        _ => {},
    }
}

proof fn lemma_items_rt(items: Seq<ThreadItemView>)
    requires
        spec_items_wf(items),
    ensures
        spec_parse_items_seq(
            items.map_values(|it: ThreadItemView| spec_item_json(it)),
        ) == Some(items),
    decreases items.len(),
{
    let m = items.map_values(|it: ThreadItemView| spec_item_json(it));
    if items.len() == 0 {
        assert(m =~= Seq::<JsonData>::empty());
        assert(items =~= Seq::<ThreadItemView>::empty());
    } else {
        assert(spec_items_wf(items.drop_last()));
        lemma_items_rt(items.drop_last());
        assert(spec_item_wf(items.last()));
        lemma_item_rt(items.last());
        assert(m.drop_last() =~= items.drop_last().map_values(
            |it: ThreadItemView| spec_item_json(it),
        ));
        assert(m.last() == spec_item_json(items.last()));
        assert(items.drop_last().push(items.last()) =~= items);
    }
}

proof fn lemma_turn_rt(t: TurnView)
    requires
        spec_items_wf(t.items),
    ensures
        spec_parse_turn(spec_turn_json(t)) == Some(t),
{
    lemma_items_rt(t.items);
}

/// Writing a well-formed notification and reading it back yields the
/// notification unchanged: the canonical wire encoding is lossless.
pub proof fn lemma_wire_round_trip(n: ServerNotificationView)
    requires
        spec_notification_wf(n),
    ensures
        spec_json_to_notification(spec_notification_json(n)) == Some(n),
{
    reveal_strlit("thread/started");
    reveal_strlit("turn/started");
    reveal_strlit("turn/completed");
    reveal_strlit("item/started");
    reveal_strlit("item/completed");
    reveal_strlit("item/agentMessageDelta");
    reveal_strlit("item/reasoningTextDelta");
    reveal_strlit("item/reasoningSummaryTextDelta");
    reveal_strlit("item/commandExecutionOutputDelta");
    reveal_strlit("item/fileChangeOutputDelta");
    reveal_strlit("error");
    reveal_strlit("thread/tokenUsageUpdated");
    reveal_strlit("turn/diffUpdated");
    reveal_strlit("turn/planUpdated");
    reveal_strlit("item/commandExecutionTerminalInteraction");
    reveal_strlit("item/mcpToolCallProgress");
    reveal_strlit("item/reasoningSummaryPartAdded");
    reveal_strlit("thread/compacted");
    reveal_strlit("account/updated");
    reveal_strlit("account/rateLimitsUpdated");
    reveal_strlit("account/loginCompleted");
    reveal_strlit("mcpServer/oauthLoginCompleted");
    reveal_strlit("authStatusChange");
    reveal_strlit("loginChatGptComplete");
    reveal_strlit("sessionConfigured");
    reveal_strlit("deprecationNotice");
    reveal_strlit("configWarning");
    reveal_strlit("windowsWorldWritableWarning");
    reveal_strlit("rawResponseItemCompleted");
    assert("thread/started"@.len() == 14);
    assert("turn/started"@.len() == 12);
    assert("turn/completed"@.len() == 14);
    assert("item/started"@.len() == 12);
    assert("item/completed"@.len() == 14);
    assert("item/agentMessageDelta"@.len() == 22);
    assert("item/reasoningTextDelta"@.len() == 23);
    assert("item/reasoningSummaryTextDelta"@.len() == 30);
    assert("item/commandExecutionOutputDelta"@.len() == 32);
    assert("item/fileChangeOutputDelta"@.len() == 26);
    assert("error"@.len() == 5);
    assert("thread/tokenUsageUpdated"@.len() == 24);
    assert("turn/diffUpdated"@.len() == 16);
    assert("turn/planUpdated"@.len() == 16);
    assert("item/commandExecutionTerminalInteraction"@.len() == 40);
    assert("item/mcpToolCallProgress"@.len() == 24);
    assert("item/reasoningSummaryPartAdded"@.len() == 30);
    assert("thread/compacted"@.len() == 16);
    assert("account/updated"@.len() == 15);
    assert("account/rateLimitsUpdated"@.len() == 25);
    assert("account/loginCompleted"@.len() == 22);
    assert("mcpServer/oauthLoginCompleted"@.len() == 29);
    assert("authStatusChange"@.len() == 16);
    assert("loginChatGptComplete"@.len() == 20);
    assert("sessionConfigured"@.len() == 17);
    assert("deprecationNotice"@.len() == 17);
    assert("configWarning"@.len() == 13);
    assert("windowsWorldWritableWarning"@.len() == 27);
    assert("rawResponseItemCompleted"@.len() == 24);
    assert("thread/started"@[1] == 'h');
    assert("turn/completed"@[1] == 'u');
    assert("item/completed"@[0] == 'i');
    assert("turn/started"@[0] == 't');
    assert("item/started"@[0] == 'i');
    assert("item/reasoningSummaryTextDelta"@[21] == 'T');
    assert("item/reasoningSummaryPartAdded"@[21] == 'P');
    assert("thread/tokenUsageUpdated"@[0] == 't');
    assert("item/mcpToolCallProgress"@[0] == 'i');
    assert("rawResponseItemCompleted"@[0] == 'r');
    assert("turn/diffUpdated"@[5] == 'd');
    assert("turn/planUpdated"@[5] == 'p');
    assert("thread/compacted"@[1] == 'h');
    assert("authStatusChange"@[0] == 'a');
    assert("sessionConfigured"@[0] == 's');
    assert("deprecationNotice"@[0] == 'd');
    assert("account/loginCompleted"@[0] == 'a');
    match n {
        ServerNotificationView::TurnStarted(p) => {
            lemma_turn_rt(p.turn);
        },
        ServerNotificationView::TurnCompleted(p) => {
            lemma_turn_rt(p.turn);
        },
        ServerNotificationView::ItemStarted(p) => {
            lemma_item_rt(p.item);
        },
        ServerNotificationView::ItemCompleted(p) => {
            lemma_item_rt(p.item);
        },
        _ => {},
    }
}

} // verus!

verus! {

// ---------------------------------------------------------------------------
// reading the wire encoding back, executable side

fn parse_text(j: &JsonValue) -> (r: Option<String>)
    ensures
        r.deep_view() == spec_parse_text(j@),
{
    match j {
        JsonValue::Text(s) => Some(s.clone()),
        _ => None,
    }
}

fn parse_opt_text(j: &JsonValue) -> (r: Option<Option<String>>)
    ensures
        r.deep_view() == spec_parse_opt_text(j@),
{
    match j {
        JsonValue::Null => Some(None),
        JsonValue::Text(s) => Some(Some(s.clone())),
        _ => None,
    }
}

fn parse_opt_i64(j: &JsonValue) -> (r: Option<Option<i64>>)
    ensures
        r.deep_view() == spec_parse_opt_i64(j@),
{
    match j {
        JsonValue::Null => Some(None),
        JsonValue::Int(x) => Some(Some(*x)),
        _ => None,
    }
}

fn parse_opt_i32(j: &JsonValue) -> (r: Option<Option<i32>>)
    ensures
        r.deep_view() == spec_parse_opt_i32(j@),
{
    match j {
        JsonValue::Null => Some(None),
        JsonValue::Int(x) => {
            if *x >= i32::MIN as i64 && *x <= i32::MAX as i64 {
                Some(Some(*x as i32))
            } else {
                None
            }
        },
        _ => None,
    }
}

fn parse_opt_value(j: &JsonValue) -> (r: Option<JsonValue>)
    ensures
        r.deep_view() == spec_parse_opt_value(j@),
{
    match j {
        JsonValue::Null => None,
        _ => Some(json_clone(j)),
    }
}

proof fn lemma_parse_texts_seq_none(s: Seq<JsonData>, i: int)
    requires
        0 <= i <= s.len(),
        spec_parse_texts_seq(s.subrange(0, i)) is None,
    ensures
        spec_parse_texts_seq(s) is None,
    decreases s.len() - i,
{
    if i == s.len() {
        assert(s.subrange(0, i) =~= s);
    } else {
        assert(s.subrange(0, i + 1).drop_last() =~= s.subrange(0, i));
        lemma_parse_texts_seq_none(s, i + 1);
    }
}

fn parse_texts(j: &JsonValue) -> (r: Option<Vec<String>>)
    ensures
        r.deep_view() == spec_parse_texts(j@),
{
    match j {
        JsonValue::Arr(items) => {
            let ghost m = json_data_seq(items@);
            let mut out: Vec<String> = Vec::new();
            let mut i: usize = 0;
            while i < items.len()
                invariant
                    *j is Arr && j->Arr_0 == *items,
                    m == json_data_seq(items@),
                    i <= items.len(),
                    spec_parse_texts_seq(m.subrange(0, i as int)) == Some(out.deep_view()),
                decreases items.len() - i,
            {
                proof {
                    assert(m.subrange(0, i as int + 1).drop_last() =~= m.subrange(0, i as int));
                    assert(m.subrange(0, i as int + 1).last() == m[i as int]);
                }
                match &items[i] {
                    JsonValue::Text(s) => {
                        out.push(s.clone());
                        proof {
                            assert(out.deep_view() =~= spec_parse_texts_seq(
                                m.subrange(0, i as int + 1),
                            )->0);
                        }
                    },
                    _ => {
                        proof {
                            assert(spec_parse_texts_seq(m.subrange(0, i as int + 1)) is None);
                            lemma_parse_texts_seq_none(m, i as int + 1);
                        }
                        return None;
                    },
                }
                i = i + 1;
            }
            proof {
                assert(m.subrange(0, m.len() as int) =~= m);
            }
            Some(out)
        },
        _ => None,
    }
}

fn parse_command_status(s: &String) -> (r: Option<CommandExecutionStatus>)
    ensures
        r.deep_view() == spec_parse_command_status(s@),
{
    if *s == "InProgress".to_owned() {
        Some(CommandExecutionStatus::InProgress)
    } else if *s == "Completed".to_owned() {
        Some(CommandExecutionStatus::Completed)
    } else if *s == "Failed".to_owned() {
        Some(CommandExecutionStatus::Failed)
    } else {
        None
    }
}

fn parse_patch_status(s: &String) -> (r: Option<PatchApplyStatus>)
    ensures
        r.deep_view() == spec_parse_patch_status(s@),
{
    if *s == "InProgress".to_owned() {
        Some(PatchApplyStatus::InProgress)
    } else if *s == "Completed".to_owned() {
        Some(PatchApplyStatus::Completed)
    } else if *s == "Failed".to_owned() {
        Some(PatchApplyStatus::Failed)
    } else {
        None
    }
}

fn parse_mcp_status(s: &String) -> (r: Option<McpToolCallStatus>)
    ensures
        r.deep_view() == spec_parse_mcp_status(s@),
{
    if *s == "InProgress".to_owned() {
        Some(McpToolCallStatus::InProgress)
    } else if *s == "Completed".to_owned() {
        Some(McpToolCallStatus::Completed)
    } else if *s == "Failed".to_owned() {
        Some(McpToolCallStatus::Failed)
    } else {
        None
    }
}

fn parse_collab_status(s: &String) -> (r: Option<CollabAgentToolCallStatus>)
    ensures
        r.deep_view() == spec_parse_collab_status(s@),
{
    if *s == "InProgress".to_owned() {
        Some(CollabAgentToolCallStatus::InProgress)
    } else if *s == "Completed".to_owned() {
        Some(CollabAgentToolCallStatus::Completed)
    } else if *s == "Failed".to_owned() {
        Some(CollabAgentToolCallStatus::Failed)
    } else {
        None
    }
}

fn parse_collab_tool(s: &String) -> (r: Option<CollabAgentTool>)
    ensures
        r.deep_view() == spec_parse_collab_tool(s@),
{
    if *s == "SpawnAgent".to_owned() {
        Some(CollabAgentTool::SpawnAgent)
    } else if *s == "SendMessage".to_owned() {
        Some(CollabAgentTool::SendMessage)
    } else if *s == "Wait".to_owned() {
        Some(CollabAgentTool::Wait)
    } else if *s == "CloseAgent".to_owned() {
        Some(CollabAgentTool::CloseAgent)
    } else {
        None
    }
}

} // verus!

verus! {

fn parse_user_input(j: &JsonValue) -> (r: Option<UserInput>)
    ensures
        r.deep_view() == spec_parse_user_input(j@),
{
    let entries = match j {
        JsonValue::Obj(entries) => entries,
        _ => {
            return None;
        },
    };
    proof {
        assert(j->Obj_0 == *entries);
        json_data_entries_props(entries@);
        assert(json_data(*j) == JsonData::Obj(json_data_entries(entries@)));
    }
    if entries.len() == 0 || !(entries[0].0 == "type".to_owned()) {
        return None;
    }
    let tag = match &entries[0].1 {
        JsonValue::Text(tag) => tag,
        _ => {
            return None;
        },
    };
    if *tag == "text".to_owned() {
        if entries.len() == 3 && entries[1].0 == "text".to_owned() && entries[2].0
            == "textElements".to_owned() {
            let text = match parse_text(&entries[1].1) {
                Some(t) => t,
                None => {
                    return None;
                },
            };
            let text_elements = match parse_texts(&entries[2].1) {
                Some(t) => t,
                None => {
                    return None;
                },
            };
            Some(UserInput::Text { text, text_elements })
        } else {
            None
        }
    } else if *tag == "image".to_owned() {
        if entries.len() == 2 && entries[1].0 == "imageUrl".to_owned() {
            match parse_text(&entries[1].1) {
                Some(image_url) => Some(UserInput::Image { image_url }),
                None => None,
            }
        } else {
            None
        }
    } else if *tag == "localImage".to_owned() {
        if entries.len() == 2 && entries[1].0 == "path".to_owned() {
            match parse_text(&entries[1].1) {
                Some(path) => Some(UserInput::LocalImage { path }),
                None => None,
            }
        } else {
            None
        }
    } else if *tag == "skill".to_owned() {
        if entries.len() == 3 && entries[1].0 == "name".to_owned() && entries[2].0
            == "path".to_owned() {
            let name = match parse_text(&entries[1].1) {
                Some(n) => n,
                None => {
                    return None;
                },
            };
            match parse_text(&entries[2].1) {
                Some(path) => Some(UserInput::Skill { name, path }),
                None => None,
            }
        } else {
            None
        }
    } else {
        None
    }
}

proof fn lemma_parse_user_inputs_seq_none(s: Seq<JsonData>, i: int)
    requires
        0 <= i <= s.len(),
        spec_parse_user_inputs_seq(s.subrange(0, i)) is None,
    ensures
        spec_parse_user_inputs_seq(s) is None,
    decreases s.len() - i,
{
    if i == s.len() {
        assert(s.subrange(0, i) =~= s);
    } else {
        assert(s.subrange(0, i + 1).drop_last() =~= s.subrange(0, i));
        lemma_parse_user_inputs_seq_none(s, i + 1);
    }
}

fn parse_user_inputs(items: &Vec<JsonValue>) -> (r: Option<Vec<UserInput>>)
    ensures
        r.deep_view() == spec_parse_user_inputs_seq(json_data_seq(items@)),
{
    let ghost m = json_data_seq(items@);
    let mut out: Vec<UserInput> = Vec::new();
    let mut i: usize = 0;
    while i < items.len()
        invariant
            m == json_data_seq(items@),
            i <= items.len(),
            spec_parse_user_inputs_seq(m.subrange(0, i as int)) == Some(out.deep_view()),
        decreases items.len() - i,
    {
        proof {
            assert(m.subrange(0, i as int + 1).drop_last() =~= m.subrange(0, i as int));
            assert(m.subrange(0, i as int + 1).last() == m[i as int]);
        }
        match parse_user_input(&items[i]) {
            Some(u) => {
                out.push(u);
                proof {
                    assert(out.deep_view() =~= spec_parse_user_inputs_seq(
                        m.subrange(0, i as int + 1),
                    )->0);
                }
            },
            None => {
                proof {
                    lemma_parse_user_inputs_seq_none(m, i as int + 1);
                }
                return None;
            },
        }
        i = i + 1;
    }
    proof {
        assert(m.subrange(0, m.len() as int) =~= m);
    }
    Some(out)
}

fn parse_file_change(j: &JsonValue) -> (r: Option<FileUpdateChange>)
    ensures
        r.deep_view() == spec_parse_file_change(j@),
{
    let entries = match j {
        JsonValue::Obj(entries) => entries,
        _ => {
            return None;
        },
    };
    proof {
        assert(j->Obj_0 == *entries);
        json_data_entries_props(entries@);
        assert(json_data(*j) == JsonData::Obj(json_data_entries(entries@)));
    }
    if entries.len() == 3 && entries[0].0 == "path".to_owned() && entries[1].0 == "kind".to_owned()
        && entries[2].0 == "diff".to_owned() {
        let path = match parse_text(&entries[0].1) {
            Some(p) => p,
            None => {
                return None;
            },
        };
        let kind = match parse_text(&entries[1].1) {
            Some(k) => k,
            None => {
                return None;
            },
        };
        match parse_text(&entries[2].1) {
            Some(diff) => Some(FileUpdateChange { path, kind, diff }),
            None => None,
        }
    } else {
        None
    }
}

proof fn lemma_parse_file_changes_seq_none(s: Seq<JsonData>, i: int)
    requires
        0 <= i <= s.len(),
        spec_parse_file_changes_seq(s.subrange(0, i)) is None,
    ensures
        spec_parse_file_changes_seq(s) is None,
    decreases s.len() - i,
{
    if i == s.len() {
        assert(s.subrange(0, i) =~= s);
    } else {
        assert(s.subrange(0, i + 1).drop_last() =~= s.subrange(0, i));
        lemma_parse_file_changes_seq_none(s, i + 1);
    }
}

fn parse_file_changes(items: &Vec<JsonValue>) -> (r: Option<Vec<FileUpdateChange>>)
    ensures
        r.deep_view() == spec_parse_file_changes_seq(json_data_seq(items@)),
{
    let ghost m = json_data_seq(items@);
    let mut out: Vec<FileUpdateChange> = Vec::new();
    let mut i: usize = 0;
    while i < items.len()
        invariant
            m == json_data_seq(items@),
            i <= items.len(),
            spec_parse_file_changes_seq(m.subrange(0, i as int)) == Some(out.deep_view()),
        decreases items.len() - i,
    {
        proof {
            assert(m.subrange(0, i as int + 1).drop_last() =~= m.subrange(0, i as int));
            assert(m.subrange(0, i as int + 1).last() == m[i as int]);
        }
        match parse_file_change(&items[i]) {
            Some(c) => {
                out.push(c);
                proof {
                    assert(out.deep_view() =~= spec_parse_file_changes_seq(
                        m.subrange(0, i as int + 1),
                    )->0);
                }
            },
            None => {
                proof {
                    lemma_parse_file_changes_seq_none(m, i as int + 1);
                }
                return None;
            },
        }
        i = i + 1;
    }
    proof {
        assert(m.subrange(0, m.len() as int) =~= m);
    }
    Some(out)
}

fn parse_mcp_error(j: &JsonValue) -> (r: Option<McpToolCallError>)
    ensures
        r.deep_view() == spec_parse_mcp_error(j@),
{
    let entries = match j {
        JsonValue::Obj(entries) => entries,
        _ => {
            return None;
        },
    };
    proof {
        assert(j->Obj_0 == *entries);
        json_data_entries_props(entries@);
        assert(json_data(*j) == JsonData::Obj(json_data_entries(entries@)));
    }
    if entries.len() == 1 && entries[0].0 == "message".to_owned() {
        match parse_text(&entries[0].1) {
            Some(message) => Some(McpToolCallError { message }),
            None => None,
        }
    } else {
        None
    }
}

fn parse_opt_mcp_error(j: &JsonValue) -> (r: Option<Option<McpToolCallError>>)
    ensures
        r.deep_view() == spec_parse_opt_mcp_error(j@),
{
    match j {
        JsonValue::Null => Some(None),
        _ => match parse_mcp_error(j) {
            Some(e) => Some(Some(e)),
            None => None,
        },
    }
}

} // verus!

verus! {

fn parse_user_message_item(entries: &Vec<(String, JsonValue)>) -> (r: Option<ThreadItem>)
    ensures
        r.deep_view() == spec_parse_user_message_item(json_data_entries(entries@)),
{
    proof {
        json_data_entries_props(entries@);
    }
    if entries.len() == 3 && entries[1].0 == "content".to_owned() && entries[2].0
        == "id".to_owned() {
        let inputs = match &entries[1].1 {
            JsonValue::Arr(inputs) => inputs,
            _ => {
                return None;
            },
        };
        let id = match parse_text(&entries[2].1) {
            Some(id) => id,
            None => {
                return None;
            },
        };
        match parse_user_inputs(inputs) {
            Some(content) => Some(ThreadItem::UserMessage { content, id }),
            None => None,
        }
    } else {
        None
    }
}

fn parse_agent_message_item(entries: &Vec<(String, JsonValue)>) -> (r: Option<ThreadItem>)
    ensures
        r.deep_view() == spec_parse_agent_message_item(json_data_entries(entries@)),
{
    proof {
        json_data_entries_props(entries@);
    }
    if entries.len() == 3 && entries[1].0 == "id".to_owned() && entries[2].0 == "text".to_owned() {
        let id = match parse_text(&entries[1].1) {
            Some(id) => id,
            None => {
                return None;
            },
        };
        match parse_text(&entries[2].1) {
            Some(text) => Some(ThreadItem::AgentMessage { id, text }),
            None => None,
        }
    } else {
        None
    }
}

fn parse_reasoning_item(entries: &Vec<(String, JsonValue)>) -> (r: Option<ThreadItem>)
    ensures
        r.deep_view() == spec_parse_reasoning_item(json_data_entries(entries@)),
{
    proof {
        json_data_entries_props(entries@);
    }
    if entries.len() == 4 && entries[1].0 == "content".to_owned() && entries[2].0 == "id".to_owned()
        && entries[3].0 == "summary".to_owned() {
        let content = match parse_texts(&entries[1].1) {
            Some(c) => c,
            None => {
                return None;
            },
        };
        let id = match parse_text(&entries[2].1) {
            Some(id) => id,
            None => {
                return None;
            },
        };
        match parse_texts(&entries[3].1) {
            Some(summary) => Some(ThreadItem::Reasoning { content, id, summary }),
            None => None,
        }
    } else {
        None
    }
}

fn parse_command_execution_item(entries: &Vec<(String, JsonValue)>) -> (r: Option<ThreadItem>)
    ensures
        r.deep_view() == spec_parse_command_execution_item(json_data_entries(entries@)),
{
    proof {
        json_data_entries_props(entries@);
    }
    if entries.len() == 10 && entries[1].0 == "aggregatedOutput".to_owned() && entries[2].0
        == "command".to_owned() && entries[3].0 == "commandActions".to_owned() && entries[4].0
        == "cwd".to_owned() && entries[5].0 == "durationMs".to_owned() && entries[6].0
        == "exitCode".to_owned() && entries[7].0 == "id".to_owned() && entries[8].0
        == "processId".to_owned() && entries[9].0 == "status".to_owned() {
        let aggregated_output = match parse_opt_text(&entries[1].1) {
            Some(v) => v,
            None => {
                return None;
            },
        };
        let command = match parse_text(&entries[2].1) {
            Some(v) => v,
            None => {
                return None;
            },
        };
        let command_actions = match &entries[3].1 {
            JsonValue::Arr(a) => {
                let mut out: Vec<JsonValue> = Vec::new();
                let mut i: usize = 0;
                while i < a.len()
                    invariant
                        i <= a.len(),
                        out@.len() == i as int,
                        forall|k: int| 0 <= k < i ==> out@[k]@ == a@[k]@,
                    decreases a.len() - i,
                {
                    out.push(json_clone(&a[i]));
                    i = i + 1;
                }
                proof {
                    assert(json_data_seq(out@) =~= json_data_seq(a@));
                }
                out
            },
            _ => {
                return None;
            },
        };
        let cwd = match parse_text(&entries[4].1) {
            Some(v) => v,
            None => {
                return None;
            },
        };
        let duration_ms = match parse_opt_i64(&entries[5].1) {
            Some(v) => v,
            None => {
                return None;
            },
        };
        let exit_code = match parse_opt_i32(&entries[6].1) {
            Some(v) => v,
            None => {
                return None;
            },
        };
        let id = match parse_text(&entries[7].1) {
            Some(v) => v,
            None => {
                return None;
            },
        };
        let process_id = match parse_opt_i64(&entries[8].1) {
            Some(v) => v,
            None => {
                return None;
            },
        };
        let status_name = match parse_text(&entries[9].1) {
            Some(v) => v,
            None => {
                return None;
            },
        };
        match parse_command_status(&status_name) {
            Some(status) => Some(
                ThreadItem::CommandExecution {
                    aggregated_output,
                    command,
                    command_actions,
                    cwd,
                    duration_ms,
                    exit_code,
                    id,
                    process_id,
                    status,
                },
            ),
            None => None,
        }
    } else {
        None
    }
}

fn parse_file_change_item(entries: &Vec<(String, JsonValue)>) -> (r: Option<ThreadItem>)
    ensures
        r.deep_view() == spec_parse_file_change_item(json_data_entries(entries@)),
{
    proof {
        json_data_entries_props(entries@);
    }
    if entries.len() == 4 && entries[1].0 == "changes".to_owned() && entries[2].0
        == "id".to_owned() && entries[3].0 == "status".to_owned() {
        let changes_arr = match &entries[1].1 {
            JsonValue::Arr(a) => a,
            _ => {
                return None;
            },
        };
        let id = match parse_text(&entries[2].1) {
            Some(v) => v,
            None => {
                return None;
            },
        };
        let status_name = match parse_text(&entries[3].1) {
            Some(v) => v,
            None => {
                return None;
            },
        };
        let changes = match parse_file_changes(changes_arr) {
            Some(v) => v,
            None => {
                return None;
            },
        };
        match parse_patch_status(&status_name) {
            Some(status) => Some(ThreadItem::FileChange { changes, id, status }),
            None => None,
        }
    } else {
        None
    }
}

fn parse_mcp_tool_call_item(entries: &Vec<(String, JsonValue)>) -> (r: Option<ThreadItem>)
    ensures
        r.deep_view() == spec_parse_mcp_tool_call_item(json_data_entries(entries@)),
{
    proof {
        json_data_entries_props(entries@);
    }
    if entries.len() == 9 && entries[1].0 == "arguments".to_owned() && entries[2].0
        == "durationMs".to_owned() && entries[3].0 == "error".to_owned() && entries[4].0
        == "id".to_owned() && entries[5].0 == "result".to_owned() && entries[6].0
        == "server".to_owned() && entries[7].0 == "status".to_owned() && entries[8].0
        == "tool".to_owned() {
        let duration_ms = match parse_opt_i64(&entries[2].1) {
            Some(v) => v,
            None => {
                return None;
            },
        };
        let error = match parse_opt_mcp_error(&entries[3].1) {
            Some(v) => v,
            None => {
                return None;
            },
        };
        let id = match parse_text(&entries[4].1) {
            Some(v) => v,
            None => {
                return None;
            },
        };
        let server = match parse_text(&entries[6].1) {
            Some(v) => v,
            None => {
                return None;
            },
        };
        let status_name = match parse_text(&entries[7].1) {
            Some(v) => v,
            None => {
                return None;
            },
        };
        let tool = match parse_text(&entries[8].1) {
            Some(v) => v,
            None => {
                return None;
            },
        };
        match parse_mcp_status(&status_name) {
            Some(status) => Some(
                ThreadItem::McpToolCall {
                    arguments: json_clone(&entries[1].1),
                    duration_ms,
                    error,
                    id,
                    result: parse_opt_value(&entries[5].1),
                    server,
                    status,
                    tool,
                },
            ),
            None => None,
        }
    } else {
        None
    }
}

fn parse_collab_item(entries: &Vec<(String, JsonValue)>) -> (r: Option<ThreadItem>)
    ensures
        r.deep_view() == spec_parse_collab_item(json_data_entries(entries@)),
{
    proof {
        json_data_entries_props(entries@);
    }
    if entries.len() == 8 && entries[1].0 == "agentsStates".to_owned() && entries[2].0
        == "id".to_owned() && entries[3].0 == "prompt".to_owned() && entries[4].0
        == "receiverThreadIds".to_owned() && entries[5].0 == "senderThreadId".to_owned()
        && entries[6].0 == "status".to_owned() && entries[7].0 == "tool".to_owned() {
        let id = match parse_text(&entries[2].1) {
            Some(v) => v,
            None => {
                return None;
            },
        };
        let prompt = match parse_opt_text(&entries[3].1) {
            Some(v) => v,
            None => {
                return None;
            },
        };
        let receiver_thread_ids = match parse_texts(&entries[4].1) {
            Some(v) => v,
            None => {
                return None;
            },
        };
        let sender_thread_id = match parse_text(&entries[5].1) {
            Some(v) => v,
            None => {
                return None;
            },
        };
        let status_name = match parse_text(&entries[6].1) {
            Some(v) => v,
            None => {
                return None;
            },
        };
        let tool_name = match parse_text(&entries[7].1) {
            Some(v) => v,
            None => {
                return None;
            },
        };
        let status = match parse_collab_status(&status_name) {
            Some(v) => v,
            None => {
                return None;
            },
        };
        match parse_collab_tool(&tool_name) {
            Some(tool) => Some(
                ThreadItem::CollabAgentToolCall {
                    agents_states: json_clone(&entries[1].1),
                    id,
                    prompt,
                    receiver_thread_ids,
                    sender_thread_id,
                    status,
                    tool,
                },
            ),
            None => None,
        }
    } else {
        None
    }
}

fn parse_two_text_item(entries: &Vec<(String, JsonValue)>, second_key: &str) -> (r: Option<
    (String, String),
>)
    ensures
        ({
            let es = json_data_entries(entries@);
            r.deep_view() == if es.len() == 3 && es[1].0 == "id"@ && es[2].0 == second_key@ {
                match (spec_parse_text(es[1].1), spec_parse_text(es[2].1)) {
                    (Some(id), Some(second)) => Some((id, second)),
                    _ => None::<(Seq<char>, Seq<char>)>,
                }
            } else {
                None::<(Seq<char>, Seq<char>)>
            }
        }),
{
    proof {
        json_data_entries_props(entries@);
    }
    if entries.len() == 3 && entries[1].0 == "id".to_owned() && entries[2].0
        == second_key.to_owned() {
        let id = match parse_text(&entries[1].1) {
            Some(v) => v,
            None => {
                return None;
            },
        };
        match parse_text(&entries[2].1) {
            Some(second) => Some((id, second)),
            None => None,
        }
    } else {
        None
    }
}

pub fn json_to_thread_item(j: &JsonValue) -> (r: Option<ThreadItem>)
    ensures
        r.deep_view() == spec_parse_item(j@),
{
    let entries = match j {
        JsonValue::Obj(entries) => entries,
        _ => {
            return None;
        },
    };
    proof {
        assert(j->Obj_0 == *entries);
        json_data_entries_props(entries@);
        assert(json_data(*j) == JsonData::Obj(json_data_entries(entries@)));
    }
    if entries.len() == 0 || !(entries[0].0 == "type".to_owned()) {
        return None;
    }
    let tag = match &entries[0].1 {
        JsonValue::Text(tag) => tag,
        _ => {
            return None;
        },
    };
    if *tag == "userMessage".to_owned() {
        parse_user_message_item(entries)
    } else if *tag == "agentMessage".to_owned() {
        parse_agent_message_item(entries)
    } else if *tag == "reasoning".to_owned() {
        parse_reasoning_item(entries)
    } else if *tag == "commandExecution".to_owned() {
        parse_command_execution_item(entries)
    } else if *tag == "fileChange".to_owned() {
        parse_file_change_item(entries)
    } else if *tag == "mcpToolCall".to_owned() {
        parse_mcp_tool_call_item(entries)
    } else if *tag == "collabAgentToolCall".to_owned() {
        parse_collab_item(entries)
    } else if *tag == "webSearch".to_owned() {
        match parse_two_text_item(entries, "query") {
            Some((id, query)) => Some(ThreadItem::WebSearch { id, query }),
            None => None,
        }
    } else if *tag == "imageView".to_owned() {
        match parse_two_text_item(entries, "path") {
            Some((id, path)) => Some(ThreadItem::ImageView { id, path }),
            None => None,
        }
    } else if *tag == "enteredReviewMode".to_owned() {
        match parse_two_text_item(entries, "review") {
            Some((id, review)) => Some(ThreadItem::EnteredReviewMode { id, review }),
            None => None,
        }
    } else if *tag == "exitedReviewMode".to_owned() {
        match parse_two_text_item(entries, "review") {
            Some((id, review)) => Some(ThreadItem::ExitedReviewMode { id, review }),
            None => None,
        }
    } else {
        None
    }
}

} // verus!

verus! {

proof fn lemma_parse_items_seq_none(s: Seq<JsonData>, i: int)
    requires
        0 <= i <= s.len(),
        spec_parse_items_seq(s.subrange(0, i)) is None,
    ensures
        spec_parse_items_seq(s) is None,
    decreases s.len() - i,
{
    if i == s.len() {
        assert(s.subrange(0, i) =~= s);
    } else {
        assert(s.subrange(0, i + 1).drop_last() =~= s.subrange(0, i));
        lemma_parse_items_seq_none(s, i + 1);
    }
}

fn parse_items(items: &Vec<JsonValue>) -> (r: Option<Vec<ThreadItem>>)
    ensures
        r.deep_view() == spec_parse_items_seq(json_data_seq(items@)),
{
    let ghost m = json_data_seq(items@);
    let mut out: Vec<ThreadItem> = Vec::new();
    let mut i: usize = 0;
    while i < items.len()
        invariant
            m == json_data_seq(items@),
            i <= items.len(),
            spec_parse_items_seq(m.subrange(0, i as int)) == Some(out.deep_view()),
        decreases items.len() - i,
    {
        proof {
            json_data_seq_props(items@);
            assert(m.subrange(0, i as int + 1).drop_last() =~= m.subrange(0, i as int));
            assert(m.subrange(0, i as int + 1).last() == m[i as int]);
        }
        match json_to_thread_item(&items[i]) {
            Some(it) => {
                out.push(it);
                proof {
                    assert(out.deep_view() =~= spec_parse_items_seq(
                        m.subrange(0, i as int + 1),
                    )->0);
                }
            },
            None => {
                proof {
                    lemma_parse_items_seq_none(m, i as int + 1);
                }
                return None;
            },
        }
        i = i + 1;
    }
    proof {
        assert(m.subrange(0, m.len() as int) =~= m);
    }
    Some(out)
}

fn parse_thread(j: &JsonValue) -> (r: Option<Thread>)
    ensures
        r.deep_view() == spec_parse_thread(j@),
{
    let entries = match j {
        JsonValue::Obj(entries) => entries,
        _ => {
            return None;
        },
    };
    proof {
        assert(j->Obj_0 == *entries);
        json_data_entries_props(entries@);
        assert(json_data(*j) == JsonData::Obj(json_data_entries(entries@)));
    }
    if entries.len() == 1 && entries[0].0 == "id".to_owned() {
        match parse_text(&entries[0].1) {
            Some(id) => Some(Thread { id }),
            None => None,
        }
    } else {
        None
    }
}

fn parse_turn(j: &JsonValue) -> (r: Option<Turn>)
    ensures
        r.deep_view() == spec_parse_turn(j@),
{
    let entries = match j {
        JsonValue::Obj(entries) => entries,
        _ => {
            return None;
        },
    };
    proof {
        assert(j->Obj_0 == *entries);
        json_data_entries_props(entries@);
        assert(json_data(*j) == JsonData::Obj(json_data_entries(entries@)));
    }
    if entries.len() == 2 && entries[0].0 == "id".to_owned() && entries[1].0
        == "items".to_owned() {
        let id = match parse_text(&entries[0].1) {
            Some(v) => v,
            None => {
                return None;
            },
        };
        let items_arr = match &entries[1].1 {
            JsonValue::Arr(a) => a,
            _ => {
                return None;
            },
        };
        match parse_items(items_arr) {
            Some(items) => Some(Turn { id, items }),
            None => None,
        }
    } else {
        None
    }
}

fn parse_turn_error(j: &JsonValue) -> (r: Option<TurnError>)
    ensures
        r.deep_view() == spec_parse_turn_error(j@),
{
    let entries = match j {
        JsonValue::Obj(entries) => entries,
        _ => {
            return None;
        },
    };
    proof {
        assert(j->Obj_0 == *entries);
        json_data_entries_props(entries@);
        assert(json_data(*j) == JsonData::Obj(json_data_entries(entries@)));
    }
    if entries.len() == 3 && entries[0].0 == "message".to_owned() && entries[1].0
        == "additionalDetails".to_owned() && entries[2].0 == "codexErrorInfo".to_owned() {
        let message = match parse_text(&entries[0].1) {
            Some(v) => v,
            None => {
                return None;
            },
        };
        match parse_opt_text(&entries[1].1) {
            Some(additional_details) => Some(
                TurnError {
                    message,
                    additional_details,
                    codex_error_info: parse_opt_value(&entries[2].1),
                },
            ),
            None => None,
        }
    } else {
        None
    }
}

fn parse_thread_started_payload(j: &JsonValue) -> (r: Option<ServerNotification>)
    ensures
        r.deep_view() == spec_parse_thread_started(j@),
{
    let entries = match j {
        JsonValue::Obj(entries) => entries,
        _ => {
            return None;
        },
    };
    proof {
        assert(j->Obj_0 == *entries);
        json_data_entries_props(entries@);
        assert(json_data(*j) == JsonData::Obj(json_data_entries(entries@)));
    }
    if entries.len() == 1 && entries[0].0 == "thread".to_owned() {
        match parse_thread(&entries[0].1) {
            Some(thread) => Some(
                ServerNotification::ThreadStarted(ThreadStartedNotification { thread }),
            ),
            None => None,
        }
    } else {
        None
    }
}

fn parse_turn_payload(j: &JsonValue) -> (r: Option<(String, Turn)>)
    ensures
        r.deep_view() == spec_parse_turn_payload(j@),
{
    let entries = match j {
        JsonValue::Obj(entries) => entries,
        _ => {
            return None;
        },
    };
    proof {
        assert(j->Obj_0 == *entries);
        json_data_entries_props(entries@);
        assert(json_data(*j) == JsonData::Obj(json_data_entries(entries@)));
    }
    if entries.len() == 2 && entries[0].0 == "threadId".to_owned() && entries[1].0
        == "turn".to_owned() {
        let thread_id = match parse_text(&entries[0].1) {
            Some(v) => v,
            None => {
                return None;
            },
        };
        match parse_turn(&entries[1].1) {
            Some(turn) => Some((thread_id, turn)),
            None => None,
        }
    } else {
        None
    }
}

fn parse_item_payload(j: &JsonValue) -> (r: Option<(ThreadItem, String, String)>)
    ensures
        r.deep_view() == spec_parse_item_payload(j@),
{
    let entries = match j {
        JsonValue::Obj(entries) => entries,
        _ => {
            return None;
        },
    };
    proof {
        assert(j->Obj_0 == *entries);
        json_data_entries_props(entries@);
        assert(json_data(*j) == JsonData::Obj(json_data_entries(entries@)));
    }
    if entries.len() == 3 && entries[0].0 == "item".to_owned() && entries[1].0
        == "threadId".to_owned() && entries[2].0 == "turnId".to_owned() {
        let item = match json_to_thread_item(&entries[0].1) {
            Some(v) => v,
            None => {
                return None;
            },
        };
        let thread_id = match parse_text(&entries[1].1) {
            Some(v) => v,
            None => {
                return None;
            },
        };
        match parse_text(&entries[2].1) {
            Some(turn_id) => Some((item, thread_id, turn_id)),
            None => None,
        }
    } else {
        None
    }
}

fn parse_delta_payload(j: &JsonValue) -> (r: Option<ItemDeltaNotification>)
    ensures
        r.deep_view() == spec_parse_delta_payload(j@),
{
    let entries = match j {
        JsonValue::Obj(entries) => entries,
        _ => {
            return None;
        },
    };
    proof {
        assert(j->Obj_0 == *entries);
        json_data_entries_props(entries@);
        assert(json_data(*j) == JsonData::Obj(json_data_entries(entries@)));
    }
    if entries.len() == 4 && entries[0].0 == "delta".to_owned() && entries[1].0
        == "itemId".to_owned() && entries[2].0 == "threadId".to_owned() && entries[3].0
        == "turnId".to_owned() {
        let delta = match parse_text(&entries[0].1) {
            Some(v) => v,
            None => {
                return None;
            },
        };
        let item_id = match parse_text(&entries[1].1) {
            Some(v) => v,
            None => {
                return None;
            },
        };
        let thread_id = match parse_text(&entries[2].1) {
            Some(v) => v,
            None => {
                return None;
            },
        };
        match parse_text(&entries[3].1) {
            Some(turn_id) => Some(ItemDeltaNotification { delta, item_id, thread_id, turn_id }),
            None => None,
        }
    } else {
        None
    }
}

fn parse_error_payload(j: &JsonValue) -> (r: Option<ErrorNotification>)
    ensures
        r.deep_view() == spec_parse_error_payload(j@),
{
    let entries = match j {
        JsonValue::Obj(entries) => entries,
        _ => {
            return None;
        },
    };
    proof {
        assert(j->Obj_0 == *entries);
        json_data_entries_props(entries@);
        assert(json_data(*j) == JsonData::Obj(json_data_entries(entries@)));
    }
    if entries.len() == 4 && entries[0].0 == "error".to_owned() && entries[1].0
        == "threadId".to_owned() && entries[2].0 == "turnId".to_owned() && entries[3].0
        == "willRetry".to_owned() {
        let error = match parse_turn_error(&entries[0].1) {
            Some(v) => v,
            None => {
                return None;
            },
        };
        let thread_id = match parse_text(&entries[1].1) {
            Some(v) => v,
            None => {
                return None;
            },
        };
        let turn_id = match parse_text(&entries[2].1) {
            Some(v) => v,
            None => {
                return None;
            },
        };
        match &entries[3].1 {
            JsonValue::Bool(will_retry) => Some(
                ErrorNotification { error, thread_id, turn_id, will_retry: *will_retry },
            ),
            _ => None,
        }
    } else {
        None
    }
}

fn parse_aux_payload(j: &JsonValue) -> (r: Option<ThreadAuxNotification>)
    ensures
        r.deep_view() == spec_parse_aux_payload(j@),
{
    let entries = match j {
        JsonValue::Obj(entries) => entries,
        _ => {
            return None;
        },
    };
    proof {
        assert(j->Obj_0 == *entries);
        json_data_entries_props(entries@);
        assert(json_data(*j) == JsonData::Obj(json_data_entries(entries@)));
    }
    if entries.len() == 2 && entries[0].0 == "threadId".to_owned() && entries[1].0
        == "payload".to_owned() {
        match parse_text(&entries[0].1) {
            Some(thread_id) => Some(
                ThreadAuxNotification { thread_id, payload: json_clone(&entries[1].1) },
            ),
            None => None,
        }
    } else {
        None
    }
}

/// Read a canonical wire envelope back into a typed notification. Strict:
/// accepts exactly the encoding `notification_to_json` produces.
pub fn json_to_notification(j: &JsonValue) -> (r: Option<ServerNotification>)
    ensures
        r.deep_view() == spec_json_to_notification(j@),
{
    let env = match j {
        JsonValue::Obj(env) => env,
        _ => {
            return None;
        },
    };
    proof {
        assert(j->Obj_0 == *env);
        json_data_entries_props(env@);
        assert(json_data(*j) == JsonData::Obj(json_data_entries(env@)));
    }
    if !(env.len() == 2 && env[0].0 == "method".to_owned() && env[1].0 == "params".to_owned()) {
        return None;
    }
    let method = match &env[0].1 {
        JsonValue::Text(m) => m,
        _ => {
            return None;
        },
    };
    let p = &env[1].1;
    if *method == "thread/started".to_owned() {
        parse_thread_started_payload(p)
    } else if *method == "turn/started".to_owned() {
        match parse_turn_payload(p) {
            Some((thread_id, turn)) => Some(
                ServerNotification::TurnStarted(TurnStartedNotification { thread_id, turn }),
            ),
            None => None,
        }
    } else if *method == "turn/completed".to_owned() {
        match parse_turn_payload(p) {
            Some((thread_id, turn)) => Some(
                ServerNotification::TurnCompleted(TurnCompletedNotification { thread_id, turn }),
            ),
            None => None,
        }
    } else if *method == "item/started".to_owned() {
        match parse_item_payload(p) {
            Some((item, thread_id, turn_id)) => Some(
                ServerNotification::ItemStarted(
                    ItemStartedNotification { item, thread_id, turn_id },
                ),
            ),
            None => None,
        }
    } else if *method == "item/completed".to_owned() {
        match parse_item_payload(p) {
            Some((item, thread_id, turn_id)) => Some(
                ServerNotification::ItemCompleted(
                    ItemCompletedNotification { item, thread_id, turn_id },
                ),
            ),
            None => None,
        }
    } else if *method == "item/agentMessageDelta".to_owned() {
        match parse_delta_payload(p) {
            Some(d) => Some(ServerNotification::ItemAgentMessageDelta(d)),
            None => None,
        }
    } else if *method == "item/reasoningTextDelta".to_owned() {
        match parse_delta_payload(p) {
            Some(d) => Some(ServerNotification::ItemReasoningTextDelta(d)),
            None => None,
        }
    } else if *method == "item/reasoningSummaryTextDelta".to_owned() {
        match parse_delta_payload(p) {
            Some(d) => Some(ServerNotification::ItemReasoningSummaryTextDelta(d)),
            None => None,
        }
    } else if *method == "item/commandExecutionOutputDelta".to_owned() {
        match parse_delta_payload(p) {
            Some(d) => Some(ServerNotification::ItemCommandExecutionOutputDelta(d)),
            None => None,
        }
    } else if *method == "item/fileChangeOutputDelta".to_owned() {
        match parse_delta_payload(p) {
            Some(d) => Some(ServerNotification::ItemFileChangeOutputDelta(d)),
            None => None,
        }
    } else if *method == "error".to_owned() {
        match parse_error_payload(p) {
            Some(e) => Some(ServerNotification::Error(e)),
            None => None,
        }
    } else if *method == "thread/tokenUsageUpdated".to_owned() {
        match parse_aux_payload(p) {
            Some(a) => Some(ServerNotification::ThreadTokenUsageUpdated(a)),
            None => None,
        }
    } else if *method == "turn/diffUpdated".to_owned() {
        match parse_aux_payload(p) {
            Some(a) => Some(ServerNotification::TurnDiffUpdated(a)),
            None => None,
        }
    } else if *method == "turn/planUpdated".to_owned() {
        match parse_aux_payload(p) {
            Some(a) => Some(ServerNotification::TurnPlanUpdated(a)),
            None => None,
        }
    } else if *method == "item/commandExecutionTerminalInteraction".to_owned() {
        match parse_aux_payload(p) {
            Some(a) => Some(ServerNotification::ItemCommandExecutionTerminalInteraction(a)),
            None => None,
        }
    } else if *method == "item/mcpToolCallProgress".to_owned() {
        match parse_aux_payload(p) {
            Some(a) => Some(ServerNotification::ItemMcpToolCallProgress(a)),
            None => None,
        }
    } else if *method == "item/reasoningSummaryPartAdded".to_owned() {
        match parse_aux_payload(p) {
            Some(a) => Some(ServerNotification::ItemReasoningSummaryPartAdded(a)),
            None => None,
        }
    } else if *method == "thread/compacted".to_owned() {
        match parse_aux_payload(p) {
            Some(a) => Some(ServerNotification::ThreadCompacted(a)),
            None => None,
        }
    } else if *method == "account/updated".to_owned() {
        Some(ServerNotification::AccountUpdated(json_clone(p)))
    } else if *method == "account/rateLimitsUpdated".to_owned() {
        Some(ServerNotification::AccountRateLimitsUpdated(json_clone(p)))
    } else if *method == "account/loginCompleted".to_owned() {
        Some(ServerNotification::AccountLoginCompleted(json_clone(p)))
    } else if *method == "mcpServer/oauthLoginCompleted".to_owned() {
        Some(ServerNotification::McpServerOauthLoginCompleted(json_clone(p)))
    } else if *method == "authStatusChange".to_owned() {
        Some(ServerNotification::AuthStatusChange(json_clone(p)))
    } else if *method == "loginChatGptComplete".to_owned() {
        Some(ServerNotification::LoginChatGptComplete(json_clone(p)))
    } else if *method == "sessionConfigured".to_owned() {
        Some(ServerNotification::SessionConfigured(json_clone(p)))
    } else if *method == "deprecationNotice".to_owned() {
        Some(ServerNotification::DeprecationNotice(json_clone(p)))
    } else if *method == "configWarning".to_owned() {
        Some(ServerNotification::ConfigWarning(json_clone(p)))
    } else if *method == "windowsWorldWritableWarning".to_owned() {
        Some(ServerNotification::WindowsWorldWritableWarning(json_clone(p)))
    } else if *method == "rawResponseItemCompleted".to_owned() {
        Some(ServerNotification::RawResponseItemCompleted(json_clone(p)))
    } else {
        None
    }
}

} // verus!
