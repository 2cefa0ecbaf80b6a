//! The Codex backend adapter.
//!
//! `notification_to_universal` projects every notification variant into a
//! defined conversion envelope — it is total and never fails.
//! `universal_event_to_codex` is the partial, best-effort reverse mapping.
//! Both are pure functions; each exec function's result is pinned to a spec
//! mirror over the ghost views.

use vstd::prelude::*;
use vstd::string::StringExecFns;
use crate::json::{JsonValue, JsonData, json_clone, json_data_entries, json_data_seq_props,
    json_data_entries_props};
use crate::codex::{
    UserInput, UserInputView, FileUpdateChangeView, ThreadItem, ThreadItemView, Thread,
    TurnError, TurnErrorView, ThreadStartedNotification, TurnStartedNotification,
    TurnCompletedNotification, ItemStartedNotification, ItemCompletedNotification,
    ItemCompletedNotificationView, ItemDeltaNotification, ItemDeltaNotificationView,
    ErrorNotification, ErrorNotificationView, ThreadAuxNotification, ThreadAuxNotificationView,
    ServerNotification, ServerNotificationView, spec_command_status_name, spec_patch_status_name,
    spec_mcp_status_name, spec_collab_status_name, spec_collab_tool_name, command_status_name,
    patch_status_name, mcp_status_name, collab_status_name, collab_tool_name,
};
use crate::model::{
    AttachmentSource, AttachmentSourceView, UniversalMessagePart, UniversalMessagePartView,
    UniversalMessageParsed, UniversalMessageParsedView, UniversalMessage, UniversalMessageView,
    Started, StartedView, CrashInfo, CrashInfoView, UniversalEventData, UniversalEventDataView,
    EventConversion, EventConversionView, ConversionError, message_wf, event_data_wf,
};
use crate::wire::{
    spec_texts_json, spec_user_input_json, spec_file_change_json, spec_mcp_error_json,
    spec_thread_json, spec_turn_json, spec_error_params, spec_notification_json, user_input_json,
    file_change_json, mcp_error_json, thread_json, turn_json, error_params, notification_to_json,
};

verus! {

broadcast use json_data_seq_props, json_data_entries_props;

// ---------------------------------------------------------------------------
// item-to-message mapping, ghost side

/// One user-input block as a message part.
pub open spec fn spec_user_input_part(u: UserInputView) -> UniversalMessagePartView {
    match u {
        UserInputView::Text { text, .. } => UniversalMessagePartView::Text { text: text },
        UserInputView::Image { image_url } => UniversalMessagePartView::Image {
            source: AttachmentSourceView::Url { url: image_url },
            mime_type: None,
            alt: None,
            raw: None,
        },
        UserInputView::LocalImage { path } => UniversalMessagePartView::Image {
            source: AttachmentSourceView::Path { path: path },
            mime_type: None,
            alt: None,
            raw: None,
        },
        UserInputView::Skill { .. } => UniversalMessagePartView::Unknown {
            raw: spec_user_input_json(u),
        },
    }
}

/// The canonical message an item converts to.
pub open spec fn spec_item_to_message(it: ThreadItemView) -> UniversalMessageView {
    match it {
        ThreadItemView::UserMessage { content, id } => UniversalMessageView::Parsed(
            UniversalMessageParsedView {
                role: "user"@,
                id: Some(id),
                metadata: seq![("itemType"@, JsonData::Text("userMessage"@))],
                parts: content.map_values(|u: UserInputView| spec_user_input_part(u)),
            },
        ),
        ThreadItemView::AgentMessage { id, text } => UniversalMessageView::Parsed(
            UniversalMessageParsedView {
                role: "assistant"@,
                id: Some(id),
                metadata: seq![("itemType"@, JsonData::Text("agentMessage"@))],
                parts: seq![UniversalMessagePartView::Text { text: text }],
            },
        ),
        ThreadItemView::Reasoning { content, id, summary } => UniversalMessageView::Parsed(
            UniversalMessageParsedView {
                role: "assistant"@,
                id: Some(id),
                metadata: if summary.len() > 0 {
                    seq![
                        ("itemType"@, JsonData::Text("reasoning"@)),
                        ("summary"@, spec_texts_json(summary)),
                    ]
                } else {
                    seq![("itemType"@, JsonData::Text("reasoning"@))]
                },
                parts: content.map_values(|t: Seq<char>| UniversalMessagePartView::Text { text: t }),
            },
        ),
        ThreadItemView::CommandExecution {
            aggregated_output,
            command,
            cwd,
            duration_ms,
            exit_code,
            id,
            status,
            ..
        } => UniversalMessageView::Parsed(
            UniversalMessageParsedView {
                role: "assistant"@,
                id: Some(id),
                metadata: {
                    let base = seq![
                        ("itemType"@, JsonData::Text("commandExecution"@)),
                        ("command"@, JsonData::Text(command)),
                        ("cwd"@, JsonData::Text(cwd)),
                        ("status"@, JsonData::Text(spec_command_status_name(status))),
                    ];
                    let with_code = if exit_code is Some {
                        base.push(("exitCode"@, JsonData::Int(exit_code->0 as int)))
                    } else {
                        base
                    };
                    if duration_ms is Some {
                        with_code.push(("durationMs"@, JsonData::Int(duration_ms->0 as int)))
                    } else {
                        with_code
                    }
                },
                parts: match aggregated_output {
                    Some(out) => seq![UniversalMessagePartView::Text { text: out }],
                    None => Seq::empty(),
                },
            },
        ),
        ThreadItemView::FileChange { changes, id, status } => UniversalMessageView::Parsed(
            UniversalMessageParsedView {
                role: "assistant"@,
                id: Some(id),
                metadata: seq![
                    ("itemType"@, JsonData::Text("fileChange"@)),
                    ("status"@, JsonData::Text(spec_patch_status_name(status))),
                ],
                parts: changes.map_values(
                    |c: FileUpdateChangeView| UniversalMessagePartView::Unknown {
                        raw: spec_file_change_json(c),
                    },
                ),
            },
        ),
        ThreadItemView::McpToolCall {
            arguments,
            error,
            id,
            result,
            server,
            status,
            tool,
            ..
        } => UniversalMessageView::Parsed(
            UniversalMessageParsedView {
                role: "assistant"@,
                id: Some(id),
                metadata: seq![
                    ("itemType"@, JsonData::Text("mcpToolCall"@)),
                    ("server"@, JsonData::Text(server)),
                    ("status"@, JsonData::Text(spec_mcp_status_name(status))),
                ],
                parts: seq![
                    UniversalMessagePartView::ToolCall {
                        id: Some(id),
                        name: tool,
                        input: arguments,
                    },
                    UniversalMessagePartView::ToolResult {
                        id: Some(id),
                        name: Some(tool),
                        output: match result {
                            Some(r) => r,
                            None => match error {
                                Some(e) => spec_mcp_error_json(e),
                                None => JsonData::Null,
                            },
                        },
                        is_error: Some(error is Some),
                    },
                ],
            },
        ),
        ThreadItemView::CollabAgentToolCall {
            id,
            prompt,
            sender_thread_id,
            status,
            tool,
            ..
        } => UniversalMessageView::Parsed(
            UniversalMessageParsedView {
                role: "assistant"@,
                id: Some(id),
                metadata: seq![
                    ("itemType"@, JsonData::Text("collabAgentToolCall"@)),
                    ("tool"@, JsonData::Text(spec_collab_tool_name(tool))),
                    ("senderThreadId"@, JsonData::Text(sender_thread_id)),
                    ("status"@, JsonData::Text(spec_collab_status_name(status))),
                ],
                parts: match prompt {
                    Some(p) => seq![UniversalMessagePartView::Text { text: p }],
                    None => Seq::empty(),
                },
            },
        ),
        ThreadItemView::WebSearch { id, query } => UniversalMessageView::Parsed(
            UniversalMessageParsedView {
                role: "assistant"@,
                id: Some(id),
                metadata: seq![("itemType"@, JsonData::Text("webSearch"@))],
                parts: seq![UniversalMessagePartView::Text { text: query }],
            },
        ),
        ThreadItemView::ImageView { id, path } => UniversalMessageView::Parsed(
            UniversalMessageParsedView {
                role: "assistant"@,
                id: Some(id),
                metadata: seq![("itemType"@, JsonData::Text("imageView"@))],
                parts: seq![
                    UniversalMessagePartView::Image {
                        source: AttachmentSourceView::Path { path: path },
                        mime_type: None,
                        alt: None,
                        raw: None,
                    },
                ],
            },
        ),
        ThreadItemView::EnteredReviewMode { id, review } => UniversalMessageView::Parsed(
            UniversalMessageParsedView {
                role: "assistant"@,
                id: Some(id),
                metadata: seq![
                    ("itemType"@, JsonData::Text("enteredReviewMode"@)),
                    ("review"@, JsonData::Text(review)),
                ],
                parts: Seq::empty(),
            },
        ),
        ThreadItemView::ExitedReviewMode { id, review } => UniversalMessageView::Parsed(
            UniversalMessageParsedView {
                role: "assistant"@,
                id: Some(id),
                metadata: seq![
                    ("itemType"@, JsonData::Text("exitedReviewMode"@)),
                    ("review"@, JsonData::Text(review)),
                ],
                parts: Seq::empty(),
            },
        ),
    }
}

// ---------------------------------------------------------------------------
// item-to-message mapping, executable side

fn user_input_to_part(input: &UserInput) -> (r: UniversalMessagePart)
    ensures
        r.deep_view() == spec_user_input_part(input.deep_view()),
{
    match input {
        UserInput::Text { text, .. } => UniversalMessagePart::Text { text: text.clone() },
        UserInput::Image { image_url } => UniversalMessagePart::Image {
            source: AttachmentSource::Url { url: image_url.clone() },
            mime_type: None,
            alt: None,
            raw: None,
        },
        UserInput::LocalImage { path } => UniversalMessagePart::Image {
            source: AttachmentSource::Path { path: path.clone() },
            mime_type: None,
            alt: None,
            raw: None,
        },
        UserInput::Skill { .. } => UniversalMessagePart::Unknown { raw: user_input_json(input) },
    }
}

/// Convert one thread item to a universal message. Metadata keys are unique
/// in the result.
pub fn thread_item_to_message(item: &ThreadItem) -> (m: UniversalMessage)
    ensures
        m.deep_view() == spec_item_to_message(item.deep_view()),
        message_wf(m.deep_view()),
{
    let m = thread_item_to_message_inner(item);
    proof {
        lemma_item_message_wf(item.deep_view());
    }
    m
}

fn thread_item_to_message_inner(item: &ThreadItem) -> (m: UniversalMessage)
    ensures
        m.deep_view() == spec_item_to_message(item.deep_view()),
{
    match item {
        ThreadItem::UserMessage { content, id } => {
            let mut parts: Vec<UniversalMessagePart> = Vec::new();
            let mut i: usize = 0;
            while i < content.len()
                invariant
                    i <= content.len(),
                    parts@.len() == i as int,
                    forall|j: int| 0 <= j < i ==> parts@[j].deep_view() == spec_user_input_part(
                        content@[j].deep_view(),
                    ),
                decreases content.len() - i,
            {
                parts.push(user_input_to_part(&content[i]));
                i = i + 1;
            }
            let mut metadata: Vec<(String, JsonValue)> = Vec::new();
            metadata.push(("itemType".to_owned(), JsonValue::Text("userMessage".to_owned())));
            let m = UniversalMessage::Parsed(UniversalMessageParsed {
                role: "user".to_owned(),
                id: Some(id.clone()),
                metadata,
                parts,
            });
            proof {
                assert(m.deep_view()->Parsed_0.parts =~= content.deep_view().map_values(
                    |u: UserInputView| spec_user_input_part(u),
                ));
                assert(m.deep_view()->Parsed_0.metadata
                    =~= spec_item_to_message(item.deep_view())->Parsed_0.metadata);
                assert(m.deep_view() =~= spec_item_to_message(item.deep_view()));
            }
            m
        },
        ThreadItem::AgentMessage { id, text } => {
            let mut metadata: Vec<(String, JsonValue)> = Vec::new();
            metadata.push(("itemType".to_owned(), JsonValue::Text("agentMessage".to_owned())));
            let mut parts: Vec<UniversalMessagePart> = Vec::new();
            parts.push(UniversalMessagePart::Text { text: text.clone() });
            let m = UniversalMessage::Parsed(UniversalMessageParsed {
                role: "assistant".to_owned(),
                id: Some(id.clone()),
                metadata,
                parts,
            });
            proof {
                assert(m.deep_view() =~= spec_item_to_message(item.deep_view()));
            }
            m
        },
        ThreadItem::Reasoning { content, id, summary } => {
            let mut metadata: Vec<(String, JsonValue)> = Vec::new();
            metadata.push(("itemType".to_owned(), JsonValue::Text("reasoning".to_owned())));
            if summary.len() > 0 {
                metadata.push(("summary".to_owned(), crate::wire::texts_json(summary)));
            }
            let mut parts: Vec<UniversalMessagePart> = Vec::new();
            let mut i: usize = 0;
            while i < content.len()
                invariant
                    i <= content.len(),
                    parts@.len() == i as int,
                    forall|j: int| 0 <= j < i ==> parts@[j].deep_view()
                        == (UniversalMessagePartView::Text { text: content@[j]@ }),
                decreases content.len() - i,
            {
                parts.push(UniversalMessagePart::Text { text: content[i].clone() });
                i = i + 1;
            }
            let m = UniversalMessage::Parsed(UniversalMessageParsed {
                role: "assistant".to_owned(),
                id: Some(id.clone()),
                metadata,
                parts,
            });
            proof {
                assert(m.deep_view()->Parsed_0.parts =~= content.deep_view().map_values(
                    |t: Seq<char>| UniversalMessagePartView::Text { text: t },
                ));
                assert(m.deep_view()->Parsed_0.metadata
                    =~= spec_item_to_message(item.deep_view())->Parsed_0.metadata);
                assert(m.deep_view() =~= spec_item_to_message(item.deep_view()));
            }
            m
        },
        ThreadItem::CommandExecution {
            aggregated_output,
            command,
            cwd,
            duration_ms,
            exit_code,
            id,
            status,
            ..
        } => {
            let mut metadata: Vec<(String, JsonValue)> = Vec::new();
            metadata.push(("itemType".to_owned(), JsonValue::Text("commandExecution".to_owned())));
            metadata.push(("command".to_owned(), JsonValue::Text(command.clone())));
            metadata.push(("cwd".to_owned(), JsonValue::Text(cwd.clone())));
            metadata.push((
                "status".to_owned(),
                JsonValue::Text(command_status_name(status).to_owned()),
            ));
            if let Some(code) = exit_code {
                metadata.push(("exitCode".to_owned(), JsonValue::Int(*code as i64)));
            }
            if let Some(ms) = duration_ms {
                metadata.push(("durationMs".to_owned(), JsonValue::Int(*ms)));
            }
            let mut parts: Vec<UniversalMessagePart> = Vec::new();
            if let Some(out) = aggregated_output {
                parts.push(UniversalMessagePart::Text { text: out.clone() });
            }
            let m = UniversalMessage::Parsed(UniversalMessageParsed {
                role: "assistant".to_owned(),
                id: Some(id.clone()),
                metadata,
                parts,
            });
            proof {
                assert(m.deep_view()->Parsed_0.metadata
                    =~= spec_item_to_message(item.deep_view())->Parsed_0.metadata);
                assert(m.deep_view()->Parsed_0.parts
                    =~= spec_item_to_message(item.deep_view())->Parsed_0.parts);
                assert(m.deep_view() =~= spec_item_to_message(item.deep_view()));
            }
            m
        },
        ThreadItem::FileChange { changes, id, status } => {
            let mut metadata: Vec<(String, JsonValue)> = Vec::new();
            metadata.push(("itemType".to_owned(), JsonValue::Text("fileChange".to_owned())));
            metadata.push((
                "status".to_owned(),
                JsonValue::Text(patch_status_name(status).to_owned()),
            ));
            let mut parts: Vec<UniversalMessagePart> = Vec::new();
            let mut i: usize = 0;
            while i < changes.len()
                invariant
                    i <= changes.len(),
                    parts@.len() == i as int,
                    forall|j: int| 0 <= j < i ==> parts@[j].deep_view()
                        == (UniversalMessagePartView::Unknown {
                            raw: spec_file_change_json(changes@[j].deep_view()),
                        }),
                decreases changes.len() - i,
            {
                parts.push(UniversalMessagePart::Unknown { raw: file_change_json(&changes[i]) });
                i = i + 1;
            }
            let m = UniversalMessage::Parsed(UniversalMessageParsed {
                role: "assistant".to_owned(),
                id: Some(id.clone()),
                metadata,
                parts,
            });
            proof {
                assert(m.deep_view()->Parsed_0.parts =~= changes.deep_view().map_values(
                    |c: FileUpdateChangeView| UniversalMessagePartView::Unknown {
                        raw: spec_file_change_json(c),
                    },
                ));
                assert(m.deep_view()->Parsed_0.metadata
                    =~= spec_item_to_message(item.deep_view())->Parsed_0.metadata);
                assert(m.deep_view() =~= spec_item_to_message(item.deep_view()));
            }
            m
        },
        ThreadItem::McpToolCall {
            arguments,
            error,
            id,
            result,
            server,
            status,
            tool,
            ..
        } => {
            let mut metadata: Vec<(String, JsonValue)> = Vec::new();
            metadata.push(("itemType".to_owned(), JsonValue::Text("mcpToolCall".to_owned())));
            metadata.push(("server".to_owned(), JsonValue::Text(server.clone())));
            metadata.push((
                "status".to_owned(),
                JsonValue::Text(mcp_status_name(status).to_owned()),
            ));
            let is_error = error.is_some();
            let output = match result {
                Some(r) => json_clone(r),
                None => match error {
                    Some(e) => mcp_error_json(e),
                    None => JsonValue::Null,
                },
            };
            let mut parts: Vec<UniversalMessagePart> = Vec::new();
            parts.push(UniversalMessagePart::ToolCall {
                id: Some(id.clone()),
                name: tool.clone(),
                input: json_clone(arguments),
            });
            parts.push(UniversalMessagePart::ToolResult {
                id: Some(id.clone()),
                name: Some(tool.clone()),
                output,
                is_error: Some(is_error),
            });
            let m = UniversalMessage::Parsed(UniversalMessageParsed {
                role: "assistant".to_owned(),
                id: Some(id.clone()),
                metadata,
                parts,
            });
            proof {
                assert(m.deep_view()->Parsed_0.metadata
                    =~= spec_item_to_message(item.deep_view())->Parsed_0.metadata);
                assert(m.deep_view()->Parsed_0.parts
                    =~= spec_item_to_message(item.deep_view())->Parsed_0.parts);
                assert(m.deep_view() =~= spec_item_to_message(item.deep_view()));
            }
            m
        },
        ThreadItem::CollabAgentToolCall {
            id,
            prompt,
            sender_thread_id,
            status,
            tool,
            ..
        } => {
            let mut metadata: Vec<(String, JsonValue)> = Vec::new();
            metadata.push((
                "itemType".to_owned(),
                JsonValue::Text("collabAgentToolCall".to_owned()),
            ));
            metadata.push(("tool".to_owned(), JsonValue::Text(collab_tool_name(tool).to_owned())));
            metadata.push(("senderThreadId".to_owned(), JsonValue::Text(sender_thread_id.clone())));
            metadata.push((
                "status".to_owned(),
                JsonValue::Text(collab_status_name(status).to_owned()),
            ));
            let mut parts: Vec<UniversalMessagePart> = Vec::new();
            if let Some(p) = prompt {
                parts.push(UniversalMessagePart::Text { text: p.clone() });
            }
            let m = UniversalMessage::Parsed(UniversalMessageParsed {
                role: "assistant".to_owned(),
                id: Some(id.clone()),
                metadata,
                parts,
            });
            proof {
                assert(m.deep_view()->Parsed_0.metadata
                    =~= spec_item_to_message(item.deep_view())->Parsed_0.metadata);
                assert(m.deep_view()->Parsed_0.parts
                    =~= spec_item_to_message(item.deep_view())->Parsed_0.parts);
                assert(m.deep_view() =~= spec_item_to_message(item.deep_view()));
            }
            m
        },
        ThreadItem::WebSearch { id, query } => {
            let mut metadata: Vec<(String, JsonValue)> = Vec::new();
            metadata.push(("itemType".to_owned(), JsonValue::Text("webSearch".to_owned())));
            let mut parts: Vec<UniversalMessagePart> = Vec::new();
            parts.push(UniversalMessagePart::Text { text: query.clone() });
            let m = UniversalMessage::Parsed(UniversalMessageParsed {
                role: "assistant".to_owned(),
                id: Some(id.clone()),
                metadata,
                parts,
            });
            proof {
                assert(m.deep_view() =~= spec_item_to_message(item.deep_view()));
            }
            m
        },
        ThreadItem::ImageView { id, path } => {
            let mut metadata: Vec<(String, JsonValue)> = Vec::new();
            metadata.push(("itemType".to_owned(), JsonValue::Text("imageView".to_owned())));
            let mut parts: Vec<UniversalMessagePart> = Vec::new();
            parts.push(UniversalMessagePart::Image {
                source: AttachmentSource::Path { path: path.clone() },
                mime_type: None,
                alt: None,
                raw: None,
            });
            let m = UniversalMessage::Parsed(UniversalMessageParsed {
                role: "assistant".to_owned(),
                id: Some(id.clone()),
                metadata,
                parts,
            });
            proof {
                assert(m.deep_view() =~= spec_item_to_message(item.deep_view()));
            }
            m
        },
        ThreadItem::EnteredReviewMode { id, review } => {
            let m = review_mode_message(id, review, true);
            proof {
                assert(m.deep_view() =~= spec_item_to_message(item.deep_view()));
            }
            m
        },
        ThreadItem::ExitedReviewMode { id, review } => {
            let m = review_mode_message(id, review, false);
            proof {
                assert(m.deep_view() =~= spec_item_to_message(item.deep_view()));
            }
            m
        },
    }
}

/// Review-mode entry and exit share one mapping; `entered` only changes the
/// `itemType` tag.
fn review_mode_message(id: &String, review: &String, entered: bool) -> (m: UniversalMessage)
    ensures
        m.deep_view() == (UniversalMessageView::Parsed(
            UniversalMessageParsedView {
                role: "assistant"@,
                id: Some(id@),
                metadata: seq![
                    (
                        "itemType"@,
                        JsonData::Text(
                            if entered {
                                "enteredReviewMode"@
                            } else {
                                "exitedReviewMode"@
                            },
                        ),
                    ),
                    ("review"@, JsonData::Text(review@)),
                ],
                parts: Seq::empty(),
            },
        )),
{
    let item_type: &'static str = if entered {
        "enteredReviewMode"
    } else {
        "exitedReviewMode"
    };
    let mut metadata: Vec<(String, JsonValue)> = Vec::new();
    metadata.push(("itemType".to_owned(), JsonValue::Text(item_type.to_owned())));
    metadata.push(("review".to_owned(), JsonValue::Text(review.clone())));
    let m = UniversalMessage::Parsed(UniversalMessageParsed {
        role: "assistant".to_owned(),
        id: Some(id.clone()),
        metadata,
        parts: Vec::new(),
    });
    proof {
        assert(m.deep_view()->Parsed_0.parts =~= Seq::<UniversalMessagePartView>::empty());
        assert(m.deep_view()->Parsed_0.metadata =~= seq![
            (
                "itemType"@,
                JsonData::Text(if entered { "enteredReviewMode"@ } else { "exitedReviewMode"@ }),
            ),
            ("review"@, JsonData::Text(review@)),
        ]);
    }
    m
}

// ---------------------------------------------------------------------------
// metadata keys are unique

/// The distinct metadata key literals, spelled out once.
proof fn lemma_metadata_key_facts()
    ensures
        "itemType"@ != "command"@,
        "itemType"@ != "cwd"@,
        "itemType"@ != "status"@,
        "itemType"@ != "exitCode"@,
        "itemType"@ != "durationMs"@,
        "command"@ != "cwd"@,
        "command"@ != "status"@,
        "command"@ != "exitCode"@,
        "command"@ != "durationMs"@,
        "cwd"@ != "status"@,
        "cwd"@ != "exitCode"@,
        "cwd"@ != "durationMs"@,
        "status"@ != "exitCode"@,
        "status"@ != "durationMs"@,
        "exitCode"@ != "durationMs"@,
        "itemType"@ != "summary"@,
        "itemType"@ != "server"@,
        "server"@ != "status"@,
        "itemType"@ != "tool"@,
        "itemType"@ != "senderThreadId"@,
        "tool"@ != "senderThreadId"@,
        "tool"@ != "status"@,
        "senderThreadId"@ != "status"@,
        "itemType"@ != "review"@,
        "delta"@ != "itemType"@,
        "delta"@ != "turnId"@,
        "itemType"@ != "turnId"@,
{
    reveal_strlit("itemType");
    reveal_strlit("command");
    reveal_strlit("cwd");
    reveal_strlit("status");
    reveal_strlit("exitCode");
    reveal_strlit("durationMs");
    reveal_strlit("summary");
    reveal_strlit("server");
    reveal_strlit("tool");
    reveal_strlit("senderThreadId");
    reveal_strlit("review");
    reveal_strlit("delta");
    reveal_strlit("turnId");
    assert("itemType"@.len() == 8);
    assert("command"@.len() == 7);
    assert("cwd"@.len() == 3);
    assert("status"@.len() == 6);
    assert("exitCode"@.len() == 8);
    assert("durationMs"@.len() == 10);
    assert("summary"@.len() == 7);
    assert("server"@.len() == 6);
    assert("tool"@.len() == 4);
    assert("senderThreadId"@.len() == 14);
    assert("review"@.len() == 6);
    assert("delta"@.len() == 5);
    assert("turnId"@.len() == 6);
    assert("itemType"@[0] == 'i');
    assert("exitCode"@[0] == 'e');
    assert("status"@[0] == 's');
    assert("server"@[0] == 's');
    assert("status"@[1] == 't');
    assert("server"@[1] == 'e');
    assert("turnId"@[0] == 't');
    assert("review"@[0] == 'r');
}

/// Every message an item converts to is well formed: its metadata keys are
/// unique.
pub proof fn lemma_item_message_wf(it: ThreadItemView)
    ensures
        message_wf(spec_item_to_message(it)),
{
    lemma_metadata_key_facts();
}

} // verus!

verus! {

// ---------------------------------------------------------------------------
// forward conversion, ghost side

/// The single-`Text`-part message a streaming delta converts to. Deltas
/// convert independently; this layer never buffers or merges them.
pub open spec fn spec_delta_message(
    p: ItemDeltaNotificationView,
    item_type: Option<Seq<char>>,
) -> UniversalMessageView {
    UniversalMessageView::Parsed(
        UniversalMessageParsedView {
            role: "assistant"@,
            id: Some(p.item_id),
            metadata: match item_type {
                None => seq![
                    ("delta"@, JsonData::Bool(true)),
                    ("turnId"@, JsonData::Text(p.turn_id)),
                ],
                Some(t) => seq![
                    ("delta"@, JsonData::Bool(true)),
                    ("itemType"@, JsonData::Text(t)),
                    ("turnId"@, JsonData::Text(p.turn_id)),
                ],
            },
            parts: seq![UniversalMessagePartView::Text { text: p.delta }],
        },
    )
}

/// The conversion envelope every notification maps to: a total function of
/// the notification alone.
pub open spec fn spec_notification_to_universal(n: ServerNotificationView) -> EventConversionView {
    match n {
        ServerNotificationView::ThreadStarted(p) => EventConversionView {
            data: UniversalEventDataView::Started {
                started: StartedView {
                    message: Some("thread/started"@),
                    details: Some(spec_thread_json(p.thread)),
                },
            },
            session_id: Some(p.thread.id),
        },
        ServerNotificationView::TurnStarted(p) => EventConversionView {
            data: UniversalEventDataView::Started {
                started: StartedView {
                    message: Some("turn/started"@),
                    details: Some(spec_turn_json(p.turn)),
                },
            },
            session_id: Some(p.thread_id),
        },
        ServerNotificationView::TurnCompleted(p) => EventConversionView {
            data: if p.turn.items.len() == 0 {
                UniversalEventDataView::Unknown { raw: spec_notification_json(n) }
            } else {
                UniversalEventDataView::Message {
                    message: spec_item_to_message(p.turn.items.last()),
                }
            },
            session_id: Some(p.thread_id),
        },
        ServerNotificationView::ItemStarted(p) => EventConversionView {
            data: UniversalEventDataView::Message { message: spec_item_to_message(p.item) },
            session_id: Some(p.thread_id),
        },
        ServerNotificationView::ItemCompleted(p) => EventConversionView {
            data: UniversalEventDataView::Message { message: spec_item_to_message(p.item) },
            session_id: Some(p.thread_id),
        },
        ServerNotificationView::ItemAgentMessageDelta(p) => EventConversionView {
            data: UniversalEventDataView::Message {
                message: spec_delta_message(p, Some("agentMessage"@)),
            },
            session_id: Some(p.thread_id),
        },
        ServerNotificationView::ItemReasoningTextDelta(p) => EventConversionView {
            data: UniversalEventDataView::Message {
                message: spec_delta_message(p, Some("reasoning"@)),
            },
            session_id: Some(p.thread_id),
        },
        ServerNotificationView::ItemReasoningSummaryTextDelta(p) => EventConversionView {
            data: UniversalEventDataView::Message {
                message: spec_delta_message(p, Some("reasoning_summary"@)),
            },
            session_id: Some(p.thread_id),
        },
        ServerNotificationView::ItemCommandExecutionOutputDelta(p) => EventConversionView {
            data: UniversalEventDataView::Message {
                message: spec_delta_message(p, Some("commandExecution"@)),
            },
            session_id: Some(p.thread_id),
        },
        ServerNotificationView::ItemFileChangeOutputDelta(p) => EventConversionView {
            data: UniversalEventDataView::Message {
                message: spec_delta_message(p, Some("fileChange"@)),
            },
            session_id: Some(p.thread_id),
        },
        ServerNotificationView::Error(p) => EventConversionView {
            data: UniversalEventDataView::Error {
                error: CrashInfoView {
                    message: p.error.message,
                    kind: Some("error"@),
                    details: Some(spec_error_params(p)),
                },
            },
            session_id: Some(p.thread_id),
        },
        ServerNotificationView::ThreadTokenUsageUpdated(p) => spec_aux_unknown(n, p),
        ServerNotificationView::TurnDiffUpdated(p) => spec_aux_unknown(n, p),
        ServerNotificationView::TurnPlanUpdated(p) => spec_aux_unknown(n, p),
        ServerNotificationView::ItemCommandExecutionTerminalInteraction(p) => spec_aux_unknown(
            n,
            p,
        ),
        ServerNotificationView::ItemMcpToolCallProgress(p) => spec_aux_unknown(n, p),
        ServerNotificationView::ItemReasoningSummaryPartAdded(p) => spec_aux_unknown(n, p),
        ServerNotificationView::ThreadCompacted(p) => spec_aux_unknown(n, p),
        ServerNotificationView::AccountUpdated(_) => spec_admin_unknown(n),
        ServerNotificationView::AccountRateLimitsUpdated(_) => spec_admin_unknown(n),
        ServerNotificationView::AccountLoginCompleted(_) => spec_admin_unknown(n),
        ServerNotificationView::McpServerOauthLoginCompleted(_) => spec_admin_unknown(n),
        ServerNotificationView::AuthStatusChange(_) => spec_admin_unknown(n),
        ServerNotificationView::LoginChatGptComplete(_) => spec_admin_unknown(n),
        ServerNotificationView::SessionConfigured(_) => spec_admin_unknown(n),
        ServerNotificationView::DeprecationNotice(_) => spec_admin_unknown(n),
        ServerNotificationView::ConfigWarning(_) => spec_admin_unknown(n),
        ServerNotificationView::WindowsWorldWritableWarning(_) => spec_admin_unknown(n),
        ServerNotificationView::RawResponseItemCompleted(_) => spec_admin_unknown(n),
    }
}

/// An auxiliary notification degrades to `Unknown` but keeps its session.
pub open spec fn spec_aux_unknown(
    n: ServerNotificationView,
    p: ThreadAuxNotificationView,
) -> EventConversionView {
    EventConversionView {
        data: UniversalEventDataView::Unknown { raw: spec_notification_json(n) },
        session_id: Some(p.thread_id),
    }
}

/// An administrative notification degrades to `Unknown` with no session.
pub open spec fn spec_admin_unknown(n: ServerNotificationView) -> EventConversionView {
    EventConversionView {
        data: UniversalEventDataView::Unknown { raw: spec_notification_json(n) },
        session_id: None,
    }
}

// ---------------------------------------------------------------------------
// forward conversion, executable side

fn thread_started_to_universal(params: &ThreadStartedNotification) -> (r: EventConversion)
    ensures
        r.deep_view() == spec_notification_to_universal(
            ServerNotificationView::ThreadStarted(params.deep_view()),
        ),
{
    let started = Started {
        message: Some("thread/started".to_owned()),
        details: Some(thread_json(&params.thread)),
    };
    EventConversion::new(UniversalEventData::Started { started }).with_session(
        Some(params.thread.id.clone()),
    )
}

fn turn_started_to_universal(params: &TurnStartedNotification) -> (r: EventConversion)
    ensures
        r.deep_view() == spec_notification_to_universal(
            ServerNotificationView::TurnStarted(params.deep_view()),
        ),
{
    let started = Started {
        message: Some("turn/started".to_owned()),
        details: Some(turn_json(&params.turn)),
    };
    EventConversion::new(UniversalEventData::Started { started }).with_session(
        Some(params.thread_id.clone()),
    )
}

fn turn_completed_to_universal(params: &TurnCompletedNotification) -> (r: EventConversion)
    ensures
        r.deep_view() == spec_notification_to_universal(
            ServerNotificationView::TurnCompleted(params.deep_view()),
        ),
        event_data_wf(r.deep_view().data),
{
    let items = &params.turn.items;
    if items.len() == 0 {
        let raw = crate::wire::envelope_json(
            "turn/completed",
            crate::wire::turn_params(&params.thread_id, &params.turn),
        );
        EventConversion::new(UniversalEventData::Unknown { raw }).with_session(
            Some(params.thread_id.clone()),
        )
    } else {
        let message = thread_item_to_message(&items[items.len() - 1]);
        EventConversion::new(UniversalEventData::Message { message }).with_session(
            Some(params.thread_id.clone()),
        )
    }
}

/// Convert an item-started notification: the carried item becomes a message.
pub fn item_started_to_universal(params: &ItemStartedNotification) -> (r: EventConversion)
    ensures
        r.deep_view() == spec_notification_to_universal(
            ServerNotificationView::ItemStarted(params.deep_view()),
        ),
        event_data_wf(r.deep_view().data),
{
    let message = thread_item_to_message(&params.item);
    EventConversion::new(UniversalEventData::Message { message }).with_session(
        Some(params.thread_id.clone()),
    )
}

/// Convert an item-completed notification: the carried item becomes a message.
pub fn item_completed_to_universal(params: &ItemCompletedNotification) -> (r: EventConversion)
    ensures
        r.deep_view() == spec_notification_to_universal(
            ServerNotificationView::ItemCompleted(params.deep_view()),
        ),
        event_data_wf(r.deep_view().data),
{
    let message = thread_item_to_message(&params.item);
    EventConversion::new(UniversalEventData::Message { message }).with_session(
        Some(params.thread_id.clone()),
    )
}

/// The shared delta conversion; `item_type` is the `metadata.itemType` tag,
/// absent for plain agent-message deltas.
fn delta_to_universal(params: &ItemDeltaNotification, item_type: Option<&'static str>) -> (r:
    EventConversion)
    ensures
        r.deep_view() == (EventConversionView {
            data: UniversalEventDataView::Message {
                message: spec_delta_message(
                    params.deep_view(),
                    match item_type {
                        Some(t) => Some(t@),
                        None => None,
                    },
                ),
            },
            session_id: Some(params.thread_id@),
        }),
{
    let mut metadata: Vec<(String, JsonValue)> = Vec::new();
    metadata.push(("delta".to_owned(), JsonValue::Bool(true)));
    if let Some(t) = item_type {
        metadata.push(("itemType".to_owned(), JsonValue::Text(t.to_owned())));
    }
    metadata.push(("turnId".to_owned(), JsonValue::Text(params.turn_id.clone())));
    let mut parts: Vec<UniversalMessagePart> = Vec::new();
    parts.push(UniversalMessagePart::Text { text: params.delta.clone() });
    let message = UniversalMessage::Parsed(UniversalMessageParsed {
        role: "assistant".to_owned(),
        id: Some(params.item_id.clone()),
        metadata,
        parts,
    });
    proof {
        assert(message.deep_view()->Parsed_0.metadata =~= spec_delta_message(
            params.deep_view(),
            match item_type {
                Some(t) => Some(t@),
                None => None::<Seq<char>>,
            },
        )->Parsed_0.metadata);
        assert(message.deep_view()->Parsed_0.parts =~= spec_delta_message(
            params.deep_view(),
            match item_type {
                Some(t) => Some(t@),
                None => None::<Seq<char>>,
            },
        )->Parsed_0.parts);
    }
    EventConversion::new(UniversalEventData::Message { message }).with_session(
        Some(params.thread_id.clone()),
    )
}

fn agent_message_delta_to_universal(params: &ItemDeltaNotification) -> (r: EventConversion)
    ensures
        r.deep_view() == spec_notification_to_universal(
            ServerNotificationView::ItemAgentMessageDelta(params.deep_view()),
        ),
{
    delta_to_universal(params, Some("agentMessage"))
}

fn reasoning_text_delta_to_universal(params: &ItemDeltaNotification) -> (r: EventConversion)
    ensures
        r.deep_view() == spec_notification_to_universal(
            ServerNotificationView::ItemReasoningTextDelta(params.deep_view()),
        ),
{
    delta_to_universal(params, Some("reasoning"))
}

fn reasoning_summary_delta_to_universal(params: &ItemDeltaNotification) -> (r: EventConversion)
    ensures
        r.deep_view() == spec_notification_to_universal(
            ServerNotificationView::ItemReasoningSummaryTextDelta(params.deep_view()),
        ),
{
    delta_to_universal(params, Some("reasoning_summary"))
}

fn command_output_delta_to_universal(params: &ItemDeltaNotification) -> (r: EventConversion)
    ensures
        r.deep_view() == spec_notification_to_universal(
            ServerNotificationView::ItemCommandExecutionOutputDelta(params.deep_view()),
        ),
{
    delta_to_universal(params, Some("commandExecution"))
}

fn file_change_delta_to_universal(params: &ItemDeltaNotification) -> (r: EventConversion)
    ensures
        r.deep_view() == spec_notification_to_universal(
            ServerNotificationView::ItemFileChangeOutputDelta(params.deep_view()),
        ),
{
    delta_to_universal(params, Some("fileChange"))
}

fn error_notification_to_universal(params: &ErrorNotification) -> (r: EventConversion)
    ensures
        r.deep_view() == spec_notification_to_universal(
            ServerNotificationView::Error(params.deep_view()),
        ),
{
    let crash = CrashInfo {
        message: params.error.message.clone(),
        kind: Some("error".to_owned()),
        details: Some(error_params(params)),
    };
    EventConversion::new(UniversalEventData::Error { error: crash }).with_session(
        Some(params.thread_id.clone()),
    )
}

/// The shared auxiliary conversion: serialize the whole envelope into
/// `Unknown.raw` and keep the session.
fn aux_to_universal(method: &'static str, params: &ThreadAuxNotification) -> (r: EventConversion)
    ensures
        r.deep_view() == (EventConversionView {
            data: UniversalEventDataView::Unknown {
                raw: crate::wire::spec_envelope_json(
                    method@,
                    crate::wire::spec_aux_params(params.deep_view()),
                ),
            },
            session_id: Some(params.thread_id@),
        }),
{
    let raw = crate::wire::envelope_json(method, crate::wire::aux_params(params));
    EventConversion::new(UniversalEventData::Unknown { raw }).with_session(
        Some(params.thread_id.clone()),
    )
}

fn token_usage_to_universal(params: &ThreadAuxNotification) -> (r: EventConversion)
    ensures
        r.deep_view() == spec_notification_to_universal(
            ServerNotificationView::ThreadTokenUsageUpdated(params.deep_view()),
        ),
{
    aux_to_universal("thread/tokenUsageUpdated", params)
}

fn turn_diff_to_universal(params: &ThreadAuxNotification) -> (r: EventConversion)
    ensures
        r.deep_view() == spec_notification_to_universal(
            ServerNotificationView::TurnDiffUpdated(params.deep_view()),
        ),
{
    aux_to_universal("turn/diffUpdated", params)
}

fn turn_plan_to_universal(params: &ThreadAuxNotification) -> (r: EventConversion)
    ensures
        r.deep_view() == spec_notification_to_universal(
            ServerNotificationView::TurnPlanUpdated(params.deep_view()),
        ),
{
    aux_to_universal("turn/planUpdated", params)
}

fn terminal_interaction_to_universal(params: &ThreadAuxNotification) -> (r: EventConversion)
    ensures
        r.deep_view() == spec_notification_to_universal(
            ServerNotificationView::ItemCommandExecutionTerminalInteraction(params.deep_view()),
        ),
{
    aux_to_universal("item/commandExecutionTerminalInteraction", params)
}

fn mcp_progress_to_universal(params: &ThreadAuxNotification) -> (r: EventConversion)
    ensures
        r.deep_view() == spec_notification_to_universal(
            ServerNotificationView::ItemMcpToolCallProgress(params.deep_view()),
        ),
{
    aux_to_universal("item/mcpToolCallProgress", params)
}

fn reasoning_summary_part_to_universal(params: &ThreadAuxNotification) -> (r: EventConversion)
    ensures
        r.deep_view() == spec_notification_to_universal(
            ServerNotificationView::ItemReasoningSummaryPartAdded(params.deep_view()),
        ),
{
    aux_to_universal("item/reasoningSummaryPartAdded", params)
}

fn context_compacted_to_universal(params: &ThreadAuxNotification) -> (r: EventConversion)
    ensures
        r.deep_view() == spec_notification_to_universal(
            ServerNotificationView::ThreadCompacted(params.deep_view()),
        ),
{
    aux_to_universal("thread/compacted", params)
}

/// Convert a backend notification to a universal event. Total: every variant
/// of the union yields a defined conversion envelope, and every message it
/// produces is well formed.
pub fn notification_to_universal(notification: &ServerNotification) -> (r: EventConversion)
    ensures
        r.deep_view() == spec_notification_to_universal(notification.deep_view()),
        event_data_wf(r.deep_view().data),
{
    proof {
        lemma_event_wf(notification.deep_view());
    }
    match notification {
        ServerNotification::ThreadStarted(params) => thread_started_to_universal(params),
        ServerNotification::TurnStarted(params) => turn_started_to_universal(params),
        ServerNotification::TurnCompleted(params) => turn_completed_to_universal(params),
        ServerNotification::ItemStarted(params) => item_started_to_universal(params),
        ServerNotification::ItemCompleted(params) => item_completed_to_universal(params),
        ServerNotification::ItemAgentMessageDelta(params) => agent_message_delta_to_universal(
            params,
        ),
        ServerNotification::ItemReasoningTextDelta(params) => reasoning_text_delta_to_universal(
            params,
        ),
        ServerNotification::ItemReasoningSummaryTextDelta(params)
            => reasoning_summary_delta_to_universal(params),
        ServerNotification::ItemCommandExecutionOutputDelta(params)
            => command_output_delta_to_universal(params),
        ServerNotification::ItemFileChangeOutputDelta(params) => file_change_delta_to_universal(
            params,
        ),
        ServerNotification::Error(params) => error_notification_to_universal(params),
        ServerNotification::ThreadTokenUsageUpdated(params) => token_usage_to_universal(params),
        ServerNotification::TurnDiffUpdated(params) => turn_diff_to_universal(params),
        ServerNotification::TurnPlanUpdated(params) => turn_plan_to_universal(params),
        ServerNotification::ItemCommandExecutionTerminalInteraction(params)
            => terminal_interaction_to_universal(params),
        ServerNotification::ItemMcpToolCallProgress(params) => mcp_progress_to_universal(params),
        ServerNotification::ItemReasoningSummaryPartAdded(params)
            => reasoning_summary_part_to_universal(params),
        ServerNotification::ThreadCompacted(params) => context_compacted_to_universal(params),
        ServerNotification::AccountUpdated(_)
        | ServerNotification::AccountRateLimitsUpdated(_)
        | ServerNotification::AccountLoginCompleted(_)
        | ServerNotification::McpServerOauthLoginCompleted(_)
        | ServerNotification::AuthStatusChange(_)
        | ServerNotification::LoginChatGptComplete(_)
        | ServerNotification::SessionConfigured(_)
        | ServerNotification::DeprecationNotice(_)
        | ServerNotification::ConfigWarning(_)
        | ServerNotification::WindowsWorldWritableWarning(_)
        | ServerNotification::RawResponseItemCompleted(_) => EventConversion::new(
            UniversalEventData::Unknown { raw: notification_to_json(notification) },
        ),
    }
}

/// Every event the forward direction produces carries only well-formed
/// messages.
pub proof fn lemma_event_wf(n: ServerNotificationView)
    ensures
        event_data_wf(spec_notification_to_universal(n).data),
{
    lemma_metadata_key_facts();
    match n {
        ServerNotificationView::TurnCompleted(p) => {
            if p.turn.items.len() > 0 {
                lemma_item_message_wf(p.turn.items.last());
            }
        },
        ServerNotificationView::ItemStarted(p) => lemma_item_message_wf(p.item),
        ServerNotificationView::ItemCompleted(p) => lemma_item_message_wf(p.item),
        _ => {},
    }
}

} // verus!

verus! {

// ---------------------------------------------------------------------------
// reverse conversion, ghost side

/// The texts of the `Text` parts of a message, in order; other parts are
/// ignored by the reverse direction.
pub open spec fn spec_text_parts(parts: Seq<UniversalMessagePartView>) -> Seq<Seq<char>>
    decreases parts.len(),
{
    if parts.len() == 0 {
        Seq::empty()
    } else {
        let rest = spec_text_parts(parts.drop_last());
        match parts.last() {
            UniversalMessagePartView::Text { text } => rest.push(text),
            _ => rest,
        }
    }
}

/// Lines joined by a newline; empty input joins to the empty string.
pub open spec fn spec_join_lines(ts: Seq<Seq<char>>) -> Seq<char>
    decreases ts.len(),
{
    if ts.len() == 0 {
        Seq::empty()
    } else if ts.len() == 1 {
        ts[0]
    } else {
        spec_join_lines(ts.drop_last()) + "\n"@ + ts.last()
    }
}

/// First value under `key` in an object's entries.
pub open spec fn spec_entries_get(
    es: Seq<(Seq<char>, JsonData)>,
    key: Seq<char>,
) -> Option<JsonData>
    decreases es.len(),
{
    if es.len() == 0 {
        None
    } else if es[0].0 == key {
        Some(es[0].1)
    } else {
        spec_entries_get(es.drop_first(), key)
    }
}

/// Key lookup on a JSON value: `None` unless the value is an object that
/// holds the key.
pub open spec fn spec_obj_get(j: JsonData, key: Seq<char>) -> Option<JsonData> {
    match j {
        JsonData::Obj(es) => spec_entries_get(es, key),
        _ => None,
    }
}

/// The string under `key` in an optional detail object, when there is one.
pub open spec fn spec_details_text(d: Option<JsonData>, key: Seq<char>) -> Option<Seq<char>> {
    match d {
        Some(j) => match spec_obj_get(j, key) {
            Some(JsonData::Text(s)) => Some(s),
            _ => None,
        },
        None => None,
    }
}

/// Which canonical events have a reverse mapping at all: interpreted
/// messages and errors, nothing else.
pub open spec fn spec_reverse_supported(e: UniversalEventDataView) -> bool {
    match e {
        UniversalEventDataView::Message { message } => message is Parsed,
        UniversalEventDataView::Error { .. } => true,
        _ => false,
    }
}

/// The best-effort reverse mapping. Thread and turn correlation is lost in
/// the canonical model, so `"unknown"` stands in for both — a documented,
/// intentional loss of fidelity.
pub open spec fn spec_universal_event_to_codex(e: UniversalEventDataView) -> Result<
    ServerNotificationView,
    Seq<char>,
> {
    match e {
        UniversalEventDataView::Message { message } => match message {
            UniversalMessageView::Parsed(p) => Ok(
                ServerNotificationView::ItemCompleted(
                    ItemCompletedNotificationView {
                        item: ThreadItemView::AgentMessage {
                            id: match p.id {
                                Some(i) => i,
                                None => "msg"@,
                            },
                            text: spec_join_lines(spec_text_parts(p.parts)),
                        },
                        thread_id: "unknown"@,
                        turn_id: "unknown"@,
                    },
                ),
            ),
            UniversalMessageView::Unparsed { .. } => Err("unparsed message"@),
        },
        UniversalEventDataView::Error { error } => Ok(
            ServerNotificationView::Error(
                ErrorNotificationView {
                    error: TurnErrorView {
                        message: error.message,
                        additional_details: spec_details_text(error.details, "additionalDetails"@),
                        codex_error_info: None,
                    },
                    thread_id: "unknown"@,
                    turn_id: "unknown"@,
                    will_retry: false,
                },
            ),
        ),
        _ => Err("codex event type"@),
    }
}

// ---------------------------------------------------------------------------
// reverse conversion, executable side

/// Concatenate the `Text` parts of a message, joined by newlines.
fn join_text_parts(parts: &Vec<UniversalMessagePart>) -> (r: String)
    ensures
        r@ == spec_join_lines(spec_text_parts(parts.deep_view())),
{
    let mut acc = String::new();
    let mut first: bool = true;
    let mut i: usize = 0;
    while i < parts.len()
        invariant
            i <= parts.len(),
            acc@ == spec_join_lines(spec_text_parts(parts.deep_view().subrange(0, i as int))),
            first <==> spec_text_parts(parts.deep_view().subrange(0, i as int)).len() == 0,
        decreases parts.len() - i,
    {
        let ghost pre = parts.deep_view().subrange(0, i as int);
        let ghost post = parts.deep_view().subrange(0, i as int + 1);
        proof {
            assert(post.drop_last() =~= pre);
            assert(post.last() == parts.deep_view()[i as int]);
        }
        match &parts[i] {
            UniversalMessagePart::Text { text } => {
                proof {
                    assert(spec_text_parts(post) == spec_text_parts(pre).push(text@));
                }
                if first {
                    acc = text.clone();
                    first = false;
                    proof {
                        let ts = spec_text_parts(post);
                        assert(ts.len() == 1);
                        assert(ts[0] == text@);
                    }
                } else {
                    acc.append("\n");
                    acc.append(text.as_str());
                    proof {
                        let ts = spec_text_parts(post);
                        assert(ts.drop_last() =~= spec_text_parts(pre));
                        assert(ts.last() == text@);
                    }
                }
            },
            _ => {
                proof {
                    assert(spec_text_parts(post) == spec_text_parts(pre));
                }
            },
        }
        i = i + 1;
    }
    proof {
        assert(parts.deep_view().subrange(0, parts@.len() as int) =~= parts.deep_view());
    }
    acc
}

/// First string under `key` in an optional JSON detail object.
fn details_text(d: &Option<JsonValue>, key: &str) -> (r: Option<String>)
    ensures
        r.deep_view() == spec_details_text(d.deep_view(), key@),
{
    let k: String = key.to_owned();
    match d {
        Some(JsonValue::Obj(entries)) => {
            let ghost es = json_data_entries(entries@);
            proof {
                assert(es.subrange(0, es.len() as int) =~= es);
            }
            let mut i: usize = 0;
            while i < entries.len()
                invariant
                    *d is Some && d->0 is Obj && d->0->Obj_0 == *entries,
                    es == json_data_entries(entries@),
                    k@ == key@,
                    i <= entries.len(),
                    spec_entries_get(es, key@) == spec_entries_get(
                        es.subrange(i as int, es.len() as int),
                        key@,
                    ),
                decreases entries.len() - i,
            {
                let ghost sub = es.subrange(i as int, es.len() as int);
                proof {
                    assert(sub.len() > 0);
                    assert(sub[0] == es[i as int]);
                    assert(sub.drop_first() =~= es.subrange(i as int + 1, es.len() as int));
                }
                if entries[i].0 == k {
                    match &entries[i].1 {
                        JsonValue::Text(s) => {
                            return Some(s.clone());
                        },
                        _ => {
                            return None;
                        },
                    }
                }
                i = i + 1;
            }
            proof {
                assert(es.subrange(es.len() as int, es.len() as int) =~= Seq::<(
                    Seq<char>,
                    JsonData,
                )>::empty());
            }
            None
        },
        _ => None,
    }
}

/// Convert a universal event back to a backend notification, best effort.
/// Succeeds exactly on interpreted messages and on errors; everything else
/// is `Unsupported`, which is terminal for that event.
pub fn universal_event_to_codex(event: &UniversalEventData) -> (r: Result<
    ServerNotification,
    ConversionError,
>)
    ensures
        r is Ok <==> spec_reverse_supported(event.deep_view()),
        r is Ok ==> r->Ok_0.deep_view() == spec_universal_event_to_codex(event.deep_view())->Ok_0,
        r is Err ==> r->Err_0.deep_view() == spec_universal_event_to_codex(
            event.deep_view(),
        )->Err_0,
{
    match event {
        UniversalEventData::Message { message } => {
            let parsed = match message {
                UniversalMessage::Parsed(parsed) => parsed,
                UniversalMessage::Unparsed { .. } => {
                    return Err(ConversionError::Unsupported("unparsed message"));
                },
            };
            let text = join_text_parts(&parsed.parts);
            let id = match &parsed.id {
                Some(i) => i.clone(),
                None => "msg".to_owned(),
            };
            let item = ThreadItem::AgentMessage { id, text };
            Ok(
                ServerNotification::ItemCompleted(
                    ItemCompletedNotification {
                        item,
                        thread_id: "unknown".to_owned(),
                        turn_id: "unknown".to_owned(),
                    },
                ),
            )
        },
        UniversalEventData::Error { error } => {
            let turn_error = TurnError {
                message: error.message.clone(),
                additional_details: details_text(&error.details, "additionalDetails"),
                codex_error_info: None,
            };
            Ok(
                ServerNotification::Error(
                    ErrorNotification {
                        error: turn_error,
                        thread_id: "unknown".to_owned(),
                        turn_id: "unknown".to_owned(),
                        will_retry: false,
                    },
                ),
            )
        },
        _ => Err(ConversionError::Unsupported("codex event type")),
    }
}

} // verus!
