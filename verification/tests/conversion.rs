use universal_agent_schema::codex::{
    CollabAgentTool, CollabAgentToolCallStatus, CommandExecutionStatus, ErrorNotification,
    FileUpdateChange, ItemCompletedNotification, ItemDeltaNotification, ItemStartedNotification,
    McpToolCallError, McpToolCallStatus, PatchApplyStatus, ServerNotification, Thread,
    ThreadAuxNotification, ThreadItem, ThreadStartedNotification, Turn, TurnCompletedNotification,
    TurnError, TurnStartedNotification, UserInput,
};
use universal_agent_schema::json::JsonValue;
use universal_agent_schema::model::{
    ConversionError, UniversalEventData, UniversalMessage, UniversalMessagePart,
};
use universal_agent_schema::adapter::{
    item_completed_to_universal, item_started_to_universal, notification_to_universal,
    thread_item_to_message, universal_event_to_codex,
};

fn text(s: &str) -> JsonValue {
    JsonValue::Text(s.to_string())
}

fn obj_get<'a>(v: &'a JsonValue, key: &str) -> Option<&'a JsonValue> {
    match v {
        JsonValue::Obj(entries) => entries.iter().find(|(k, _)| k == key).map(|(_, val)| val),
        _ => None,
    }
}

fn agent_message_completed() -> ServerNotification {
    ServerNotification::ItemCompleted(ItemCompletedNotification {
        item: ThreadItem::AgentMessage {
            id: "msg-123".to_string(),
            text: "Hello from Codex".to_string(),
        },
        thread_id: "thread-123".to_string(),
        turn_id: "turn-456".to_string(),
    })
}

fn command_execution_item() -> ThreadItem {
    ThreadItem::CommandExecution {
        aggregated_output: Some("output".to_string()),
        command: "ls -la".to_string(),
        command_actions: vec![],
        cwd: "/tmp".to_string(),
        duration_ms: Some(100),
        exit_code: Some(0),
        id: "cmd-1".to_string(),
        process_id: None,
        status: CommandExecutionStatus::Completed,
    }
}

#[test]
fn agent_message_item_converts_to_assistant_message() {
    let conversion = notification_to_universal(&agent_message_completed());
    assert_eq!(conversion.session_id, Some("thread-123".to_string()));
    let message = match conversion.data {
        UniversalEventData::Message { message } => message,
        other => panic!("expected a message event, got {:?}", other),
    };
    let parsed = match message {
        UniversalMessage::Parsed(parsed) => parsed,
        other => panic!("expected a parsed message, got {:?}", other),
    };
    assert_eq!(parsed.role, "assistant");
    assert_eq!(parsed.id, Some("msg-123".to_string()));
    assert_eq!(
        parsed.metadata,
        vec![("itemType".to_string(), text("agentMessage"))]
    );
    assert_eq!(
        parsed.parts,
        vec![UniversalMessagePart::Text { text: "Hello from Codex".to_string() }]
    );
}

#[test]
fn command_execution_metadata_and_parts() {
    let message = thread_item_to_message(&command_execution_item());
    let parsed = match message {
        UniversalMessage::Parsed(parsed) => parsed,
        other => panic!("expected a parsed message, got {:?}", other),
    };
    assert_eq!(parsed.role, "assistant");
    assert_eq!(parsed.id, Some("cmd-1".to_string()));
    assert_eq!(
        parsed.metadata,
        vec![
            ("itemType".to_string(), text("commandExecution")),
            ("command".to_string(), text("ls -la")),
            ("cwd".to_string(), text("/tmp")),
            ("status".to_string(), text("Completed")),
            ("exitCode".to_string(), JsonValue::Int(0)),
            ("durationMs".to_string(), JsonValue::Int(100)),
        ]
    );
    assert_eq!(
        parsed.parts,
        vec![UniversalMessagePart::Text { text: "output".to_string() }]
    );
}

#[test]
fn error_notification_is_lossless() {
    let notification = ServerNotification::Error(ErrorNotification {
        error: TurnError {
            message: "boom".to_string(),
            additional_details: None,
            codex_error_info: None,
        },
        thread_id: "thread-9".to_string(),
        turn_id: "turn-9".to_string(),
        will_retry: false,
    });
    let conversion = notification_to_universal(&notification);
    assert_eq!(conversion.session_id, Some("thread-9".to_string()));
    let error = match conversion.data {
        UniversalEventData::Error { error } => error,
        other => panic!("expected an error event, got {:?}", other),
    };
    assert_eq!(error.message, "boom");
    assert_eq!(error.kind, Some("error".to_string()));
    let details = error.details.expect("the full envelope is kept");
    let inner = obj_get(&details, "error").expect("details carry the error payload");
    assert_eq!(obj_get(inner, "message"), Some(&text("boom")));
    assert_eq!(obj_get(&details, "threadId"), Some(&text("thread-9")));
}

#[test]
fn tool_call_items_always_yield_call_then_result() {
    let success = ThreadItem::McpToolCall {
        arguments: JsonValue::Obj(vec![("q".to_string(), text("rust"))]),
        duration_ms: Some(42),
        error: None,
        id: "call-1".to_string(),
        result: Some(text("ok")),
        server: "search".to_string(),
        status: McpToolCallStatus::Completed,
        tool: "web_search".to_string(),
    };
    let failure = ThreadItem::McpToolCall {
        arguments: JsonValue::Null,
        duration_ms: None,
        error: Some(McpToolCallError { message: "denied".to_string() }),
        id: "call-2".to_string(),
        result: None,
        server: "search".to_string(),
        status: McpToolCallStatus::Failed,
        tool: "web_search".to_string(),
    };
    for (item, expect_error) in [(success, false), (failure, true)] {
        let parsed = match thread_item_to_message(&item) {
            UniversalMessage::Parsed(parsed) => parsed,
            other => panic!("expected a parsed message, got {:?}", other),
        };
        assert_eq!(parsed.parts.len(), 2);
        match &parsed.parts[0] {
            UniversalMessagePart::ToolCall { name, .. } => assert_eq!(name, "web_search"),
            other => panic!("expected a tool call first, got {:?}", other),
        }
        match &parsed.parts[1] {
            UniversalMessagePart::ToolResult { is_error, output, .. } => {
                assert_eq!(*is_error, Some(expect_error));
                if expect_error {
                    assert_eq!(
                        output,
                        &JsonValue::Obj(vec![("message".to_string(), text("denied"))])
                    );
                } else {
                    assert_eq!(output, &text("ok"));
                }
            },
            other => panic!("expected a tool result second, got {:?}", other),
        }
    }
}

#[test]
fn turn_completed_reduces_to_last_item() {
    let items = vec![
        ThreadItem::AgentMessage { id: "a".to_string(), text: "first".to_string() },
        ThreadItem::WebSearch { id: "b".to_string(), query: "docs".to_string() },
        ThreadItem::AgentMessage { id: "c".to_string(), text: "last".to_string() },
    ];
    let last = items[2].clone();
    let notification = ServerNotification::TurnCompleted(TurnCompletedNotification {
        thread_id: "T".to_string(),
        turn: Turn { id: "turn-1".to_string(), items },
    });
    let conversion = notification_to_universal(&notification);
    assert_eq!(conversion.session_id, Some("T".to_string()));
    match conversion.data {
        UniversalEventData::Message { message } => {
            assert_eq!(message, thread_item_to_message(&last));
        },
        other => panic!("expected a message event, got {:?}", other),
    }
}

#[test]
fn turn_completed_without_items_degrades_to_unknown() {
    let notification = ServerNotification::TurnCompleted(TurnCompletedNotification {
        thread_id: "T".to_string(),
        turn: Turn { id: "turn-1".to_string(), items: vec![] },
    });
    let conversion = notification_to_universal(&notification);
    assert_eq!(conversion.session_id, Some("T".to_string()));
    match conversion.data {
        UniversalEventData::Unknown { .. } => {},
        other => panic!("expected an unknown event, got {:?}", other),
    }
}

#[test]
fn session_propagation() {
    let with_thread = notification_to_universal(&ServerNotification::ItemStarted(
        ItemStartedNotification {
            item: ThreadItem::WebSearch { id: "w".to_string(), query: "q".to_string() },
            thread_id: "T".to_string(),
            turn_id: "u".to_string(),
        },
    ));
    assert_eq!(with_thread.session_id, Some("T".to_string()));

    let without_thread =
        notification_to_universal(&ServerNotification::AccountUpdated(JsonValue::Null));
    assert_eq!(without_thread.session_id, None);
}

#[test]
fn lifecycle_notifications_become_started_events() {
    let thread = notification_to_universal(&ServerNotification::ThreadStarted(
        ThreadStartedNotification { thread: Thread { id: "th-1".to_string() } },
    ));
    assert_eq!(thread.session_id, Some("th-1".to_string()));
    match thread.data {
        UniversalEventData::Started { started } => {
            assert_eq!(started.message, Some("thread/started".to_string()));
            assert!(started.details.is_some());
        },
        other => panic!("expected a started event, got {:?}", other),
    }

    let turn = notification_to_universal(&ServerNotification::TurnStarted(
        TurnStartedNotification {
            thread_id: "th-2".to_string(),
            turn: Turn { id: "tu-2".to_string(), items: vec![] },
        },
    ));
    assert_eq!(turn.session_id, Some("th-2".to_string()));
    match turn.data {
        UniversalEventData::Started { started } => {
            assert_eq!(started.message, Some("turn/started".to_string()));
        },
        other => panic!("expected a started event, got {:?}", other),
    }
}

#[test]
fn deltas_convert_independently() {
    let params = ItemDeltaNotification {
        delta: "chunk".to_string(),
        item_id: "item-5".to_string(),
        thread_id: "T5".to_string(),
        turn_id: "U5".to_string(),
    };
    let agent = notification_to_universal(&ServerNotification::ItemAgentMessageDelta(
        params.clone(),
    ));
    let parsed = match agent.data {
        UniversalEventData::Message { message: UniversalMessage::Parsed(p) } => p,
        other => panic!("expected a parsed message, got {:?}", other),
    };
    assert_eq!(
        parsed.metadata,
        vec![
            ("delta".to_string(), JsonValue::Bool(true)),
            ("itemType".to_string(), text("agentMessage")),
            ("turnId".to_string(), text("U5")),
        ]
    );
    assert_eq!(parsed.parts, vec![UniversalMessagePart::Text { text: "chunk".to_string() }]);

    let reasoning = notification_to_universal(&ServerNotification::ItemReasoningTextDelta(
        params.clone(),
    ));
    let parsed = match reasoning.data {
        UniversalEventData::Message { message: UniversalMessage::Parsed(p) } => p,
        other => panic!("expected a parsed message, got {:?}", other),
    };
    assert_eq!(
        parsed.metadata,
        vec![
            ("delta".to_string(), JsonValue::Bool(true)),
            ("itemType".to_string(), text("reasoning")),
            ("turnId".to_string(), text("U5")),
        ]
    );
}

#[test]
fn every_notification_variant_yields_a_defined_envelope() {
    let aux = |thread_id: &str| ThreadAuxNotification {
        thread_id: thread_id.to_string(),
        payload: JsonValue::Null,
    };
    let delta = || ItemDeltaNotification {
        delta: "d".to_string(),
        item_id: "i".to_string(),
        thread_id: "T".to_string(),
        turn_id: "u".to_string(),
    };
    let item = || ThreadItem::AgentMessage { id: "a".to_string(), text: "t".to_string() };
    let notifications = vec![
        ServerNotification::ThreadStarted(ThreadStartedNotification {
            thread: Thread { id: "T".to_string() },
        }),
        ServerNotification::TurnStarted(TurnStartedNotification {
            thread_id: "T".to_string(),
            turn: Turn { id: "u".to_string(), items: vec![] },
        }),
        ServerNotification::TurnCompleted(TurnCompletedNotification {
            thread_id: "T".to_string(),
            turn: Turn { id: "u".to_string(), items: vec![item()] },
        }),
        ServerNotification::ItemStarted(ItemStartedNotification {
            item: item(),
            thread_id: "T".to_string(),
            turn_id: "u".to_string(),
        }),
        ServerNotification::ItemCompleted(ItemCompletedNotification {
            item: item(),
            thread_id: "T".to_string(),
            turn_id: "u".to_string(),
        }),
        ServerNotification::ItemAgentMessageDelta(delta()),
        ServerNotification::ItemReasoningTextDelta(delta()),
        ServerNotification::ItemReasoningSummaryTextDelta(delta()),
        ServerNotification::ItemCommandExecutionOutputDelta(delta()),
        ServerNotification::ItemFileChangeOutputDelta(delta()),
        ServerNotification::Error(ErrorNotification {
            error: TurnError {
                message: "m".to_string(),
                additional_details: None,
                codex_error_info: None,
            },
            thread_id: "T".to_string(),
            turn_id: "u".to_string(),
            will_retry: true,
        }),
        ServerNotification::ThreadTokenUsageUpdated(aux("T")),
        ServerNotification::TurnDiffUpdated(aux("T")),
        ServerNotification::TurnPlanUpdated(aux("T")),
        ServerNotification::ItemCommandExecutionTerminalInteraction(aux("T")),
        ServerNotification::ItemMcpToolCallProgress(aux("T")),
        ServerNotification::ItemReasoningSummaryPartAdded(aux("T")),
        ServerNotification::ThreadCompacted(aux("T")),
        ServerNotification::AccountUpdated(JsonValue::Null),
        ServerNotification::AccountRateLimitsUpdated(JsonValue::Null),
        ServerNotification::AccountLoginCompleted(JsonValue::Null),
        ServerNotification::McpServerOauthLoginCompleted(JsonValue::Null),
        ServerNotification::AuthStatusChange(JsonValue::Null),
        ServerNotification::LoginChatGptComplete(JsonValue::Null),
        ServerNotification::SessionConfigured(JsonValue::Null),
        ServerNotification::DeprecationNotice(JsonValue::Null),
        ServerNotification::ConfigWarning(JsonValue::Null),
        ServerNotification::WindowsWorldWritableWarning(JsonValue::Null),
        ServerNotification::RawResponseItemCompleted(JsonValue::Null),
    ];
    assert_eq!(notifications.len(), 29);
    for n in &notifications {
        let conversion = notification_to_universal(n);
        match conversion.data {
            UniversalEventData::Started { .. }
            | UniversalEventData::Message { .. }
            | UniversalEventData::Error { .. }
            | UniversalEventData::Unknown { .. } => {},
        }
    }
}

#[test]
fn item_lifecycle_entry_points_agree() {
    let item = command_execution_item();
    let started = item_started_to_universal(&ItemStartedNotification {
        item: item.clone(),
        thread_id: "T".to_string(),
        turn_id: "u".to_string(),
    });
    let completed = item_completed_to_universal(&ItemCompletedNotification {
        item,
        thread_id: "T".to_string(),
        turn_id: "u".to_string(),
    });
    assert_eq!(started, completed);
}

#[test]
fn user_message_parts_preserve_order() {
    let item = ThreadItem::UserMessage {
        content: vec![
            UserInput::Text { text: "look at".to_string(), text_elements: vec![] },
            UserInput::Image { image_url: "https://example.test/a.png".to_string() },
            UserInput::LocalImage { path: "/tmp/b.png".to_string() },
            UserInput::Skill { name: "review".to_string(), path: "/skills/review".to_string() },
        ],
        id: "user-1".to_string(),
    };
    let parsed = match thread_item_to_message(&item) {
        UniversalMessage::Parsed(parsed) => parsed,
        other => panic!("expected a parsed message, got {:?}", other),
    };
    assert_eq!(parsed.role, "user");
    assert_eq!(parsed.metadata, vec![("itemType".to_string(), text("userMessage"))]);
    assert_eq!(parsed.parts.len(), 4);
    assert_eq!(parsed.parts[0], UniversalMessagePart::Text { text: "look at".to_string() });
    match &parsed.parts[1] {
        UniversalMessagePart::Image { source, .. } => {
            assert_eq!(
                source,
                &universal_agent_schema::model::AttachmentSource::Url {
                    url: "https://example.test/a.png".to_string()
                }
            );
        },
        other => panic!("expected an image part, got {:?}", other),
    }
    match &parsed.parts[3] {
        UniversalMessagePart::Unknown { raw } => {
            assert_eq!(obj_get(raw, "type"), Some(&text("skill")));
            assert_eq!(obj_get(raw, "name"), Some(&text("review")));
        },
        other => panic!("expected an unknown part, got {:?}", other),
    }
}

#[test]
fn file_change_parts_one_per_change() {
    let item = ThreadItem::FileChange {
        changes: vec![
            FileUpdateChange {
                path: "a.rs".to_string(),
                kind: "update".to_string(),
                diff: "+1".to_string(),
            },
            FileUpdateChange {
                path: "b.rs".to_string(),
                kind: "add".to_string(),
                diff: "+2".to_string(),
            },
        ],
        id: "fc-1".to_string(),
        status: PatchApplyStatus::Completed,
    };
    let parsed = match thread_item_to_message(&item) {
        UniversalMessage::Parsed(parsed) => parsed,
        other => panic!("expected a parsed message, got {:?}", other),
    };
    assert_eq!(
        parsed.metadata,
        vec![
            ("itemType".to_string(), text("fileChange")),
            ("status".to_string(), text("Completed")),
        ]
    );
    assert_eq!(parsed.parts.len(), 2);
    match &parsed.parts[0] {
        UniversalMessagePart::Unknown { raw } => {
            assert_eq!(obj_get(raw, "path"), Some(&text("a.rs")));
        },
        other => panic!("expected an unknown part, got {:?}", other),
    }
}

#[test]
fn collab_and_review_items() {
    let collab = ThreadItem::CollabAgentToolCall {
        agents_states: JsonValue::Null,
        id: "co-1".to_string(),
        prompt: Some("do the thing".to_string()),
        receiver_thread_ids: vec!["r1".to_string()],
        sender_thread_id: "s1".to_string(),
        status: CollabAgentToolCallStatus::InProgress,
        tool: CollabAgentTool::SpawnAgent,
    };
    let parsed = match thread_item_to_message(&collab) {
        UniversalMessage::Parsed(parsed) => parsed,
        other => panic!("expected a parsed message, got {:?}", other),
    };
    assert_eq!(
        parsed.metadata,
        vec![
            ("itemType".to_string(), text("collabAgentToolCall")),
            ("tool".to_string(), text("SpawnAgent")),
            ("senderThreadId".to_string(), text("s1")),
            ("status".to_string(), text("InProgress")),
        ]
    );
    assert_eq!(parsed.parts, vec![UniversalMessagePart::Text { text: "do the thing".to_string() }]);

    let entered = ThreadItem::EnteredReviewMode {
        id: "rv-1".to_string(),
        review: "security".to_string(),
    };
    let parsed = match thread_item_to_message(&entered) {
        UniversalMessage::Parsed(parsed) => parsed,
        other => panic!("expected a parsed message, got {:?}", other),
    };
    assert_eq!(
        parsed.metadata,
        vec![
            ("itemType".to_string(), text("enteredReviewMode")),
            ("review".to_string(), text("security")),
        ]
    );
    assert!(parsed.parts.is_empty());
}

#[test]
fn reverse_message_joins_text_parts_with_placeholders() {
    let event = UniversalEventData::Message {
        message: UniversalMessage::Parsed(
            universal_agent_schema::model::UniversalMessageParsed {
                role: "assistant".to_string(),
                id: Some("m-1".to_string()),
                metadata: vec![],
                parts: vec![
                    UniversalMessagePart::Text { text: "hi".to_string() },
                    UniversalMessagePart::ToolResult {
                        id: None,
                        name: None,
                        output: JsonValue::Null,
                        is_error: None,
                    },
                    UniversalMessagePart::Text { text: "there".to_string() },
                ],
            },
        ),
    };
    let notification = universal_event_to_codex(&event).expect("messages have a reverse mapping");
    match notification {
        ServerNotification::ItemCompleted(params) => {
            assert_eq!(params.thread_id, "unknown");
            assert_eq!(params.turn_id, "unknown");
            match params.item {
                ThreadItem::AgentMessage { id, text } => {
                    assert_eq!(id, "m-1");
                    assert_eq!(text, "hi\nthere");
                },
                other => panic!("expected an agent message item, got {:?}", other),
            }
        },
        other => panic!("expected an item-completed notification, got {:?}", other),
    }
}

#[test]
fn reverse_error_rebuilds_an_error_envelope() {
    let event = UniversalEventData::Error {
        error: universal_agent_schema::model::CrashInfo {
            message: "boom".to_string(),
            kind: Some("error".to_string()),
            details: Some(JsonValue::Obj(vec![(
                "additionalDetails".to_string(),
                text("stack"),
            )])),
        },
    };
    let notification = universal_event_to_codex(&event).expect("errors have a reverse mapping");
    match notification {
        ServerNotification::Error(params) => {
            assert_eq!(params.error.message, "boom");
            assert_eq!(params.error.additional_details, Some("stack".to_string()));
            assert_eq!(params.error.codex_error_info, None);
            assert_eq!(params.thread_id, "unknown");
            assert_eq!(params.turn_id, "unknown");
            assert!(!params.will_retry);
        },
        other => panic!("expected an error notification, got {:?}", other),
    }
}

#[test]
fn reverse_rejects_unsupported_events() {
    let started = UniversalEventData::Started {
        started: universal_agent_schema::model::Started { message: None, details: None },
    };
    assert!(matches!(
        universal_event_to_codex(&started),
        Err(ConversionError::Unsupported(_))
    ));

    let unknown = UniversalEventData::Unknown { raw: JsonValue::Null };
    assert!(matches!(
        universal_event_to_codex(&unknown),
        Err(ConversionError::Unsupported(_))
    ));

    let unparsed = UniversalEventData::Message {
        message: UniversalMessage::Unparsed { raw: JsonValue::Null },
    };
    assert!(matches!(
        universal_event_to_codex(&unparsed),
        Err(ConversionError::Unsupported(_))
    ));
}

#[test]
fn reverse_message_with_no_text_parts_yields_empty_text() {
    let event = UniversalEventData::Message {
        message: UniversalMessage::Parsed(
            universal_agent_schema::model::UniversalMessageParsed {
                role: "assistant".to_string(),
                id: None,
                metadata: vec![],
                parts: vec![UniversalMessagePart::Unknown { raw: JsonValue::Null }],
            },
        ),
    };
    match universal_event_to_codex(&event).expect("messages have a reverse mapping") {
        ServerNotification::ItemCompleted(params) => match params.item {
            ThreadItem::AgentMessage { id, text } => {
                assert_eq!(id, "msg");
                assert_eq!(text, "");
            },
            other => panic!("expected an agent message item, got {:?}", other),
        },
        other => panic!("expected an item-completed notification, got {:?}", other),
    }
}

#[test]
fn reasoning_summary_key_only_when_summary_is_nonempty() {
    let bare = ThreadItem::Reasoning {
        content: vec!["a".to_string()],
        id: "r1".to_string(),
        summary: vec![],
    };
    let parsed = match thread_item_to_message(&bare) {
        UniversalMessage::Parsed(parsed) => parsed,
        other => panic!("expected a parsed message, got {:?}", other),
    };
    assert_eq!(parsed.metadata, vec![("itemType".to_string(), text("reasoning"))]);

    let summarized = ThreadItem::Reasoning {
        content: vec!["a".to_string()],
        id: "r2".to_string(),
        summary: vec!["short".to_string()],
    };
    let parsed = match thread_item_to_message(&summarized) {
        UniversalMessage::Parsed(parsed) => parsed,
        other => panic!("expected a parsed message, got {:?}", other),
    };
    assert_eq!(
        parsed.metadata,
        vec![
            ("itemType".to_string(), text("reasoning")),
            ("summary".to_string(), JsonValue::Arr(vec![text("short")])),
        ]
    );
    assert_eq!(parsed.parts, vec![UniversalMessagePart::Text { text: "a".to_string() }]);
}
