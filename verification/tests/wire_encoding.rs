use universal_agent_schema::codex::{
    CommandExecutionStatus, ItemCompletedNotification, McpToolCallStatus, ServerNotification,
    ThreadAuxNotification, ThreadItem, Turn, TurnCompletedNotification, UserInput,
};
use universal_agent_schema::json::JsonValue;
use universal_agent_schema::model::UniversalEventData;
use universal_agent_schema::adapter::notification_to_universal;
use universal_agent_schema::wire::{json_to_notification, notification_to_json, thread_item_json};
use universal_agent_schema::event_json::conversion_json;

fn text(s: &str) -> JsonValue {
    JsonValue::Text(s.to_string())
}

fn obj_get<'a>(v: &'a JsonValue, key: &str) -> Option<&'a JsonValue> {
    match v {
        JsonValue::Obj(entries) => entries.iter().find(|(k, _)| k == key).map(|(_, val)| val),
        _ => None,
    }
}

#[test]
fn test_codex_server_notification() {
    // An ItemCompletedNotification with an AgentMessage item.
    let notification = ServerNotification::ItemCompleted(ItemCompletedNotification {
        item: ThreadItem::AgentMessage {
            id: "msg-123".to_string(),
            text: "Hello from Codex".to_string(),
        },
        thread_id: "thread-123".to_string(),
        turn_id: "turn-456".to_string(),
    });

    let json = notification_to_json(&notification);
    assert_eq!(obj_get(&json, "method"), Some(&text("item/completed")));
    let params = obj_get(&json, "params").expect("the envelope carries params");
    let item = obj_get(params, "item").expect("the params carry the item");
    assert_eq!(obj_get(item, "text"), Some(&text("Hello from Codex")));
    assert_eq!(obj_get(item, "type"), Some(&text("agentMessage")));
}

#[test]
fn test_codex_thread_item_variants() {
    // The UserMessage variant.
    let user_msg = ThreadItem::UserMessage {
        content: vec![UserInput::Text {
            text: "Hello".to_string(),
            text_elements: vec![],
        }],
        id: "user-1".to_string(),
    };
    let json = thread_item_json(&user_msg);
    assert_eq!(obj_get(&json, "type"), Some(&text("userMessage")));
    let first_input = match obj_get(&json, "content") {
        Some(JsonValue::Arr(inputs)) => &inputs[0],
        other => panic!("expected an array of inputs, got {:?}", other),
    };
    assert_eq!(obj_get(first_input, "text"), Some(&text("Hello")));

    // The CommandExecution variant.
    let cmd = ThreadItem::CommandExecution {
        aggregated_output: Some("output".to_string()),
        command: "ls -la".to_string(),
        command_actions: vec![],
        cwd: "/tmp".to_string(),
        duration_ms: Some(100),
        exit_code: Some(0),
        id: "cmd-1".to_string(),
        process_id: None,
        status: CommandExecutionStatus::Completed,
    };
    let json = thread_item_json(&cmd);
    assert_eq!(obj_get(&json, "type"), Some(&text("commandExecution")));
    assert_eq!(obj_get(&json, "command"), Some(&text("ls -la")));
}

#[test]
fn administrative_unknown_raw_round_trips() {
    let original = ServerNotification::AccountUpdated(JsonValue::Obj(vec![
        ("plan".to_string(), text("pro")),
        ("seats".to_string(), JsonValue::Int(3)),
    ]));
    let conversion = notification_to_universal(&original);
    assert_eq!(conversion.session_id, None);
    let raw = match conversion.data {
        UniversalEventData::Unknown { raw } => raw,
        other => panic!("expected an unknown event, got {:?}", other),
    };
    let reread = json_to_notification(&raw).expect("the raw payload is the canonical encoding");
    assert_eq!(reread, original);
}

#[test]
fn auxiliary_unknown_raw_round_trips() {
    let original = ServerNotification::TurnDiffUpdated(ThreadAuxNotification {
        thread_id: "T".to_string(),
        payload: JsonValue::Obj(vec![("diff".to_string(), text("+line"))]),
    });
    let conversion = notification_to_universal(&original);
    assert_eq!(conversion.session_id, Some("T".to_string()));
    let raw = match conversion.data {
        UniversalEventData::Unknown { raw } => raw,
        other => panic!("expected an unknown event, got {:?}", other),
    };
    assert_eq!(json_to_notification(&raw), Some(original));
}

#[test]
fn empty_turn_unknown_raw_round_trips() {
    let original = ServerNotification::TurnCompleted(TurnCompletedNotification {
        thread_id: "T".to_string(),
        turn: Turn { id: "turn-0".to_string(), items: vec![] },
    });
    let conversion = notification_to_universal(&original);
    let raw = match conversion.data {
        UniversalEventData::Unknown { raw } => raw,
        other => panic!("expected an unknown event, got {:?}", other),
    };
    assert_eq!(json_to_notification(&raw), Some(original));
}

#[test]
fn full_notification_round_trips_through_the_wire() {
    let items = vec![
        ThreadItem::UserMessage {
            content: vec![
                UserInput::Text { text: "hi".to_string(), text_elements: vec!["e".to_string()] },
                UserInput::Image { image_url: "https://example.test/i.png".to_string() },
                UserInput::LocalImage { path: "/tmp/i.png".to_string() },
                UserInput::Skill { name: "s".to_string(), path: "/p".to_string() },
            ],
            id: "u1".to_string(),
        },
        ThreadItem::Reasoning {
            content: vec!["think".to_string()],
            id: "r1".to_string(),
            summary: vec!["summary".to_string()],
        },
        ThreadItem::McpToolCall {
            arguments: JsonValue::Obj(vec![("q".to_string(), text("x"))]),
            duration_ms: Some(7),
            error: None,
            id: "m1".to_string(),
            result: Some(JsonValue::Arr(vec![JsonValue::Int(1), JsonValue::Bool(true)])),
            server: "srv".to_string(),
            status: McpToolCallStatus::Completed,
            tool: "lookup".to_string(),
        },
    ];
    let original = ServerNotification::TurnCompleted(TurnCompletedNotification {
        thread_id: "T".to_string(),
        turn: Turn { id: "turn-7".to_string(), items },
    });
    let encoded = notification_to_json(&original);
    assert_eq!(json_to_notification(&encoded), Some(original));
}

#[test]
fn the_reader_rejects_what_the_writer_never_produces() {
    assert_eq!(json_to_notification(&JsonValue::Null), None);
    assert_eq!(
        json_to_notification(&JsonValue::Obj(vec![("method".to_string(), text("nope"))])),
        None
    );
    assert_eq!(
        json_to_notification(&JsonValue::Obj(vec![
            ("method".to_string(), text("no/such/method")),
            ("params".to_string(), JsonValue::Null),
        ])),
        None
    );
}

#[test]
fn canonical_events_carry_stable_discriminants() {
    let conversion = notification_to_universal(&ServerNotification::ItemCompleted(
        ItemCompletedNotification {
            item: ThreadItem::AgentMessage {
                id: "msg-1".to_string(),
                text: "hi".to_string(),
            },
            thread_id: "T".to_string(),
            turn_id: "u".to_string(),
        },
    ));
    let json = conversion_json(&conversion);
    assert_eq!(obj_get(&json, "sessionId"), Some(&text("T")));
    let data = obj_get(&json, "data").expect("the envelope carries its data");
    assert_eq!(obj_get(data, "type"), Some(&text("message")));
    let message = obj_get(data, "message").expect("a message event carries a message");
    assert_eq!(obj_get(message, "type"), Some(&text("parsed")));
    assert_eq!(obj_get(message, "role"), Some(&text("assistant")));
    let parts = match obj_get(message, "parts") {
        Some(JsonValue::Arr(parts)) => parts,
        other => panic!("expected an array of parts, got {:?}", other),
    };
    assert_eq!(obj_get(&parts[0], "type"), Some(&text("text")));
    assert_eq!(obj_get(&parts[0], "text"), Some(&text("hi")));
    let metadata = obj_get(message, "metadata").expect("metadata is kept");
    assert_eq!(obj_get(metadata, "itemType"), Some(&text("agentMessage")));
}
