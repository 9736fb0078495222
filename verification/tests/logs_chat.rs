use gateway_protocol::logs_chat::{
    is_valid_chat_event_error_kind, is_valid_chat_message_get_unavailable_reason,
    ChatAbortParamsSchema, ChatDeltaEventSchema, ChatDeltaEventState, ChatEventBaseSchema,
    ChatEventErrorKindSchema, ChatEventSchema, ChatHistoryParamsSchema, ChatInjectParamsSchema,
    ChatMessageGetParamsSchema, ChatMessageGetResultSchema, ChatMessageGetUnavailableReasonSchema,
    ChatMetadataParamsSchema, ChatSendFastMode, ChatSendParamsSchema, ChatToolTitlesParamsItem,
    ChatToolTitlesParamsSchema, ChatToolTitlesResultSchema, LogsTailParamsSchema,
    LogsTailResultSchema,
};
use gateway_protocol::primitives::InputProvenanceSchema;

fn send_params() -> ChatSendParamsSchema {
    ChatSendParamsSchema {
        session_key: "main".into(),
        agent_id: None,
        session_id: None,
        message: "hi".into(),
        thinking: None,
        fast_mode: Some(ChatSendFastMode::Auto),
        fast_auto_on_seconds: None,
        deliver: None,
        originating_channel: None,
        originating_to: None,
        originating_account_id: None,
        originating_thread_id: None,
        attachments: None,
        timeout_ms: None,
        system_input_provenance: None,
        system_provenance_receipt: None,
        suppress_command_interpretation: None,
        expected_session_routing_contract: None,
        idempotency_key: "k1".into(),
    }
}

#[test]
fn logs_tail_params_bounds() {
    assert!(LogsTailParamsSchema::default().validate().is_ok());
    let p = LogsTailParamsSchema { cursor: Some(-1), limit: Some(0), max_bytes: None };
    assert_eq!(p.validate().unwrap_err(), "cursor: expected integer >= 0, got -1");
    let p = LogsTailParamsSchema { cursor: Some(0), limit: Some(5001), max_bytes: None };
    assert_eq!(p.validate().unwrap_err(), "limit: expected integer in [1, 5000], got 5001");
    let p = LogsTailParamsSchema { cursor: None, limit: Some(5000), max_bytes: Some(1_000_001) };
    assert_eq!(p.validate().unwrap_err(), "maxBytes: expected integer in [1, 1000000], got 1000001");
}

#[test]
fn logs_tail_result_checks() {
    let mut r = LogsTailResultSchema { file: "gateway.log".into(), cursor: 3, size: 10, ..Default::default() };
    assert!(r.validate().is_ok());
    r.size = -4;
    assert_eq!(r.validate().unwrap_err(), "size: expected integer >= 0, got -4");
    r.file = String::new();
    assert_eq!(r.validate().unwrap_err(), "file: expected non-empty string, got \"\"");
}

#[test]
fn chat_history_optional_agent_is_named_generically() {
    let p = ChatHistoryParamsSchema { session_key: "s".into(), agent_id: Some(String::new()), ..Default::default() };
    assert_eq!(p.validate().unwrap_err(), "optional non-empty: expected non-empty string, got \"\"");
    let p = ChatHistoryParamsSchema { session_key: "s".into(), max_chars: Some(500_001), ..Default::default() };
    assert_eq!(p.validate().unwrap_err(), "maxChars: expected integer in [1, 500000], got 500001");
    let p = ChatHistoryParamsSchema { session_key: "s".into(), offset: Some(-2), ..Default::default() };
    assert_eq!(p.validate().unwrap_err(), "offset: expected integer >= 0, got -2");
}

#[test]
fn chat_metadata_params() {
    assert!(ChatMetadataParamsSchema::default().validate().is_ok());
}

#[test]
fn chat_tool_titles_items() {
    let item = |id: &str, name: &str, input: &str| ChatToolTitlesParamsItem {
        id: id.into(),
        name: name.into(),
        input: input.into(),
    };
    let mut p = ChatToolTitlesParamsSchema { session_key: "s".into(), agent_id: None, items: vec![] };
    assert_eq!(p.validate().unwrap_err(), "items: expected array length in [1, 24], got 0");
    p.items = vec![item("a", "read", "{}"), item("b", "", "{}")];
    assert_eq!(p.validate().unwrap_err(), "items[1].name: expected length in [1, 200], got 0");
    p.items = vec![item(&"x".repeat(65), "read", "{}")];
    assert_eq!(p.validate().unwrap_err(), "items[0].id: expected length in [1, 64], got 65");
    p.items = vec![item("a", "read", &"y".repeat(4001))];
    assert_eq!(p.validate().unwrap_err(), "items[0].input: expected length in [1, 4000], got 4001");
    p.items = (0..24).map(|i| item(&i.to_string(), "n", "i")).collect();
    assert!(p.validate().is_ok());
    p.items.push(item("25", "n", "i"));
    assert_eq!(p.validate().unwrap_err(), "items: expected array length in [1, 24], got 25");
}

#[test]
fn chat_tool_titles_result_always_valid() {
    assert!(ChatToolTitlesResultSchema::default().validate().is_ok());
}

#[test]
fn chat_message_get() {
    let mut p = ChatMessageGetParamsSchema { session_key: "s".into(), message_id: "m".into(), ..Default::default() };
    assert!(p.validate().is_ok());
    p.max_chars = Some(2_000_001);
    assert_eq!(p.validate().unwrap_err(), "maxChars: expected integer in [1, 2000000], got 2000001");
    let r = ChatMessageGetResultSchema {
        ok: false,
        message: None,
        unavailable_reason: Some(ChatMessageGetUnavailableReasonSchema::NotVisible),
    };
    assert!(r.validate().is_ok());
}

#[test]
fn chat_enums_round_trip() {
    for r in ChatMessageGetUnavailableReasonSchema::all() {
        assert_eq!(ChatMessageGetUnavailableReasonSchema::from_str(r.as_str()), Some(*r));
    }
    for k in ChatEventErrorKindSchema::all() {
        assert_eq!(ChatEventErrorKindSchema::from_str(k.as_str()), Some(*k));
        assert!(is_valid_chat_event_error_kind(k.as_str()));
    }
    assert_eq!(ChatEventErrorKindSchema::RateLimit.as_str(), "rate_limit");
    assert!(is_valid_chat_message_get_unavailable_reason("not_found"));
    assert!(!is_valid_chat_message_get_unavailable_reason("missing"));
    assert_eq!(ChatSendFastMode::Bool(true).as_str(), "true");
    assert_eq!(ChatSendFastMode::Bool(false).as_str(), "false");
    assert_eq!(ChatSendFastMode::Auto.as_str(), "auto");
}

#[test]
fn chat_send_params_checks_in_order() {
    assert!(send_params().validate().is_ok());
    let mut p = send_params();
    p.fast_auto_on_seconds = Some(0);
    assert_eq!(p.validate().unwrap_err(), "fastAutoOnSeconds: expected integer >= 1, got 0");
    let mut p = send_params();
    p.timeout_ms = Some(-1);
    assert_eq!(p.validate().unwrap_err(), "timeoutMs: expected integer >= 0, got -1");
    let mut p = send_params();
    p.system_input_provenance = Some(InputProvenanceSchema { kind: "robot".into(), ..Default::default() });
    assert_eq!(p.validate().unwrap_err(), "systemInputProvenance: invalid input provenance kind: robot");
    let mut p = send_params();
    p.idempotency_key = String::new();
    assert_eq!(p.validate().unwrap_err(), "idempotencyKey: expected non-empty string, got \"\"");
}

#[test]
fn chat_abort_and_inject() {
    let a = ChatAbortParamsSchema { session_key: "s".into(), run_id: Some(String::new()), ..Default::default() };
    assert_eq!(a.validate().unwrap_err(), "optional non-empty: expected non-empty string, got \"\"");
    let mut i = ChatInjectParamsSchema { session_key: "s".into(), message: "note".into(), ..Default::default() };
    i.label = Some("l".repeat(100));
    assert!(i.validate().is_ok());
    i.label = Some("l".repeat(101));
    assert_eq!(i.validate().unwrap_err(), "label: expected max length 100, got 101");
}

#[test]
fn chat_events_validate_their_base() {
    let base = ChatEventBaseSchema { run_id: "r".into(), session_key: "s".into(), seq: -1, ..Default::default() };
    let e = ChatEventSchema::Delta(ChatDeltaEventSchema {
        base,
        state: ChatDeltaEventState::default(),
        message: None,
        delta_text: "x".into(),
        replace: None,
        usage: None,
    });
    assert_eq!(e.validate().unwrap_err(), "seq: expected integer >= 0, got -1");
    assert_eq!(ChatDeltaEventState::default(), ChatDeltaEventState::Delta);
}

#[test]
fn chat_send_session_key_bounds() {
    let mut p = send_params();
    p.session_key = "k".repeat(512);
    assert_eq!(p.validate(), Ok(()));
    p.session_key = "k".repeat(513);
    assert_eq!(p.validate(), Err("sessionKey: expected length <= 512, got 513".to_string()));
    p.session_key = String::new();
    assert_eq!(p.validate(), Err("sessionKey: expected non-empty string, got \"\"".to_string()));
}
