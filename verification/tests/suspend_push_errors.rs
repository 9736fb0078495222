use gateway_protocol::error_codes::error_codes::{INVALID_REQUEST, UNAVAILABLE};
use gateway_protocol::error_codes::error_shape;
use gateway_protocol::gateway_suspend::{
    is_valid_gateway_suspend_blocker_kind, is_valid_gateway_suspend_busy_reason,
    is_valid_gateway_suspend_task_runtime, GatewaySuspendBlockerKindSchema,
    GatewaySuspendBlockerSchema, GatewaySuspendBusyReasonSchema, GatewaySuspendBusyStatus,
    GatewaySuspendPrepareBusyResultSchema, GatewaySuspendPrepareParamsSchema,
    GatewaySuspendPrepareResultSchema, GatewaySuspendStatusParamsSchema,
    GatewaySuspendTaskBlockerSchema, GatewaySuspendTaskRunningStatus,
    GatewaySuspendTaskRuntimeSchema,
};
use gateway_protocol::push::{
    apns_environments, is_valid_apns_environment, is_valid_push_transport, push_transports,
    PushTestParams, WebPushKeysSchema, WebPushSubscribeParams, WebPushUnsubscribeParams,
};

#[test]
fn suspend_enums() {
    assert_eq!(GatewaySuspendTaskRuntimeSchema::all().len(), 4);
    for r in GatewaySuspendTaskRuntimeSchema::all() {
        assert_eq!(GatewaySuspendTaskRuntimeSchema::from_str(r.as_str()), Some(*r));
    }
    assert!(is_valid_gateway_suspend_task_runtime("acp"));
    assert!(!is_valid_gateway_suspend_task_runtime("thread"));
    assert_eq!(GatewaySuspendBlockerKindSchema::all().len(), 13);
    assert_eq!(GatewaySuspendBlockerKindSchema::TerminalPersistence.as_str(), "terminal-persistence");
    assert!(is_valid_gateway_suspend_blocker_kind("session-admission"));
    assert!(!is_valid_gateway_suspend_blocker_kind("session"));
    assert_eq!(GatewaySuspendBusyReasonSchema::from_str("gateway-draining"), Some(GatewaySuspendBusyReasonSchema::GatewayDraining));
    assert!(is_valid_gateway_suspend_busy_reason("active-work"));
}

#[test]
fn suspension_tokens() {
    assert_eq!(GatewaySuspendPrepareParamsSchema { request_id: "req-1".to_string() }.validate(), Ok(()));
    assert_eq!(
        GatewaySuspendPrepareParamsSchema { request_id: String::new() }.validate(),
        Err("requestId: expected length in [1, 128], got 0".to_string())
    );
    assert_eq!(
        GatewaySuspendPrepareParamsSchema { request_id: "x".repeat(129) }.validate(),
        Err("requestId: expected length in [1, 128], got 129".to_string())
    );
    assert_eq!(
        GatewaySuspendStatusParamsSchema { suspension_id: "a b".to_string() }.validate(),
        Err("suspensionId: expected non-whitespace token, got \"a b\"".to_string())
    );
}

fn blocker(count: i64, task_id: Option<&str>) -> GatewaySuspendBlockerSchema {
    GatewaySuspendBlockerSchema {
        kind: GatewaySuspendBlockerKindSchema::Task,
        count,
        message: "busy".to_string(),
        task: task_id.map(|id| GatewaySuspendTaskBlockerSchema {
            task_id: id.to_string(),
            status: GatewaySuspendTaskRunningStatus::Running,
            runtime: GatewaySuspendTaskRuntimeSchema::Cli,
            run_id: None,
            label: None,
            title: None,
        }),
    }
}

#[test]
fn busy_result_blockers() {
    let busy = GatewaySuspendPrepareBusyResultSchema {
        status: GatewaySuspendBusyStatus::Busy,
        reason: GatewaySuspendBusyReasonSchema::ActiveWork,
        retry_after_ms: 1000,
        active_count: 2,
        blockers: vec![blocker(1, Some("t1")), blocker(1, Some(""))],
    };
    let result = GatewaySuspendPrepareResultSchema::Busy(busy.clone());
    assert_eq!(result.validate(), Err("blockers[1]: task: taskId: expected non-empty string, got \"\"".to_string()));
    let mut b = busy;
    b.blockers = vec![blocker(-1, None)];
    assert_eq!(b.validate(), Err("blockers[0]: count: expected integer >= 0, got -1".to_string()));
    b.blockers = vec![];
    b.retry_after_ms = -5;
    assert_eq!(b.validate(), Err("retryAfterMs: expected integer >= 0, got -5".to_string()));
}

#[test]
fn push_lists_and_enums() {
    assert_eq!(apns_environments::all(), &["sandbox", "production"]);
    assert_eq!(push_transports::all(), &["direct", "relay"]);
    assert!(is_valid_apns_environment("production"));
    assert!(!is_valid_apns_environment("staging"));
    assert!(is_valid_push_transport("relay"));
    assert!(!is_valid_push_transport("fcm"));
    let p = PushTestParams { node_id: String::new(), title: None, body: None, environment: None };
    assert_eq!(p.validate(), Err("nodeId: expected non-empty string, got \"\"".to_string()));
}

#[test]
fn web_push_subscription() {
    let keys = WebPushKeysSchema { p256dh: "k".to_string(), auth: "a".to_string() };
    let mut p = WebPushSubscribeParams { endpoint: "https://push.example/abc".to_string(), keys: keys.clone() };
    assert_eq!(p.validate(), Ok(()));
    p.endpoint = "http://push.example".to_string();
    assert_eq!(
        p.validate(),
        Err("endpoint: expected string matching \"^https://\", got \"http://push.example\"".to_string())
    );
    p.endpoint = format!("https://{}", "x".repeat(2041));
    assert_eq!(p.validate(), Err("endpoint: expected length [1, 2048], got 2049".to_string()));
    p.endpoint = "https://ok".to_string();
    p.keys.auth = "a".repeat(513);
    assert_eq!(p.validate(), Err("keys: auth: expected length [1, 512], got 513".to_string()));
    let u = WebPushUnsubscribeParams { endpoint: String::new() };
    assert_eq!(u.validate(), Err("endpoint: expected length [1, 2048], got 0".to_string()));
}

#[test]
fn error_shape_keeps_fields() {
    let e = error_shape(INVALID_REQUEST, "bad input", None, Some(false), None);
    assert_eq!(e.code, "INVALID_REQUEST");
    assert_eq!(e.message, "bad input");
    assert_eq!(e.retryable, Some(false));
    assert_eq!(e.retry_after_ms, None);
    assert!(e.details.is_none());
    let e = error_shape(UNAVAILABLE, "later", Some(serde_json::Value::Bool(true)), Some(true), Some(1500));
    assert_eq!(e.code, "UNAVAILABLE");
    assert_eq!(e.details, Some(serde_json::Value::Bool(true)));
    assert_eq!(e.retry_after_ms, Some(1500));
}
