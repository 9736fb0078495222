use gateway_protocol::json::NumberValue;
use gateway_protocol::plugin_approvals::{
    is_valid_plugin_approval_decision, is_valid_plugin_approval_severity, plugin_approval_decisions,
    plugin_approval_severities, PluginApprovalDecision, PluginApprovalRequestParams,
    PluginApprovalResolveParams, PluginApprovalSeverity, TurnSourceThreadIdSchema,
};

fn request() -> PluginApprovalRequestParams {
    PluginApprovalRequestParams {
        title: "Run tool".into(),
        description: "The plugin wants to run a tool.".into(),
        ..Default::default()
    }
}

#[test]
fn plugin_approval_string_sets_agree_with_parsers() {
    assert_eq!(plugin_approval_severities::all(), &["info", "warning", "critical"]);
    assert_eq!(plugin_approval_decisions::all(), &["allow-once", "allow-always", "deny"]);
    for s in plugin_approval_decisions::all() {
        assert_eq!(plugin_approval_decisions::from_str(s), Some(*s));
        assert!(is_valid_plugin_approval_decision(s));
    }
    assert_eq!(plugin_approval_decisions::from_str("allow"), None);
    assert!(is_valid_plugin_approval_severity("critical"));
    assert!(!is_valid_plugin_approval_severity("Critical"));
}

#[test]
fn plugin_approval_enums_render_wire_text() {
    assert_eq!(PluginApprovalSeverity::Warning.as_str(), "warning");
    assert_eq!(PluginApprovalDecision::AllowAlways.as_str(), "allow-always");
}

#[test]
fn plugin_approval_request_minimal_is_valid() {
    assert!(request().validate().is_ok());
}

#[test]
fn plugin_approval_request_title_bounds() {
    let mut r = request();
    r.title = String::new();
    assert_eq!(r.validate().unwrap_err(), "title: expected length [1, 80], got 0");
    r.title = "é".repeat(81);
    assert_eq!(r.validate().unwrap_err(), "title: expected length [1, 80], got 81");
    r.title = "é".repeat(80);
    assert!(r.validate().is_ok());
}

#[test]
fn plugin_approval_request_description_bounds() {
    let mut r = request();
    r.description = "d".repeat(513);
    assert_eq!(r.validate().unwrap_err(), "description: expected length [1, 512], got 513");
}

#[test]
fn plugin_approval_request_plugin_id_must_be_non_empty() {
    let mut r = request();
    r.plugin_id = Some(String::new());
    assert_eq!(r.validate().unwrap_err(), "pluginId: expected non-empty string, got \"\"");
}

#[test]
fn plugin_approval_request_allowed_decisions() {
    let mut r = request();
    r.allowed_decisions = Some(vec![]);
    assert_eq!(r.validate().unwrap_err(), "allowedDecisions: expected length [1, 3], got 0");
    r.allowed_decisions = Some(vec!["deny".into(), "maybe".into()]);
    assert_eq!(
        r.validate().unwrap_err(),
        "allowedDecisions[1]: expected one of [\"allow-once\", \"allow-always\", \"deny\"], got \"maybe\""
    );
    r.allowed_decisions = Some(vec!["deny".into(), "allow-once".into(), "allow-always".into()]);
    assert!(r.validate().is_ok());
}

#[test]
fn plugin_approval_request_timeout_bounds() {
    let mut r = request();
    r.timeout_ms = Some(0);
    assert_eq!(r.validate().unwrap_err(), "timeoutMs: expected integer in [1, 600000], got 0");
    r.timeout_ms = Some(600_001);
    assert_eq!(r.validate().unwrap_err(), "timeoutMs: expected integer in [1, 600000], got 600001");
    r.timeout_ms = Some(600_000);
    assert!(r.validate().is_ok());
}

#[test]
fn plugin_approval_request_reviewer_devices_non_empty() {
    let mut r = request();
    r.approval_reviewer_device_ids = Some(vec!["dev-1".into(), String::new()]);
    assert_eq!(
        r.validate().unwrap_err(),
        "approvalReviewerDeviceIds[1]: expected non-empty string, got \"\""
    );
}

#[test]
fn plugin_approval_request_thread_id_must_be_finite() {
    let mut r = request();
    r.turn_source_thread_id = Some(TurnSourceThreadIdSchema::Number(NumberValue {
        finite: false,
        is_nan: true,
        negative: false,
        text: "NaN".into(),
    }));
    assert_eq!(
        r.validate().unwrap_err(),
        "turnSourceThreadId: turnSourceThreadId: expected finite number, got NaN"
    );
    r.turn_source_thread_id = Some(TurnSourceThreadIdSchema::String("thread".into()));
    assert!(r.validate().is_ok());
}

#[test]
fn plugin_approval_resolve_params() {
    let ok = PluginApprovalResolveParams { id: "a1".into(), decision: "deny".into() };
    assert!(ok.validate().is_ok());
    let bad = PluginApprovalResolveParams { id: "a1".into(), decision: String::new() };
    assert_eq!(bad.validate().unwrap_err(), "decision: expected non-empty string, got \"\"");
}
