use std::collections::BTreeMap;

use gateway_protocol::exec_approvals::{
    exec_ask, exec_security, is_valid_exec_ask, is_valid_exec_security,
    is_valid_native_exec_approval_action, native_exec_approval_action, utf16_length,
    ExecApprovalAllowlistRuleSchema, ExecApprovalPolicySnapshotSchema, ExecApprovalRequestParamsSchema,
    ExecApprovalsAgentSchema, ExecApprovalsDefaultsSchema, ExecApprovalsAllowlistEntrySchema,
    ExecApprovalsFileSchema, ExecApprovalsNodeSetParamsSchema, ExecApprovalsNodeSnapshotSchema,
    ExecApprovalsPolicyFields, ExecApprovalsResolvedDefaultsSchema, ExecCommandSpanSchema,
    ExecTurnSourceThreadId, NativeExecApprovalPolicySchema, NativeExecApprovalRuleSchema,
};
use gateway_protocol::json::NumberValue;

fn policy(security: Option<&str>, ask: Option<&str>) -> ExecApprovalsPolicyFields {
    ExecApprovalsPolicyFields {
        security: security.map(|s| s.to_string()),
        ask: ask.map(|s| s.to_string()),
        ask_fallback: None,
        auto_allow_skills: None,
    }
}

fn entry(pattern: &str) -> ExecApprovalsAllowlistEntrySchema {
    ExecApprovalsAllowlistEntrySchema {
        id: None,
        pattern: pattern.to_string(),
        source: None,
        command_text: None,
        arg_pattern: None,
        last_used_at: None,
        last_used_command: None,
        last_resolved_path: None,
    }
}

fn number(text: &str, finite: bool, negative: bool) -> NumberValue {
    NumberValue { finite, is_nan: false, negative, text: text.to_string() }
}

#[test]
fn member_lists() {
    assert_eq!(exec_security::all(), &["deny", "allowlist", "full"]);
    assert_eq!(exec_ask::all(), &["off", "on-miss", "always"]);
    assert_eq!(native_exec_approval_action::all(), &["allow", "deny", "prompt"]);
    assert!(is_valid_exec_security("allowlist"));
    assert!(!is_valid_exec_security("Allowlist"));
    assert!(is_valid_exec_ask("on-miss"));
    assert!(!is_valid_exec_ask("never"));
    assert!(is_valid_native_exec_approval_action("prompt"));
    assert!(!is_valid_native_exec_approval_action("ask"));
}

#[test]
fn policy_fields_are_free_strings() {
    // The persisted policy fields are free strings; only resolved defaults and
    // policy snapshots name known values.
    assert_eq!(policy(Some("full"), Some("always")).validate(), Ok(()));
    assert_eq!(policy(Some("root"), Some("bogus")).validate(), Ok(()));
    let mut p = policy(None, None);
    p.ask_fallback = Some(String::new());
    assert_eq!(p.validate(), Ok(()));
    let d = ExecApprovalsDefaultsSchema { policy: policy(Some("x"), Some("y")) };
    assert_eq!(d.validate(), Ok(()));
    let snapshot = ExecApprovalPolicySnapshotSchema {
        security: "root".to_string(),
        ask: "off".to_string(),
        ask_fallback: "deny".to_string(),
        auto_allow_skills: false,
        allowlist_rules: vec![],
    };
    assert_eq!(
        snapshot.validate(),
        Err("security: expected one of [\"deny\", \"allowlist\", \"full\"], got \"root\"".to_string())
    );
}

#[test]
fn resolved_defaults_require_known_values() {
    let d = ExecApprovalsResolvedDefaultsSchema {
        security: "deny".to_string(),
        ask: "off".to_string(),
        ask_fallback: "full".to_string(),
        auto_allow_skills: false,
    };
    assert_eq!(d.validate(), Ok(()));
}

#[test]
fn allowlist_entry_checks() {
    assert_eq!(entry("git *").validate(), Ok(()));
    assert_eq!(entry("").validate(), Ok(()));
    let mut e = entry("ls");
    e.source = Some("manual".to_string());
    assert_eq!(e.validate(), Err("source: expected literal \"allow-always\", got \"manual\"".to_string()));
    e.source = Some("allow-always".to_string());
    e.last_used_at = Some(number("-1.5", true, true));
    assert_eq!(e.validate(), Err("lastUsedAt: expected finite number >= 0, got -1.5".to_string()));
    e.last_used_at = Some(number("inf", false, false));
    assert_eq!(e.validate(), Err("lastUsedAt: expected finite number >= 0, got inf".to_string()));
    e.last_used_at = Some(number("0", true, false));
    assert_eq!(e.validate(), Ok(()));
}

fn file_with_agents(agents: Vec<(&str, ExecApprovalsAgentSchema)>) -> ExecApprovalsFileSchema {
    let mut map = BTreeMap::new();
    for (k, v) in agents {
        map.insert(k.to_string(), v);
    }
    ExecApprovalsFileSchema { version: 1, socket: None, defaults: None, agents: Some(map) }
}

#[test]
fn file_version_and_agents_in_key_order() {
    let f = ExecApprovalsFileSchema { version: 2, ..Default::default() };
    assert_eq!(f.validate(), Err("version: expected literal 1, got 2".to_string()));
    let mut bad_source = entry("ls");
    bad_source.source = Some("manual".to_string());
    let free_policy = ExecApprovalsAgentSchema { policy: policy(None, Some("x")), allowlist: Some(vec![entry("")]) };
    let bad_entry = ExecApprovalsAgentSchema { policy: policy(None, None), allowlist: Some(vec![entry("a"), bad_source]) };
    let f = file_with_agents(vec![("zed", bad_entry.clone()), ("main", bad_entry.clone()), ("alpha", free_policy.clone())]);
    assert_eq!(
        f.validate(),
        Err("agents[main]: allowlist[1]: source: expected literal \"allow-always\", got \"manual\"".to_string())
    );
    let f = file_with_agents(vec![("zed", free_policy)]);
    assert_eq!(f.validate(), Ok(()));
}

#[test]
fn allowlist_rule_pattern_is_free() {
    let rule = ExecApprovalAllowlistRuleSchema { pattern: String::new(), arg_pattern: None, source: None };
    assert_eq!(rule.validate(), Ok(()));
    let rule = ExecApprovalAllowlistRuleSchema { pattern: "x".to_string(), arg_pattern: None, source: Some("once".to_string()) };
    assert_eq!(rule.validate(), Err("source: expected literal \"allow-always\", got \"once\"".to_string()));
}

fn rule(action: &str) -> NativeExecApprovalRuleSchema {
    NativeExecApprovalRuleSchema {
        pattern: "rm *".to_string(),
        action: action.to_string(),
        shells: None,
        description: None,
        enabled: None,
    }
}

#[test]
fn node_snapshot_shapes() {
    let file_form = ExecApprovalsNodeSnapshotSchema {
        path: Some("/etc/a.json".to_string()),
        exists: Some(true),
        hash: Some("h".to_string()),
        file: Some(ExecApprovalsFileSchema { version: 1, ..Default::default() }),
        ..Default::default()
    };
    assert_eq!(file_form.validate(), Ok(()));
    let mut mixed = file_form.clone();
    mixed.enabled = Some(true);
    assert_eq!(
        mixed.validate(),
        Err("nodeSnapshot: file-backed shape (path+exists+hash+file) cannot also carry native fields".to_string())
    );
    let native = ExecApprovalsNodeSnapshotSchema {
        enabled: Some(true),
        hash: Some("h".to_string()),
        default_action: Some("prompt".to_string()),
        rules: Some(vec![rule("deny")]),
        ..Default::default()
    };
    assert_eq!(native.validate(), Ok(()));
    let mut empty_hash = native.clone();
    empty_hash.hash = Some(String::new());
    assert_eq!(
        empty_hash.validate(),
        Err("nodeSnapshot: native enabled shape requires non-empty hash".to_string())
    );
    let mut with_path = native.clone();
    with_path.path = Some("/p".to_string());
    assert_eq!(
        with_path.validate(),
        Err("nodeSnapshot: native enabled shape (enabled=true+hash+defaultAction+rules) cannot also carry file-backed fields".to_string())
    );
    let mut bad_rule = native.clone();
    bad_rule.rules = Some(vec![rule("allow"), rule("maybe")]);
    assert_eq!(
        bad_rule.validate(),
        Err("rules[1]: action: expected one of [\"allow\", \"deny\", \"prompt\"], got \"maybe\"".to_string())
    );
    let disabled = ExecApprovalsNodeSnapshotSchema {
        enabled: Some(false),
        message: Some("off".to_string()),
        ..Default::default()
    };
    assert_eq!(disabled.validate(), Ok(()));
    let mut disabled_extra = disabled.clone();
    disabled_extra.hash = Some("h".to_string());
    assert_eq!(
        disabled_extra.validate(),
        Err("nodeSnapshot: native disabled shape (enabled=false) must not carry any other fields".to_string())
    );
    assert_eq!(
        ExecApprovalsNodeSnapshotSchema::default().validate(),
        Err("nodeSnapshot: payload matches none of the supported shapes (file-backed, native-enabled, native-disabled)".to_string())
    );
}

#[test]
fn node_set_targets_exactly_one_owner() {
    let file = ExecApprovalsFileSchema { version: 1, ..Default::default() };
    let only_file = ExecApprovalsNodeSetParamsSchema {
        node_id: "n".to_string(),
        file: Some(file.clone()),
        native: None,
        base_hash: None,
    };
    assert_eq!(only_file.validate(), Ok(()));
    let native = NativeExecApprovalPolicySchema { default_action: Some("allow".to_string()), rules: vec![] };
    let both = ExecApprovalsNodeSetParamsSchema {
        node_id: "n".to_string(),
        file: Some(file),
        native: Some(native.clone()),
        base_hash: Some("b".to_string()),
    };
    let msg = "ExecApprovalsNodeSetParamsSchema: must carry exactly one of {file} or {native,baseHash}".to_string();
    assert_eq!(both.validate(), Err(msg.clone()));
    let native_without_hash = ExecApprovalsNodeSetParamsSchema {
        node_id: "n".to_string(),
        file: None,
        native: Some(native.clone()),
        base_hash: None,
    };
    assert_eq!(native_without_hash.validate(), Err(msg.clone()));
    let native_with_hash = ExecApprovalsNodeSetParamsSchema {
        node_id: "n".to_string(),
        file: None,
        native: Some(native),
        base_hash: Some("b".to_string()),
    };
    assert_eq!(native_with_hash.validate(), Ok(()));
    assert_eq!(ExecApprovalsNodeSetParamsSchema { node_id: "n".to_string(), ..Default::default() }.validate(), Err(msg));
}

#[test]
fn utf16_length_counts_surrogate_pairs() {
    assert_eq!(utf16_length(""), 0);
    assert_eq!(utf16_length("abc"), 3);
    assert_eq!(utf16_length("é"), 1);
    assert_eq!(utf16_length("😀"), 2);
    assert_eq!(utf16_length("a😀b"), 4);
}

#[test]
fn command_span_checks() {
    let span = ExecCommandSpanSchema { start_index: 0, end_index: 3 };
    assert_eq!(span.validate(3), Ok(()));
    assert_eq!(span.validate(2), Err("commandSpan: endIndex (3) exceeds command length (2)".to_string()));
    let empty = ExecCommandSpanSchema { start_index: 2, end_index: 2 };
    assert_eq!(empty.validate(10), Err("commandSpan: endIndex (2) must be greater than startIndex (2)".to_string()));
    let neg = ExecCommandSpanSchema { start_index: -1, end_index: 2 };
    assert_eq!(neg.validate(10), Err("startIndex: expected integer >= 0, got -1".to_string()));
    let zero_end = ExecCommandSpanSchema { start_index: 0, end_index: 0 };
    assert_eq!(zero_end.validate(10), Err("endIndex: expected integer >= 1, got 0".to_string()));
}

fn request(command: &str) -> ExecApprovalRequestParamsSchema {
    ExecApprovalRequestParamsSchema { command: Some(command.to_string()), ..Default::default() }
}

#[test]
fn request_spans_measured_in_utf16() {
    // "😀 ls" is 5 UTF-16 code units but 4 characters and 7 bytes.
    let mut r = request("😀 ls");
    r.command_spans = Some(vec![ExecCommandSpanSchema { start_index: 3, end_index: 5 }]);
    assert_eq!(r.validate(), Ok(()));
    r.command_spans = Some(vec![
        ExecCommandSpanSchema { start_index: 0, end_index: 2 },
        ExecCommandSpanSchema { start_index: 3, end_index: 6 },
    ]);
    assert_eq!(
        r.validate(),
        Err("commandSpans[1]: commandSpan: endIndex (6) exceeds command length (5)".to_string())
    );
}

#[test]
fn request_env_and_decisions() {
    let mut r = request("ls");
    let mut env = BTreeMap::new();
    env.insert("PATH".to_string(), "/bin".to_string());
    env.insert(String::new(), "x".to_string());
    r.env = Some(env);
    assert_eq!(r.validate(), Err("env key: expected non-empty string, got \"\"".to_string()));
    r.env = None;
    r.unavailable_decisions = Some(vec![]);
    assert_eq!(r.validate(), Err("unavailableDecisions: expected length [1, 1], got 0".to_string()));
    r.unavailable_decisions = Some(vec!["deny".to_string()]);
    assert_eq!(
        r.validate(),
        Err("unavailableDecisions[0]: expected literal \"allow-always\", got \"deny\"".to_string())
    );
    r.unavailable_decisions = Some(vec!["allow-always".to_string()]);
    assert_eq!(r.validate(), Ok(()));
    r.command_argv = Some(vec!["ls".to_string(), String::new()]);
    assert_eq!(r.validate(), Err("commandArgv[1]: expected non-empty string".to_string()));
}

#[test]
fn request_delivery_checks() {
    let mut r = request("ls");
    r.timeout_ms = Some(0);
    assert_eq!(r.validate(), Err("timeoutMs: expected integer >= 1, got 0".to_string()));
    r.timeout_ms = Some(1);
    r.turn_source_thread_id = Some(ExecTurnSourceThreadId::Number(number("NaN", false, false)));
    assert_eq!(
        r.validate(),
        Err("turnSourceThreadId: turnSourceThreadId: expected finite number, got NaN".to_string())
    );
    r.turn_source_thread_id = Some(ExecTurnSourceThreadId::Null);
    assert_eq!(r.validate(), Ok(()));
    r.command = Some(String::new());
    assert_eq!(r.validate(), Err("command: expected non-empty string, got \"\"".to_string()));
}
