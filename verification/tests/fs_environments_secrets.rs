use gateway_protocol::environments::{
    EnvironmentStatus, EnvironmentSummary, EnvironmentsCreateParams, EnvironmentsListResult,
    WorkerEnvironmentMetadata, WorkerEnvironmentState, WorkerTunnelStatus,
};
use gateway_protocol::fs::{FsDirEntry, FsListDirParams, FsListDirResult};
use gateway_protocol::secrets::{
    SecretsResolveAssignment, SecretsResolveParams, SecretsResolveProviderOverrides,
    SecretsResolveResult,
};

#[test]
fn fs_messages_name_no_field() {
    assert_eq!(FsListDirParams { path: None, node_id: None }.validate(), Ok(()));
    assert_eq!(
        FsListDirParams { path: Some(String::new()), node_id: None }.validate(),
        Err("expected non-empty string, got \"\"".to_string())
    );
    let result = FsListDirResult {
        path: "/home/u".to_string(),
        parent: Some("/home".to_string()),
        home: "/home/u".to_string(),
        entries: vec![
            FsDirEntry { name: "a".to_string(), path: "/home/u/a".to_string(), hidden: None },
            FsDirEntry { name: "b".to_string(), path: String::new(), hidden: Some(true) },
        ],
    };
    assert_eq!(result.validate(), Err("entries[1]: expected non-empty string, got \"\"".to_string()));
}

fn worker(age: i64, idle: Option<i64>) -> WorkerEnvironmentMetadata {
    WorkerEnvironmentMetadata {
        provider_id: "p".to_string(),
        lease_id: None,
        state: WorkerEnvironmentState::Ready,
        age_ms: age,
        idle_ms: idle,
        attached_session_ids: vec![],
        tunnel_status: WorkerTunnelStatus::Connected,
    }
}

#[test]
fn environment_checks() {
    assert_eq!(worker(0, Some(0)).validate(), Ok(()));
    assert_eq!(worker(-1, None).validate(), Err("ageMs: expected non-negative integer, got -1".to_string()));
    assert_eq!(worker(5, Some(-2)).validate(), Err("idleMs: expected non-negative integer, got -2".to_string()));
    let summary = EnvironmentSummary {
        id: "env-1".to_string(),
        environment_type: "worker".to_string(),
        label: None,
        status: EnvironmentStatus::Available,
        capabilities: Some(vec!["exec".to_string()]),
        worker: Some(worker(-9, None)),
    };
    let list = EnvironmentsListResult { environments: vec![summary] };
    assert_eq!(list.validate(), Err("environments[0]: ageMs: expected non-negative integer, got -9".to_string()));
    let create = EnvironmentsCreateParams { profile_id: "p".to_string(), idempotency_key: String::new() };
    assert_eq!(create.validate(), Err("idempotencyKey: expected non-empty string, got \"\"".to_string()));
}

fn resolve_params() -> SecretsResolveParams {
    SecretsResolveParams {
        command_name: "deploy".to_string(),
        target_ids: vec!["t1".to_string()],
        allowed_paths: None,
        forced_active_paths: None,
        optional_active_paths: None,
        provider_overrides: None,
    }
}

#[test]
fn secrets_resolve_non_empty() {
    let mut p = resolve_params();
    assert_eq!(p.validate(), Ok(()));
    // A NonEmptyString needs one character; white space counts.
    p.command_name = " ".to_string();
    assert_eq!(p.validate(), Ok(()));
    p.command_name = String::new();
    assert_eq!(p.validate(), Err("commandName: expected non-empty string, got \"\"".to_string()));
    p.command_name = "deploy".to_string();
    p.target_ids = vec!["t1".to_string(), "\t".to_string(), String::new()];
    assert_eq!(p.validate(), Err("targetIds[2]: expected non-empty string, got \"\"".to_string()));
    p.target_ids = vec![];
    p.provider_overrides = Some(SecretsResolveProviderOverrides { web_search: None, web_fetch: Some(String::new()) });
    assert_eq!(p.validate(), Err("providerOverrides.webFetch: expected non-empty string, got \"\"".to_string()));
    p.provider_overrides = Some(SecretsResolveProviderOverrides { web_search: Some(" ".to_string()), web_fetch: None });
    assert_eq!(p.validate(), Ok(()));
}

#[test]
fn secrets_resolve_result_assignments() {
    let r = SecretsResolveResult {
        ok: Some(true),
        assignments: Some(vec![SecretsResolveAssignment {
            path: None,
            path_segments: vec!["a".to_string(), String::new()],
            value: serde_json::Value::Null,
        }]),
        diagnostics: None,
        inactive_ref_paths: None,
    };
    assert_eq!(r.validate(), Err("assignments[0]: pathSegments[1]: expected non-empty string, got \"\"".to_string()));
}
