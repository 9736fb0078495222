use gateway_protocol::snapshot::{
    AuthMode, PresenceEntry, SessionDefaults, Snapshot, StateVersion, UpdateAvailable,
};
use gateway_protocol::task_suggestions::{
    is_valid_task_suggestion_resolution, TaskSuggestionEventSchema,
    TaskSuggestionResolutionSchema, TaskSuggestionSchema, TaskSuggestionsDismissParamsSchema,
    TaskSuggestionsListParamsSchema, TaskSuggestionsListResultSchema,
};

fn presence(ts: i64) -> PresenceEntry {
    PresenceEntry {
        host: None,
        ip: None,
        version: None,
        platform: None,
        device_family: None,
        model_identifier: None,
        mode: None,
        last_input_seconds: None,
        reason: None,
        tags: None,
        text: None,
        ts,
        device_id: None,
        roles: None,
        scopes: None,
        instance_id: None,
    }
}

fn snapshot(entries: Vec<PresenceEntry>) -> Snapshot {
    Snapshot {
        presence: entries,
        health: serde_json::Value::Null,
        state_version: StateVersion { presence: 1, health: 1 },
        uptime_ms: 10,
        config_path: None,
        state_dir: None,
        session_defaults: None,
        auth_mode: Some(AuthMode::TrustedProxy),
        update_available: None,
    }
}

#[test]
fn presence_entry_checks() {
    assert_eq!(presence(0).validate(), Ok(()));
    assert_eq!(presence(-1).validate(), Err("expected integer >= 0, got -1".to_string()));
    let mut p = presence(0);
    p.host = Some("  ".to_string());
    assert_eq!(p.validate(), Ok(()));
    p.host = Some(String::new());
    assert_eq!(p.validate(), Err("expected non-empty string, got \"\"".to_string()));
    let mut p = presence(0);
    p.tags = Some(vec!["a".to_string(), "\n".to_string(), String::new()]);
    assert_eq!(p.validate(), Err("index 2: expected non-empty string, got \"\"".to_string()));
}

#[test]
fn snapshot_nested_messages() {
    assert_eq!(snapshot(vec![presence(1)]).validate(), Ok(()));
    assert_eq!(
        snapshot(vec![presence(1), presence(-4)]).validate(),
        Err("presence[1]: expected integer >= 0, got -4".to_string())
    );
    let mut s = snapshot(vec![]);
    s.session_defaults = Some(SessionDefaults {
        default_agent_id: "main".to_string(),
        main_key: " ".to_string(),
        main_session_key: "agent:main".to_string(),
        scope: None,
    });
    assert_eq!(s.validate(), Ok(()));
    s.session_defaults = Some(SessionDefaults {
        default_agent_id: "main".to_string(),
        main_key: String::new(),
        main_session_key: "agent:main".to_string(),
        scope: None,
    });
    assert_eq!(s.validate(), Err("sessionDefaults: expected non-empty string, got \"\"".to_string()));
    let mut s = snapshot(vec![]);
    s.update_available = Some(UpdateAvailable {
        current_version: "1.0".to_string(),
        latest_version: "1.1".to_string(),
        channel: String::new(),
    });
    assert_eq!(s.validate(), Err("updateAvailable: expected non-empty string, got \"\"".to_string()));
    let mut s = snapshot(vec![]);
    s.state_version = StateVersion { presence: 0, health: -1 };
    assert_eq!(s.validate(), Err("stateVersion: expected integer >= 0, got -1".to_string()));
    assert_eq!(AuthMode::NoAuth.as_str(), "none");
}

fn suggestion(id: &str, title: &str, created_at: i64) -> TaskSuggestionSchema {
    TaskSuggestionSchema {
        id: id.to_string(),
        title: title.to_string(),
        prompt: "Do it".to_string(),
        tldr: "short".to_string(),
        cwd: "/repo".to_string(),
        session_key: "agent:main".to_string(),
        agent_id: None,
        created_at,
    }
}

#[test]
fn task_suggestion_bounds() {
    assert_eq!(suggestion("t1", "Fix tests", 0).validate(), Ok(()));
    assert_eq!(
        suggestion("t1", &"x".repeat(61), 0).validate(),
        Err("title: expected length in [1, 60], got 61".to_string())
    );
    assert_eq!(
        suggestion("t1", "ok", -1).validate(),
        Err("createdAt: expected integer >= 0, got -1".to_string())
    );
    let list = TaskSuggestionsListResultSchema { suggestions: vec![suggestion("a", "A", 1), suggestion("", "B", 1)] };
    assert_eq!(list.validate(), Err("suggestions[1]: id: expected length in [1, 128], got 0".to_string()));
    let params = TaskSuggestionsListParamsSchema { session_key: None, agent_id: Some("a".repeat(129)) };
    assert_eq!(params.validate(), Err("agentId: expected length in [1, 128], got 129".to_string()));
}

#[test]
fn task_dismiss_and_events() {
    let d = TaskSuggestionsDismissParamsSchema { task_id: "t".to_string(), reason: Some("r".repeat(1025)) };
    assert_eq!(d.validate(), Err("reason: expected length <= 1024, got 1025".to_string()));
    let d = TaskSuggestionsDismissParamsSchema { task_id: "t".to_string(), reason: Some(String::new()) };
    assert_eq!(d.validate(), Ok(()));
    let e = TaskSuggestionEventSchema::Resolved {
        task_id: "t".to_string(),
        resolution: TaskSuggestionResolutionSchema::Expired,
    };
    assert_eq!(e.validate(), Ok(()));
    let e = TaskSuggestionEventSchema::Resolved { task_id: String::new(), resolution: TaskSuggestionResolutionSchema::Accepted };
    assert_eq!(e.validate(), Err("taskId: expected length in [1, 128], got 0".to_string()));
    let e = TaskSuggestionEventSchema::Created { suggestion: suggestion("t", "", 0) };
    assert_eq!(e.validate(), Err("title: expected length in [1, 60], got 0".to_string()));
    assert!(is_valid_task_suggestion_resolution("dismissed"));
    assert!(!is_valid_task_suggestion_resolution("done"));
}
