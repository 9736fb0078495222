use gateway_protocol::sessions::{
    is_valid_sessions_messages_subscribe_include_approvals, is_valid_sessions_usage_range,
    matches_session_file_hash, matches_usage_date, matches_utc_offset, matches_worktree_name,
    SessionsCreateParamsSchema, SessionsFilesSetParamsSchema, SessionsGroupsPutParamsSchema,
    SessionsGroupsRenameParamsSchema, SessionsListParamsSchema,
    SessionsPatchParamsSchema, SessionsPatchSendPolicy, SessionsSearchParamsSchema,
    SessionsUsageParamsSchema, SessionsUsageRange,
};

const HASH: &str = "0123456789abcdef0123456789abcdef0123456789abcdef0123456789abcdef";

#[test]
fn file_hash_grammar() {
    assert!(matches_session_file_hash(HASH));
    assert!(!matches_session_file_hash(&HASH.to_uppercase()));
    assert!(!matches_session_file_hash(&HASH[1..]));
    assert!(!matches_session_file_hash(&format!("{}0", HASH)));
    assert!(!matches_session_file_hash(&HASH.replace('a', "g")));
}

#[test]
fn worktree_name_grammar() {
    assert!(matches_worktree_name("a"));
    assert!(matches_worktree_name("0-feature-x"));
    assert!(matches_worktree_name("trailing-"));
    assert!(!matches_worktree_name(""));
    assert!(!matches_worktree_name("-lead"));
    assert!(!matches_worktree_name("Upper"));
    assert!(!matches_worktree_name("with_underscore"));
    assert!(matches_worktree_name(&"a".repeat(64)));
    assert!(!matches_worktree_name(&"a".repeat(65)));
}

#[test]
fn usage_date_grammar() {
    assert!(matches_usage_date("2024-02-30"));
    assert!(matches_usage_date("0000-00-00"));
    assert!(!matches_usage_date("2024-2-30"));
    assert!(!matches_usage_date("2024/02/30"));
    assert!(!matches_usage_date("2024-02-300"));
    assert!(!matches_usage_date("２０２４-02-30"));
}

#[test]
fn utc_offset_grammar() {
    assert!(matches_utc_offset("UTC+8"));
    assert!(matches_utc_offset("UTC-05"));
    assert!(matches_utc_offset("UTC+5:30"));
    assert!(matches_utc_offset("UTC-12:59"));
    assert!(!matches_utc_offset("UTC"));
    assert!(!matches_utc_offset("UTC+"));
    assert!(!matches_utc_offset("UTC+123"));
    assert!(!matches_utc_offset("UTC+5:60"));
    assert!(!matches_utc_offset("UTC+5:3"));
    assert!(!matches_utc_offset("utc+5"));
    assert!(!matches_utc_offset("GMT+5"));
}

#[test]
fn usage_params_patterns() {
    let mut p = SessionsUsageParamsSchema::default();
    assert_eq!(p.validate(), Ok(()));
    p.start_date = Some("2024-1-1".to_string());
    assert_eq!(
        p.validate(),
        Err("startDate: expected string matching ^\\d{4}-\\d{2}-\\d{2}$, got \"2024-1-1\"".to_string())
    );
    p.start_date = Some("2024-01-01".to_string());
    p.utc_offset = Some("UTC+99:99".to_string());
    assert_eq!(
        p.validate(),
        Err("utcOffset: expected string matching ^UTC[+-]\\d{1,2}(?::[0-5]\\d)?$, got \"UTC+99:99\"".to_string())
    );
    p.utc_offset = Some("UTC+9".to_string());
    p.limit = Some(0);
    assert_eq!(p.validate(), Err("limit: expected integer >= 1, got 0".to_string()));
}

#[test]
fn usage_range_enum() {
    let all = [
        SessionsUsageRange::SevenDays,
        SessionsUsageRange::ThirtyDays,
        SessionsUsageRange::NinetyDays,
        SessionsUsageRange::OneYear,
        SessionsUsageRange::All,
    ];
    for r in all {
        assert!(is_valid_sessions_usage_range(r.as_str()));
    }
    assert_eq!(SessionsUsageRange::SevenDays.as_str(), "7d");
    assert!(!is_valid_sessions_usage_range("forever"));
}

#[test]
fn create_params_worktree_name() {
    let mut p = SessionsCreateParamsSchema::default();
    assert_eq!(p.validate(), Ok(()));
    p.worktree_name = Some("Bad Name".to_string());
    assert_eq!(
        p.validate(),
        Err("worktreeName: expected string matching ^[a-z0-9][a-z0-9-]{0,63}$, got \"Bad Name\"".to_string())
    );
    p.worktree_name = Some("good-name".to_string());
    p.cwd = Some(String::new());
    assert_eq!(p.validate(), Err("cwd: expected length >= 1, got 0".to_string()));
}

#[test]
fn files_set_expected_hash() {
    let mut p = SessionsFilesSetParamsSchema {
        session_key: "s".to_string(),
        path: "a.txt".to_string(),
        agent_id: None,
        content: String::new(),
        expected_hash: HASH.to_string(),
    };
    assert_eq!(p.validate(), Ok(()));
    p.expected_hash = "abc".to_string();
    assert_eq!(p.validate(), Err("expectedHash: expected length [64, 64], got 3".to_string()));
    p.expected_hash = HASH.to_uppercase();
    assert_eq!(
        p.validate(),
        Err(format!("expectedHash: expected string matching ^[a-f0-9]{{64}}$, got \"{}\"", HASH.to_uppercase()))
    );
}

#[test]
fn search_params_limits() {
    let mut p = SessionsSearchParamsSchema { agent_id: None, session_keys: None, query: "q".to_string(), limit: Some(25) };
    assert_eq!(p.validate(), Ok(()));
    p.limit = Some(26);
    assert_eq!(p.validate(), Err("limit: expected 1..=25, got 26".to_string()));
    p.limit = None;
    p.query = String::new();
    assert_eq!(p.validate(), Err("query: expected length [1, 4096], got 0".to_string()));
    p.query = "x".repeat(4097);
    assert_eq!(p.validate(), Err("query: expected length [1, 4096], got 4097".to_string()));
    p.query = "q".to_string();
    p.session_keys = Some(vec!["k".to_string(); 201]);
    assert_eq!(p.validate(), Err("sessionKeys: expected length <= 200, got 201".to_string()));
}

#[test]
fn patch_clearable_fields() {
    let mut p = SessionsPatchParamsSchema { key: "main".to_string(), ..Default::default() };
    assert_eq!(p.validate(), Ok(()));
    // Clearing a field is accepted; setting it to an empty string is not.
    p.label = Some(None);
    p.model = Some(None);
    assert_eq!(p.validate(), Ok(()));
    p.model = Some(Some(String::new()));
    assert_eq!(p.validate(), Err("model: expected non-empty string, got \"\"".to_string()));
    p.model = Some(Some("gpt".to_string()));
    p.spawn_depth = Some(Some(-1));
    assert_eq!(p.validate(), Err("spawnDepth: expected integer >= 0, got -1".to_string()));
    p.spawn_depth = Some(None);
    p.inherited_tool_deny = Some(Some(vec!["read".to_string(), String::new()]));
    assert_eq!(p.validate(), Err("inheritedToolDeny[1]: expected non-empty string, got \"\"".to_string()));
    p.inherited_tool_deny = None;
    p.send_policy = Some(Some(SessionsPatchSendPolicy::Deny));
    assert_eq!(p.validate(), Ok(()));
    p.key = String::new();
    assert_eq!(p.validate(), Err("key: expected non-empty string, got \"\"".to_string()));
}

#[test]
fn groups_put_limits() {
    let p = SessionsGroupsPutParamsSchema { names: vec!["g".to_string(); 201] };
    assert_eq!(p.validate(), Err("names: expected length <= 200, got 201".to_string()));
    let p = SessionsGroupsPutParamsSchema { names: vec!["g".to_string(), String::new()] };
    assert_eq!(p.validate(), Err("names[1]: expected non-empty string, got \"\"".to_string()));
}

#[test]
fn include_approvals_only_true() {
    assert!(is_valid_sessions_messages_subscribe_include_approvals(&true));
    assert!(!is_valid_sessions_messages_subscribe_include_approvals(&false));
}

#[test]
fn debug_rendering_escapes_quotes() {
    let mut p = SessionsUsageParamsSchema::default();
    p.start_date = Some("a\"b".to_string());
    assert_eq!(
        p.validate(),
        Err("startDate: expected string matching ^\\d{4}-\\d{2}-\\d{2}$, got \"a\\\"b\"".to_string())
    );
}

#[test]
fn session_label_bounds() {
    let mut list = SessionsListParamsSchema::default();
    list.label = Some("l".repeat(512));
    assert_eq!(list.validate(), Ok(()));
    list.label = Some("l".repeat(513));
    assert_eq!(list.validate(), Err("label: expected length <= 512, got 513".to_string()));
    let mut p = SessionsPatchParamsSchema { key: "main".to_string(), ..Default::default() };
    p.category = Some(Some("c".repeat(513)));
    assert_eq!(p.validate(), Err("category: expected length <= 512, got 513".to_string()));
    p.category = Some(None);
    p.label = Some(Some(String::new()));
    assert_eq!(p.validate(), Err("label: expected non-empty string, got \"\"".to_string()));
    let put = SessionsGroupsPutParamsSchema { names: vec!["g".to_string(), "g".repeat(513)] };
    assert_eq!(put.validate(), Err("names[1]: expected length <= 512, got 513".to_string()));
    let rename = SessionsGroupsRenameParamsSchema { name: "a".to_string(), to: "b".repeat(513) };
    assert_eq!(rename.validate(), Err("to: expected length <= 512, got 513".to_string()));
}

#[test]
fn search_session_keys_need_one() {
    let p = SessionsSearchParamsSchema { agent_id: None, session_keys: Some(vec![]), query: "q".to_string(), limit: None };
    assert_eq!(p.validate(), Err("sessionKeys: expected length >= 1, got 0".to_string()));
    let p = SessionsSearchParamsSchema { agent_id: None, session_keys: Some(vec!["k".to_string()]), query: "q".to_string(), limit: None };
    assert_eq!(p.validate(), Ok(()));
}
