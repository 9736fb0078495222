use std::collections::BTreeMap;

use gateway_protocol::sessions_catalog::{
    is_valid_session_catalog_host_kind, is_valid_session_catalog_transcript_item_type,
    SessionCatalogCapabilitiesSchema, SessionCatalogErrorSchema, SessionCatalogHostKind,
    SessionCatalogHostSchema, SessionCatalogSchema, SessionCatalogTranscriptItemType,
    SessionsCatalogArchiveParamsSchema, SessionsCatalogListDiscoveryParamsSchema,
    SessionsCatalogListParamsSchema, SessionsCatalogListPagedParamsSchema,
    SessionsCatalogListResultSchema, SessionsCatalogReadParamsSchema,
};

fn paged(cursors: &[(&str, &str)]) -> SessionsCatalogListPagedParamsSchema {
    let mut map = BTreeMap::new();
    for (k, v) in cursors {
        map.insert(k.to_string(), v.to_string());
    }
    SessionsCatalogListPagedParamsSchema {
        catalog_id: "codex".to_string(),
        cursors: map,
        search: None,
        limit_per_host: None,
        host_ids: None,
    }
}

#[test]
fn catalog_enums() {
    assert_eq!(SessionCatalogHostKind::Gateway.as_str(), "gateway");
    assert!(is_valid_session_catalog_host_kind("node"));
    assert!(!is_valid_session_catalog_host_kind("Node"));
    assert_eq!(SessionCatalogTranscriptItemType::ToolCall.as_str(), "toolCall");
    assert!(is_valid_session_catalog_transcript_item_type("agentMessage"));
    assert!(!is_valid_session_catalog_transcript_item_type("tool_call"));
}

#[test]
fn cursors_all_filled_pass() {
    assert_eq!(paged(&[]).validate(), Ok(()));
    assert_eq!(paged(&[("gateway", "c1"), ("node-1", "c2")]).validate(), Ok(()));
}

#[test]
fn cursor_with_empty_key_is_reported() {
    assert_eq!(
        paged(&[("", "c"), ("a", "x")]).validate(),
        Err("cursors: expected non-empty string key, got \"\"".to_string())
    );
}

#[test]
fn cursor_values_are_free() {
    // Only keys are constrained; an empty cursor value is accepted.
    assert_eq!(paged(&[("zeta", ""), ("alpha", "ok")]).validate(), Ok(()));
    assert_eq!(
        paged(&[("zeta", ""), ("", "")]).validate(),
        Err("cursors: expected non-empty string key, got \"\"".to_string())
    );
}

#[test]
fn paged_checks_catalog_id_before_cursors() {
    let mut p = paged(&[("", "x")]);
    p.catalog_id = String::new();
    assert_eq!(p.validate(), Err("catalogId: expected non-empty string, got \"\"".to_string()));
    let mut p = paged(&[("a", "x")]);
    p.limit_per_host = Some(0);
    assert_eq!(p.validate(), Err("limitPerHost: expected integer >= 1, got 0".to_string()));
    let mut p = paged(&[("a", "x")]);
    p.host_ids = Some(vec!["h".to_string(), String::new()]);
    assert_eq!(p.validate(), Err("hostIds[1]: expected non-empty string, got \"\"".to_string()));
}

#[test]
fn list_params_dispatch_on_variant() {
    let d = SessionsCatalogListParamsSchema::Discovery(SessionsCatalogListDiscoveryParamsSchema {
        catalog_id: Some(String::new()),
        search: None,
        limit_per_host: None,
        host_ids: None,
    });
    assert_eq!(d.validate(), Err("catalogId: expected non-empty string, got \"\"".to_string()));
    let p = SessionsCatalogListParamsSchema::Paged(paged(&[("k", "v")]));
    assert_eq!(p.validate(), Ok(()));
    let ok = SessionsCatalogListDiscoveryParamsSchema::default();
    assert_eq!(ok.validate(), Ok(()));
}

fn host(id: &str, error: Option<SessionCatalogErrorSchema>) -> SessionCatalogHostSchema {
    SessionCatalogHostSchema {
        host_id: id.to_string(),
        label: "Host".to_string(),
        kind: SessionCatalogHostKind::Gateway,
        connected: true,
        node_id: None,
        sessions: vec![],
        next_cursor: None,
        error,
    }
}

#[test]
fn list_result_reports_nested_path() {
    let catalog = SessionCatalogSchema {
        id: "codex".to_string(),
        label: "Codex".to_string(),
        capabilities: SessionCatalogCapabilitiesSchema { continue_session: true, archive: false },
        hosts: vec![
            host("gw", None),
            host("n1", Some(SessionCatalogErrorSchema { code: "E".to_string(), message: String::new() })),
        ],
        error: None,
    };
    let result = SessionsCatalogListResultSchema { catalogs: vec![catalog] };
    assert_eq!(
        result.validate(),
        Err("catalogs[0]: hosts[1]: error: message: expected non-empty string, got \"\"".to_string())
    );
}

#[test]
fn read_params_limit() {
    let p = SessionsCatalogReadParamsSchema {
        catalog_id: "c".to_string(),
        host_id: "h".to_string(),
        thread_id: "t".to_string(),
        limit: Some(-3),
        cursor: None,
    };
    assert_eq!(p.validate(), Err("limit: expected integer >= 1, got -3".to_string()));
}

#[test]
fn archive_requires_confirmation() {
    let mut p = SessionsCatalogArchiveParamsSchema {
        catalog_id: "c".to_string(),
        host_id: "h".to_string(),
        thread_id: "t".to_string(),
        confirm_no_other_runner: false,
    };
    assert_eq!(p.validate(), Err("confirmNoOtherRunner: expected literal true".to_string()));
    p.confirm_no_other_runner = true;
    assert_eq!(p.validate(), Ok(()));
}
