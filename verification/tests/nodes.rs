use gateway_protocol::nodes::{
    is_valid_node_pending_drain_priority, is_valid_node_pending_work_type,
    is_valid_node_plugin_tool_name, is_valid_node_presence_alive_reason, is_valid_node_skill_name,
    NodeExpiresAtMs, NodeInvokeResultErrorSchema, NodePendingAckParamsSchema,
    NodePendingDrainItemSchema, NodePendingDrainParamsSchema, NodePendingDrainPrioritySchema,
    NodePendingDrainResultSchema, NodePendingEnqueueParamsSchema, NodePendingWorkTypeSchema,
    NodePluginToolDescriptorSchema, NodePluginToolMcpSchema, NodePresenceActivityPayloadSchema,
    NodePresenceAliveReasonSchema, NodeRenameParamsSchema, NodeSkillDescriptorSchema,
    NodeSkillsUpdateParamsSchema, NodeInvokeResultParamsSchema,
};

fn skill(name: &str) -> NodeSkillDescriptorSchema {
    NodeSkillDescriptorSchema {
        name: name.to_string(),
        description: "d".to_string(),
        content: "c".to_string(),
    }
}

fn tool(name: &str) -> NodePluginToolDescriptorSchema {
    NodePluginToolDescriptorSchema {
        plugin_id: "p".to_string(),
        name: name.to_string(),
        description: "desc".to_string(),
        parameters: None,
        command: None,
        mcp: None,
    }
}

#[test]
fn plugin_tool_name_grammar() {
    assert!(is_valid_node_plugin_tool_name("a"));
    assert!(is_valid_node_plugin_tool_name("Tool_name-2"));
    assert!(!is_valid_node_plugin_tool_name(""));
    assert!(!is_valid_node_plugin_tool_name("1tool"));
    assert!(!is_valid_node_plugin_tool_name("_tool"));
    assert!(!is_valid_node_plugin_tool_name("tool.name"));
    assert!(is_valid_node_plugin_tool_name(&"a".repeat(64)));
    assert!(!is_valid_node_plugin_tool_name(&"a".repeat(65)));
}

#[test]
fn skill_name_grammar() {
    assert!(is_valid_node_skill_name("a"));
    assert!(is_valid_node_skill_name("7"));
    assert!(is_valid_node_skill_name("my-skill-2"));
    assert!(!is_valid_node_skill_name(""));
    assert!(!is_valid_node_skill_name("-skill"));
    assert!(!is_valid_node_skill_name("skill-"));
    assert!(!is_valid_node_skill_name("my--skill"));
    assert!(!is_valid_node_skill_name("My-skill"));
    assert!(!is_valid_node_skill_name("my_skill"));
    assert!(is_valid_node_skill_name(&"a".repeat(64)));
    assert!(!is_valid_node_skill_name(&"a".repeat(65)));
}

#[test]
fn node_enums_round_trip() {
    for w in NodePendingWorkTypeSchema::all() {
        assert_eq!(NodePendingWorkTypeSchema::from_str(w.as_str()), Some(*w));
    }
    assert_eq!(NodePendingWorkTypeSchema::StatusRequest.as_str(), "status.request");
    assert!(is_valid_node_pending_work_type("location.request"));
    assert!(!is_valid_node_pending_work_type("location"));
    assert_eq!(NodePendingDrainPrioritySchema::from_str("default"), Some(NodePendingDrainPrioritySchema::Default));
    assert!(is_valid_node_pending_drain_priority("high"));
    assert!(!is_valid_node_pending_drain_priority("urgent"));
    assert_eq!(NodePresenceAliveReasonSchema::all().len(), 6);
    assert_eq!(NodePresenceAliveReasonSchema::SilentPush.as_str(), "silent_push");
    assert!(is_valid_node_presence_alive_reason("bg_app_refresh"));
    assert!(!is_valid_node_presence_alive_reason("Manual"));
}

#[test]
fn presence_activity_idle_seconds_bounds() {
    let ok = NodePresenceActivityPayloadSchema { idle_seconds: 2_592_000, saturated: None };
    assert_eq!(ok.validate(), Ok(()));
    let over = NodePresenceActivityPayloadSchema { idle_seconds: 2_592_001, saturated: Some(true) };
    assert_eq!(over.validate(), Err("idleSeconds: expected [0, 2592000], got 2592001".to_string()));
    let neg = NodePresenceActivityPayloadSchema { idle_seconds: -1, saturated: None };
    assert_eq!(neg.validate(), Err("idleSeconds: expected [0, 2592000], got -1".to_string()));
}

#[test]
fn rename_reports_first_empty_field() {
    let p = NodeRenameParamsSchema { node_id: String::new(), display_name: String::new() };
    assert_eq!(p.validate(), Err("nodeId: expected non-empty string, got \"\"".to_string()));
    let p = NodeRenameParamsSchema { node_id: "n".to_string(), display_name: String::new() };
    assert_eq!(p.validate(), Err("displayName: expected non-empty string, got \"\"".to_string()));
}

#[test]
fn plugin_tool_descriptor_messages() {
    assert_eq!(tool("run").validate(), Ok(()));
    assert_eq!(
        tool("9run").validate(),
        Err("name: invalid plugin tool name: \"9run\"".to_string())
    );
    let mut t = tool("run");
    t.mcp = Some(NodePluginToolMcpSchema { server: "s".to_string(), tool: String::new() });
    assert_eq!(t.validate(), Err("mcp: tool: expected non-empty string, got \"\"".to_string()));
}

#[test]
fn skill_descriptor_messages() {
    assert_eq!(skill("ok").validate(), Ok(()));
    assert_eq!(skill("a--b").validate(), Err("name: invalid skill name: \"a--b\"".to_string()));
    let mut s = skill("ok");
    s.description = String::new();
    assert_eq!(s.validate(), Err("description: expected length [1, 1024], got 0".to_string()));
    let mut s = skill("ok");
    s.description = "é".repeat(1024);
    assert_eq!(s.validate(), Ok(()));
    s.content = String::new();
    assert_eq!(s.validate(), Err("content: expected length [1, 65536], got 0".to_string()));
}

#[test]
fn skills_update_limits_and_indexes() {
    let many = NodeSkillsUpdateParamsSchema { skills: (0..65).map(|_| skill("s")).collect() };
    assert_eq!(many.validate(), Err("skills: maxItems 64, got 65".to_string()));
    let full = NodeSkillsUpdateParamsSchema { skills: (0..64).map(|_| skill("s")).collect() };
    assert_eq!(full.validate(), Ok(()));
    let bad = NodeSkillsUpdateParamsSchema { skills: vec![skill("s"), skill("-x"), skill("--")] };
    assert_eq!(bad.validate(), Err("skills[1]: name: invalid skill name: \"-x\"".to_string()));
}

#[test]
fn pending_ack_requires_ids() {
    let none = NodePendingAckParamsSchema { ids: vec![] };
    assert_eq!(none.validate(), Err("ids: minItems 1, got 0".to_string()));
    let blank = NodePendingAckParamsSchema { ids: vec!["a".to_string(), String::new()] };
    assert_eq!(blank.validate(), Err("ids[1]: expected non-empty string, got \"\"".to_string()));
    let ok = NodePendingAckParamsSchema { ids: vec!["a".to_string()] };
    assert_eq!(ok.validate(), Ok(()));
}

#[test]
fn pending_drain_bounds() {
    assert_eq!(NodePendingDrainParamsSchema { max_items: None }.validate(), Ok(()));
    assert_eq!(NodePendingDrainParamsSchema { max_items: Some(10) }.validate(), Ok(()));
    assert_eq!(
        NodePendingDrainParamsSchema { max_items: Some(0) }.validate(),
        Err("maxItems: expected [1, 10], got 0".to_string())
    );
    assert_eq!(
        NodePendingDrainParamsSchema { max_items: Some(11) }.validate(),
        Err("maxItems: expected [1, 10], got 11".to_string())
    );
}

fn item(created: i64, expires: Option<NodeExpiresAtMs>) -> NodePendingDrainItemSchema {
    NodePendingDrainItemSchema {
        id: "w1".to_string(),
        work_type: NodePendingWorkTypeSchema::StatusRequest,
        priority: NodePendingDrainPrioritySchema::Normal,
        created_at_ms: created,
        expires_at_ms: expires,
        payload: None,
    }
}

#[test]
fn pending_drain_result_items() {
    let r = NodePendingDrainResultSchema {
        node_id: "n".to_string(),
        revision: 3,
        items: vec![item(0, Some(NodeExpiresAtMs::Null(serde_json::Value::Null))), item(5, Some(NodeExpiresAtMs::Millis(-2)))],
        has_more: false,
    };
    assert_eq!(r.validate(), Err("items[1]: expiresAtMs: expected >= 0, got -2".to_string()));
    let r = NodePendingDrainResultSchema { node_id: "n".to_string(), revision: -1, items: vec![], has_more: true };
    assert_eq!(r.validate(), Err("revision: expected >= 0, got -1".to_string()));
    assert_eq!(item(-7, None).validate(), Err("createdAtMs: expected >= 0, got -7".to_string()));
}

#[test]
fn pending_enqueue_expiry_window() {
    let mk = |e: Option<i64>| NodePendingEnqueueParamsSchema {
        node_id: "n".to_string(),
        work_type: NodePendingWorkTypeSchema::LocationRequest,
        priority: None,
        expires_in_ms: e,
        wake: None,
    };
    assert_eq!(mk(None).validate(), Ok(()));
    assert_eq!(mk(Some(1_000)).validate(), Ok(()));
    assert_eq!(mk(Some(86_400_000)).validate(), Ok(()));
    assert_eq!(mk(Some(999)).validate(), Err("expiresInMs: expected [1000, 86400000], got 999".to_string()));
}

#[test]
fn invoke_result_error_block_prefixed() {
    let p = NodeInvokeResultParamsSchema {
        id: "i".to_string(),
        node_id: "n".to_string(),
        ok: false,
        payload: None,
        payload_json: None,
        error: Some(NodeInvokeResultErrorSchema { code: Some(String::new()), message: None }),
    };
    assert_eq!(p.validate(), Err("error: code: expected non-empty string, got \"\"".to_string()));
}
