use gateway_protocol::primitives::{
    is_non_empty_string, is_valid_chat_send_session_key, is_valid_env_secret_ref_id,
    is_valid_exec_secret_ref_id, is_valid_file_secret_ref_id, is_valid_input_provenance_kind,
    is_valid_secret_provider_alias, is_valid_secret_ref_source, is_valid_session_label,
    secret_ref_sources, InputProvenanceSchema, SecretRefSchema,
};

#[test]
fn string_primitives() {
    assert!(is_non_empty_string("x"));
    assert!(!is_non_empty_string(""));
    assert!(is_valid_chat_send_session_key(&"k".repeat(512)));
    assert!(!is_valid_chat_send_session_key(&"k".repeat(513)));
    assert!(!is_valid_chat_send_session_key(""));
    assert!(is_valid_session_label(&"é".repeat(512)));
    assert!(!is_valid_session_label(&"é".repeat(513)));
}

#[test]
fn input_provenance() {
    assert!(is_valid_input_provenance_kind("inter_session"));
    assert!(!is_valid_input_provenance_kind("user"));
    let p = InputProvenanceSchema { kind: "external_user".to_string(), ..Default::default() };
    assert_eq!(p.validate(), Ok(()));
    let p = InputProvenanceSchema { kind: "robot".to_string(), ..Default::default() };
    assert_eq!(p.validate(), Err("invalid input provenance kind: robot".to_string()));
}

#[test]
fn secret_ref_sources_list() {
    assert_eq!(secret_ref_sources::all(), &["env", "file", "exec"]);
    assert!(is_valid_secret_ref_source("file"));
    assert!(!is_valid_secret_ref_source("vault"));
}

#[test]
fn provider_alias_grammar() {
    assert!(is_valid_secret_provider_alias("default"));
    assert!(is_valid_secret_provider_alias("my_vault-2"));
    assert!(!is_valid_secret_provider_alias("2fa"));
    assert!(!is_valid_secret_provider_alias("Vault"));
    assert!(!is_valid_secret_provider_alias(""));
    assert!(is_valid_secret_provider_alias(&"a".repeat(64)));
    assert!(!is_valid_secret_provider_alias(&"a".repeat(65)));
}

#[test]
fn env_id_grammar() {
    assert!(is_valid_env_secret_ref_id("OPENAI_API_KEY"));
    assert!(!is_valid_env_secret_ref_id("openai_api_key"));
    assert!(!is_valid_env_secret_ref_id("_KEY"));
    assert!(is_valid_env_secret_ref_id(&"K".repeat(128)));
    assert!(!is_valid_env_secret_ref_id(&"K".repeat(129)));
}

#[test]
fn file_id_grammar() {
    assert!(is_valid_file_secret_ref_id("value"));
    assert!(is_valid_file_secret_ref_id("/"));
    assert!(is_valid_file_secret_ref_id("/providers/openai/apiKey"));
    assert!(is_valid_file_secret_ref_id("/a~0b/c~1d"));
    assert!(!is_valid_file_secret_ref_id("providers/openai"));
    assert!(!is_valid_file_secret_ref_id("/a~2b"));
    assert!(!is_valid_file_secret_ref_id("/trailing~"));
    assert!(!is_valid_file_secret_ref_id(""));
}

#[test]
fn exec_id_grammar() {
    assert!(is_valid_exec_secret_ref_id("vault/openai#key"));
    assert!(is_valid_exec_secret_ref_id("a.b"));
    assert!(is_valid_exec_secret_ref_id("a/..b/c"));
    assert!(is_valid_exec_secret_ref_id("a/.../c"));
    assert!(!is_valid_exec_secret_ref_id(".hidden"));
    assert!(!is_valid_exec_secret_ref_id("a/./b"));
    assert!(!is_valid_exec_secret_ref_id("a/../b"));
    assert!(!is_valid_exec_secret_ref_id("a/.."));
    assert!(!is_valid_exec_secret_ref_id("a/."));
    assert!(!is_valid_exec_secret_ref_id("a b"));
    assert!(is_valid_exec_secret_ref_id(&"a".repeat(256)));
    assert!(!is_valid_exec_secret_ref_id(&"a".repeat(257)));
}

#[test]
fn secret_ref_validation() {
    let ok = SecretRefSchema::Env { provider: "default".to_string(), id: "API_KEY".to_string() };
    assert_eq!(ok.validate(), Ok(()));
    let bad_provider = SecretRefSchema::File { provider: "Bad".to_string(), id: "nope".to_string() };
    assert_eq!(bad_provider.validate(), Err("invalid secret provider alias: Bad".to_string()));
    let bad_env = SecretRefSchema::Env { provider: "default".to_string(), id: "lower".to_string() };
    assert_eq!(bad_env.validate(), Err("invalid env secret ref id: lower".to_string()));
    let bad_file = SecretRefSchema::File { provider: "default".to_string(), id: "rel".to_string() };
    assert_eq!(bad_file.validate(), Err("invalid file secret ref id: rel".to_string()));
    let bad_exec = SecretRefSchema::Exec { provider: "default".to_string(), id: "../x".to_string() };
    assert_eq!(bad_exec.validate(), Err("invalid exec secret ref id: ../x".to_string()));
}
