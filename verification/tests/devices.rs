use gateway_protocol::devices::{
    is_valid_device_pair_setup_code_auth, is_valid_device_pair_setup_code_bootstrap_profile,
    DevicePairRenameParams, DevicePairRequestedEvent, DevicePairResolvedEvent,
    DevicePairSetupCodeAuth, DevicePairSetupCodeResult, DeviceTokenRotateParams,
};

fn setup_result(urls: Option<Vec<&str>>) -> DevicePairSetupCodeResult {
    DevicePairSetupCodeResult {
        setup_code: "ABC-123".to_string(),
        qr_data_url: None,
        gateway_url: "wss://gw.example".to_string(),
        gateway_urls: urls.map(|v| v.into_iter().map(|s| s.to_string()).collect()),
        auth: DevicePairSetupCodeAuth::Token,
        url_source: "config".to_string(),
    }
}

#[test]
fn device_enums() {
    assert!(is_valid_device_pair_setup_code_auth("password"));
    assert!(!is_valid_device_pair_setup_code_auth("pin"));
    assert!(is_valid_device_pair_setup_code_bootstrap_profile("node"));
    assert!(!is_valid_device_pair_setup_code_bootstrap_profile("operator"));
    assert_eq!(DevicePairSetupCodeAuth::Token.as_str(), "token");
}

#[test]
fn rename_label_bounds() {
    let mut p = DevicePairRenameParams { device_id: "d".to_string(), label: "Phone".to_string() };
    assert_eq!(p.validate(), Ok(()));
    p.label = "x".repeat(65);
    assert_eq!(p.validate(), Err("label: expected length [1, 64], got 65".to_string()));
    p.label = String::new();
    assert_eq!(p.validate(), Err("label: expected length [1, 64], got 0".to_string()));
}

#[test]
fn token_rotate_scopes() {
    let p = DeviceTokenRotateParams {
        device_id: "d".to_string(),
        role: "operator".to_string(),
        scopes: Some(vec!["read".to_string(), String::new()]),
    };
    assert_eq!(p.validate(), Err("scopes[1]: expected non-empty string, got \"\"".to_string()));
}

#[test]
fn pair_events_timestamps() {
    let e = DevicePairResolvedEvent {
        request_id: "r".to_string(),
        device_id: "d".to_string(),
        decision: "approved".to_string(),
        ts: -1,
    };
    assert_eq!(e.validate(), Err("ts: expected integer >= 0, got -1".to_string()));
    let e = DevicePairRequestedEvent {
        request_id: "r".to_string(),
        device_id: "d".to_string(),
        public_key: String::new(),
        display_name: None,
        platform: None,
        device_family: None,
        client_id: None,
        client_mode: None,
        role: None,
        roles: None,
        scopes: None,
        remote_ip: None,
        silent: None,
        is_repair: None,
        ts: 0,
    };
    assert_eq!(e.validate(), Err("publicKey: expected non-empty string, got \"\"".to_string()));
}

#[test]
fn setup_code_gateway_urls() {
    assert_eq!(setup_result(None).validate(), Ok(()));
    assert_eq!(setup_result(Some(vec!["a", "b"])).validate(), Ok(()));
    assert_eq!(
        setup_result(Some(vec!["a"])).validate(),
        Err("gatewayUrls: expected length [2, 8], got 1".to_string())
    );
    assert_eq!(
        setup_result(Some(vec!["a"; 9])).validate(),
        Err("gatewayUrls: expected length [2, 8], got 9".to_string())
    );
    assert_eq!(
        setup_result(Some(vec!["a", "", "a"])).validate(),
        Err("gatewayUrls[1]: expected non-empty string, got \"\"".to_string())
    );
    assert_eq!(
        setup_result(Some(vec!["a", "b", "c", "b", "a"])).validate(),
        Err("gatewayUrls: expected unique items, duplicate \"b\"".to_string())
    );
}

#[test]
fn setup_code_qr_data_url() {
    let mut r = setup_result(None);
    r.qr_data_url = Some("data:image/png;base64,AAAA".to_string());
    assert_eq!(r.validate(), Ok(()));
    r.qr_data_url = Some("data:image/jpeg;base64,AAAA".to_string());
    assert_eq!(
        r.validate(),
        Err("qrDataUrl: expected string matching \"^data:image/png;base64,\", got \"data:image/jpeg;base64,AAAA\"".to_string())
    );
    // The bound counts UTF-8 bytes, not characters.
    r.qr_data_url = Some(format!("data:image/png;base64,{}", "é".repeat(8181)));
    assert_eq!(r.validate(), Ok(()));
    r.qr_data_url = Some(format!("data:image/png;base64,{}", "é".repeat(8182)));
    assert_eq!(r.validate(), Err("qrDataUrl: expected length <= 16384, got 16386".to_string()));
}
