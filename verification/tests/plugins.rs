use gateway_protocol::json::NumberValue;
use gateway_protocol::plugins::{
    is_valid_plugin_catalog_entry_state, is_valid_plugin_control_ui_descriptor_surface,
    is_valid_plugin_search_package_family, PluginCatalogClawHubInstallSchema,
    PluginCatalogEntrySchema, PluginCatalogEntryState, PluginCatalogInstallActionSchema,
    PluginCatalogInstallSourceClawhub, PluginSearchPackageChannel, PluginSearchPackageFamily,
    PluginSearchPackageSchema, PluginSearchResultEntrySchema, PluginsInstallResultSchema,
    PluginsListResultSchema, PluginsSearchParamsSchema, PluginsSearchResultSchema,
    PluginsSessionActionFailureResultSchema, PluginsSessionActionResultSchema,
    PluginsSessionActionSuccessResultSchema,
};

fn entry(id: &str) -> PluginCatalogEntrySchema {
    PluginCatalogEntrySchema {
        id: id.to_string(),
        name: "Name".to_string(),
        package_name: None,
        description: None,
        version: None,
        kind: None,
        origin: None,
        installed: true,
        enabled: true,
        state: PluginCatalogEntryState::Enabled,
        featured: None,
        order: None,
        install: None,
        error: None,
        category: None,
        removable: None,
    }
}

fn package(downloads: Option<NumberValue>) -> PluginSearchPackageSchema {
    PluginSearchPackageSchema {
        name: "pkg".to_string(),
        display_name: "Pkg".to_string(),
        family: PluginSearchPackageFamily::CodePlugin,
        channel: PluginSearchPackageChannel::Community,
        is_official: false,
        summary: None,
        latest_version: None,
        runtime_id: None,
        downloads,
        verification_tier: None,
    }
}

#[test]
fn plugin_enums() {
    assert_eq!(PluginCatalogEntryState::NotInstalled.as_str(), "not-installed");
    assert!(is_valid_plugin_catalog_entry_state("error"));
    assert!(!is_valid_plugin_catalog_entry_state("broken"));
    assert!(is_valid_plugin_control_ui_descriptor_surface("settings"));
    assert!(!is_valid_plugin_control_ui_descriptor_surface("page"));
    assert_eq!(PluginSearchPackageFamily::BundlePlugin.as_str(), "bundle-plugin");
    assert!(is_valid_plugin_search_package_family("code-plugin"));
}

#[test]
fn session_action_result_literals() {
    let ok = PluginsSessionActionResultSchema::Success(PluginsSessionActionSuccessResultSchema {
        ok: true,
        result: None,
        continue_agent: None,
        reply: None,
    });
    assert_eq!(ok.validate(), Ok(()));
    let wrong = PluginsSessionActionResultSchema::Success(PluginsSessionActionSuccessResultSchema {
        ok: false,
        result: None,
        continue_agent: None,
        reply: None,
    });
    assert_eq!(wrong.validate(), Err("ok: expected literal true".to_string()));
    let failure = PluginsSessionActionFailureResultSchema { ok: true, error: "e".to_string(), code: None, details: None };
    assert_eq!(failure.validate(), Err("ok: expected literal false".to_string()));
}

#[test]
fn catalog_entry_install_prefix() {
    let mut e = entry("memory");
    e.install = Some(PluginCatalogInstallActionSchema::Clawhub(PluginCatalogClawHubInstallSchema {
        source: PluginCatalogInstallSourceClawhub::Clawhub,
        package_name: String::new(),
    }));
    assert_eq!(e.validate(), Err("install: packageName: expected non-empty string, got \"\"".to_string()));
    let mut e = entry("memory");
    e.kind = Some(vec!["channel".to_string(), String::new()]);
    assert_eq!(e.validate(), Err("kind[1]: expected non-empty string, got \"\"".to_string()));
}

#[test]
fn list_result_indexes_plugins() {
    let r = PluginsListResultSchema { plugins: vec![entry("a"), entry("")], diagnostics: vec![], mutation_allowed: true };
    assert_eq!(r.validate(), Err("plugins[1]: id: expected non-empty string, got \"\"".to_string()));
}

#[test]
fn search_params_limit() {
    let mut p = PluginsSearchParamsSchema { query: "mem".to_string(), limit: Some(100) };
    assert_eq!(p.validate(), Ok(()));
    p.limit = Some(101);
    assert_eq!(p.validate(), Err("limit: expected 1..=100, got 101".to_string()));
    p.limit = Some(0);
    assert_eq!(p.validate(), Err("limit: expected 1..=100, got 0".to_string()));
    p.query = String::new();
    assert_eq!(p.validate(), Err("query: expected non-empty string, got \"\"".to_string()));
}

#[test]
fn search_result_downloads_non_negative() {
    let neg = NumberValue { finite: true, is_nan: false, negative: true, text: "-3".to_string() };
    let r = PluginsSearchResultSchema {
        results: vec![PluginSearchResultEntrySchema {
            score: NumberValue { finite: true, is_nan: false, negative: false, text: "0.5".to_string() },
            package: package(Some(neg)),
        }],
    };
    assert_eq!(r.validate(), Err("results[0]: package: downloads: expected number >= 0, got -3".to_string()));
    let nan = NumberValue { finite: false, is_nan: true, negative: false, text: "NaN".to_string() };
    assert_eq!(package(Some(nan)).validate(), Err("downloads: expected number >= 0, got NaN".to_string()));
    let inf = NumberValue { finite: false, is_nan: false, negative: false, text: "inf".to_string() };
    assert_eq!(package(Some(inf)).validate(), Ok(()));
}

#[test]
fn install_result_literals() {
    let mut r = PluginsInstallResultSchema { ok: true, plugin: entry("x"), restart_required: false, warnings: None };
    assert_eq!(r.validate(), Err("restartRequired: expected literal true".to_string()));
    r.restart_required = true;
    assert_eq!(r.validate(), Ok(()));
    r.plugin.name = String::new();
    assert_eq!(r.validate(), Err("plugin: name: expected non-empty string, got \"\"".to_string()));
}
