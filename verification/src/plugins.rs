//! Plugin control-surface schemas.
//!
//! These payloads let the gateway expose plugin-provided UI actions, the
//! plugin catalog, search, installation and enablement without baking
//! plugin-specific payload shapes into the core protocol.
use vstd::prelude::*;
use crate::checks::{
    also, each_checked, in_inclusive, non_empty, opt_each_non_empty, opt_non_empty, outcome,
    prefixed, reject, require_in_inclusive, require_non_empty, require_opt_each_non_empty,
    require_opt_non_empty, validate_each, within, Checked, Outcome,
};
use crate::json::NumberValue;
use crate::text::str_eq;

verus! {

/// An arbitrary plugin-owned JSON payload carried opaquely through the gateway.
pub type PluginJsonValueSchema = serde_json::Value;

/// Bounds of the plugin search `limit`.
pub const PLUGINS_SEARCH_LIMIT_MIN: i64 = 1;
pub const PLUGINS_SEARCH_LIMIT_MAX: i64 = 100;

/// A number that must be at least zero when present:
/// `field: expected number >= 0, got n`.
pub open spec fn opt_non_negative_number(field: Seq<char>, n: Option<NumberValue>) -> Outcome {
    match n {
        Some(v) => reject(!v.at_least_zero(), field + ": expected number >= 0, got "@ + v.text@),
        None => Ok(()),
    }
}

fn validate_optional_non_negative_number(field: &str, n: &Option<NumberValue>) -> (r: Result<(), String>)
    ensures
        outcome(r) == opt_non_negative_number(field@, *n),
{
    match n {
        Some(v) => {
            if !v.is_nan && !v.negative {
                Ok(())
            } else {
                let mut m = String::from_str(field);
                m.append(": expected number >= 0, got ");
                m.append(v.text.as_str());
                Err(m)
            }
        },
        None => Ok(()),
    }
}

/// `ok` must be the literal `true`.
pub open spec fn literal_true(ok: bool) -> Outcome {
    reject(!ok, "ok: expected literal true"@)
}

/// `restartRequired` must be the literal `true`.
pub open spec fn restart_literal_true(restart_required: bool) -> Outcome {
    reject(!restart_required, "restartRequired: expected literal true"@)
}

/// Where a plugin control UI descriptor attaches.
#[derive(Debug, Clone, Copy, PartialEq, Eq, Hash, Structural)]
pub enum PluginControlUiDescriptorSurface {
    Session,
    Tool,
    Run,
    Settings,
}

impl PluginControlUiDescriptorSurface {
    /// The wire text of each variant.
    pub open spec fn spec_as_str(&self) -> Seq<char> {
        match self {
            PluginControlUiDescriptorSurface::Session => "session"@,
            PluginControlUiDescriptorSurface::Tool => "tool"@,
            PluginControlUiDescriptorSurface::Run => "run"@,
            PluginControlUiDescriptorSurface::Settings => "settings"@,
        }
    }

    /// The wire text of this value.
    pub fn as_str(&self) -> (r: &'static str)
        ensures
            r@ == self.spec_as_str(),
    {
        match self {
            PluginControlUiDescriptorSurface::Session => "session",
            PluginControlUiDescriptorSurface::Tool => "tool",
            PluginControlUiDescriptorSurface::Run => "run",
            PluginControlUiDescriptorSurface::Settings => "settings",
        }
    }

    /// The value whose wire text is `s`, if any.
    pub open spec fn spec_from_str(s: Seq<char>) -> Option<PluginControlUiDescriptorSurface> {
        if s == "session"@ {
            Some(PluginControlUiDescriptorSurface::Session)
        } else if s == "tool"@ {
            Some(PluginControlUiDescriptorSurface::Tool)
        } else if s == "run"@ {
            Some(PluginControlUiDescriptorSurface::Run)
        } else if s == "settings"@ {
            Some(PluginControlUiDescriptorSurface::Settings)
        } else {
            None
        }
    }
}

/// The wire texts of `PluginControlUiDescriptorSurface` are distinct: parsing the text of a value
/// gives that value back, and a text that parses is the text of what it
/// parses to.
pub proof fn plugin_control_ui_descriptor_surface_text_round_trip(v: PluginControlUiDescriptorSurface, s: Seq<char>)
    ensures
        PluginControlUiDescriptorSurface::spec_from_str(v.spec_as_str()) == Some(v),
        PluginControlUiDescriptorSurface::spec_from_str(s) matches Some(w) ==> w.spec_as_str() == s,
{
    reveal_strlit("session");
    reveal_strlit("tool");
    reveal_strlit("run");
    reveal_strlit("settings");
    assert("session"@.len() == 7);
    assert("tool"@.len() == 4);
    assert("run"@.len() == 3);
    assert("settings"@.len() == 8);
}

/// Returns true when `s` is the wire text of a `PluginControlUiDescriptorSurface`.
pub fn is_valid_plugin_control_ui_descriptor_surface(s: &str) -> (r: bool)
    ensures
        r == PluginControlUiDescriptorSurface::spec_from_str(s@) is Some,
{
    str_eq(s, "session") || str_eq(s, "tool") || str_eq(s, "run") || str_eq(s, "settings")
}

/// Where a catalog install action installs from.
#[derive(Debug, Clone, Copy, PartialEq, Eq, Hash, Structural)]
pub enum PluginCatalogInstallSource {
    Clawhub,
    Official,
}

impl PluginCatalogInstallSource {
    /// The wire text of each variant.
    pub open spec fn spec_as_str(&self) -> Seq<char> {
        match self {
            PluginCatalogInstallSource::Clawhub => "clawhub"@,
            PluginCatalogInstallSource::Official => "official"@,
        }
    }

    /// The wire text of this value.
    pub fn as_str(&self) -> (r: &'static str)
        ensures
            r@ == self.spec_as_str(),
    {
        match self {
            PluginCatalogInstallSource::Clawhub => "clawhub",
            PluginCatalogInstallSource::Official => "official",
        }
    }

    /// The value whose wire text is `s`, if any.
    pub open spec fn spec_from_str(s: Seq<char>) -> Option<PluginCatalogInstallSource> {
        if s == "clawhub"@ {
            Some(PluginCatalogInstallSource::Clawhub)
        } else if s == "official"@ {
            Some(PluginCatalogInstallSource::Official)
        } else {
            None
        }
    }
}

/// The wire texts of `PluginCatalogInstallSource` are distinct: parsing the text of a value
/// gives that value back, and a text that parses is the text of what it
/// parses to.
pub proof fn plugin_catalog_install_source_text_round_trip(v: PluginCatalogInstallSource, s: Seq<char>)
    ensures
        PluginCatalogInstallSource::spec_from_str(v.spec_as_str()) == Some(v),
        PluginCatalogInstallSource::spec_from_str(s) matches Some(w) ==> w.spec_as_str() == s,
{
    reveal_strlit("clawhub");
    reveal_strlit("official");
    assert("clawhub"@.len() == 7);
    assert("official"@.len() == 8);
}

/// Returns true when `s` is the wire text of a `PluginCatalogInstallSource`.
pub fn is_valid_plugin_catalog_install_source(s: &str) -> (r: bool)
    ensures
        r == PluginCatalogInstallSource::spec_from_str(s@) is Some,
{
    str_eq(s, "clawhub") || str_eq(s, "official")
}

/// Package family of a plugin search hit.
#[derive(Debug, Clone, Copy, PartialEq, Eq, Hash, Structural)]
pub enum PluginSearchPackageFamily {
    CodePlugin,
    BundlePlugin,
}

impl PluginSearchPackageFamily {
    /// The wire text of each variant.
    pub open spec fn spec_as_str(&self) -> Seq<char> {
        match self {
            PluginSearchPackageFamily::CodePlugin => "code-plugin"@,
            PluginSearchPackageFamily::BundlePlugin => "bundle-plugin"@,
        }
    }

    /// The wire text of this value.
    pub fn as_str(&self) -> (r: &'static str)
        ensures
            r@ == self.spec_as_str(),
    {
        match self {
            PluginSearchPackageFamily::CodePlugin => "code-plugin",
            PluginSearchPackageFamily::BundlePlugin => "bundle-plugin",
        }
    }

    /// The value whose wire text is `s`, if any.
    pub open spec fn spec_from_str(s: Seq<char>) -> Option<PluginSearchPackageFamily> {
        if s == "code-plugin"@ {
            Some(PluginSearchPackageFamily::CodePlugin)
        } else if s == "bundle-plugin"@ {
            Some(PluginSearchPackageFamily::BundlePlugin)
        } else {
            None
        }
    }
}

/// The wire texts of `PluginSearchPackageFamily` are distinct: parsing the text of a value
/// gives that value back, and a text that parses is the text of what it
/// parses to.
pub proof fn plugin_search_package_family_text_round_trip(v: PluginSearchPackageFamily, s: Seq<char>)
    ensures
        PluginSearchPackageFamily::spec_from_str(v.spec_as_str()) == Some(v),
        PluginSearchPackageFamily::spec_from_str(s) matches Some(w) ==> w.spec_as_str() == s,
{
    reveal_strlit("code-plugin");
    reveal_strlit("bundle-plugin");
    assert("code-plugin"@.len() == 11);
    assert("bundle-plugin"@.len() == 13);
}

/// Returns true when `s` is the wire text of a `PluginSearchPackageFamily`.
pub fn is_valid_plugin_search_package_family(s: &str) -> (r: bool)
    ensures
        r == PluginSearchPackageFamily::spec_from_str(s@) is Some,
{
    str_eq(s, "code-plugin") || str_eq(s, "bundle-plugin")
}

/// Publication channel of a plugin search hit.
#[derive(Debug, Clone, Copy, PartialEq, Eq, Hash, Structural)]
pub enum PluginSearchPackageChannel {
    Official,
    Community,
    Private,
}

impl PluginSearchPackageChannel {
    /// The wire text of each variant.
    pub open spec fn spec_as_str(&self) -> Seq<char> {
        match self {
            PluginSearchPackageChannel::Official => "official"@,
            PluginSearchPackageChannel::Community => "community"@,
            PluginSearchPackageChannel::Private => "private"@,
        }
    }

    /// The wire text of this value.
    pub fn as_str(&self) -> (r: &'static str)
        ensures
            r@ == self.spec_as_str(),
    {
        match self {
            PluginSearchPackageChannel::Official => "official",
            PluginSearchPackageChannel::Community => "community",
            PluginSearchPackageChannel::Private => "private",
        }
    }

    /// The value whose wire text is `s`, if any.
    pub open spec fn spec_from_str(s: Seq<char>) -> Option<PluginSearchPackageChannel> {
        if s == "official"@ {
            Some(PluginSearchPackageChannel::Official)
        } else if s == "community"@ {
            Some(PluginSearchPackageChannel::Community)
        } else if s == "private"@ {
            Some(PluginSearchPackageChannel::Private)
        } else {
            None
        }
    }
}

/// The wire texts of `PluginSearchPackageChannel` are distinct: parsing the text of a value
/// gives that value back, and a text that parses is the text of what it
/// parses to.
pub proof fn plugin_search_package_channel_text_round_trip(v: PluginSearchPackageChannel, s: Seq<char>)
    ensures
        PluginSearchPackageChannel::spec_from_str(v.spec_as_str()) == Some(v),
        PluginSearchPackageChannel::spec_from_str(s) matches Some(w) ==> w.spec_as_str() == s,
{
    reveal_strlit("official");
    reveal_strlit("community");
    reveal_strlit("private");
    assert("official"@.len() == 8);
    assert("community"@.len() == 9);
    assert("private"@.len() == 7);
}

/// Returns true when `s` is the wire text of a `PluginSearchPackageChannel`.
pub fn is_valid_plugin_search_package_channel(s: &str) -> (r: bool)
    ensures
        r == PluginSearchPackageChannel::spec_from_str(s@) is Some,
{
    str_eq(s, "official") || str_eq(s, "community") || str_eq(s, "private")
}

/// State of a plugin catalog entry.
#[derive(Debug, Clone, Copy, PartialEq, Eq, Hash, Structural)]
pub enum PluginCatalogEntryState {
    Enabled,
    Disabled,
    NotInstalled,
    Error,
}

impl PluginCatalogEntryState {
    /// The wire text of each variant.
    pub open spec fn spec_as_str(&self) -> Seq<char> {
        match self {
            PluginCatalogEntryState::Enabled => "enabled"@,
            PluginCatalogEntryState::Disabled => "disabled"@,
            PluginCatalogEntryState::NotInstalled => "not-installed"@,
            PluginCatalogEntryState::Error => "error"@,
        }
    }

    /// The wire text of this value.
    pub fn as_str(&self) -> (r: &'static str)
        ensures
            r@ == self.spec_as_str(),
    {
        match self {
            PluginCatalogEntryState::Enabled => "enabled",
            PluginCatalogEntryState::Disabled => "disabled",
            PluginCatalogEntryState::NotInstalled => "not-installed",
            PluginCatalogEntryState::Error => "error",
        }
    }

    /// The value whose wire text is `s`, if any.
    pub open spec fn spec_from_str(s: Seq<char>) -> Option<PluginCatalogEntryState> {
        if s == "enabled"@ {
            Some(PluginCatalogEntryState::Enabled)
        } else if s == "disabled"@ {
            Some(PluginCatalogEntryState::Disabled)
        } else if s == "not-installed"@ {
            Some(PluginCatalogEntryState::NotInstalled)
        } else if s == "error"@ {
            Some(PluginCatalogEntryState::Error)
        } else {
            None
        }
    }
}

/// The wire texts of `PluginCatalogEntryState` are distinct: parsing the text of a value
/// gives that value back, and a text that parses is the text of what it
/// parses to.
pub proof fn plugin_catalog_entry_state_text_round_trip(v: PluginCatalogEntryState, s: Seq<char>)
    ensures
        PluginCatalogEntryState::spec_from_str(v.spec_as_str()) == Some(v),
        PluginCatalogEntryState::spec_from_str(s) matches Some(w) ==> w.spec_as_str() == s,
{
    reveal_strlit("enabled");
    reveal_strlit("disabled");
    reveal_strlit("not-installed");
    reveal_strlit("error");
    assert("enabled"@.len() == 7);
    assert("disabled"@.len() == 8);
    assert("not-installed"@.len() == 13);
    assert("error"@.len() == 5);
}

/// Returns true when `s` is the wire text of a `PluginCatalogEntryState`.
pub fn is_valid_plugin_catalog_entry_state(s: &str) -> (r: bool)
    ensures
        r == PluginCatalogEntryState::spec_from_str(s@) is Some,
{
    str_eq(s, "enabled") || str_eq(s, "disabled") || str_eq(s, "not-installed") || str_eq(s, "error")
}

/// The `clawhub` marker of an install `source`.
#[derive(Debug, Clone, Copy, PartialEq, Eq, Hash, Structural)]
pub enum PluginCatalogInstallSourceClawhub {
    Clawhub,
}

impl PluginCatalogInstallSourceClawhub {
    /// The wire text of each variant.
    pub open spec fn spec_as_str(&self) -> Seq<char> {
        match self {
            PluginCatalogInstallSourceClawhub::Clawhub => "clawhub"@,
        }
    }

    /// The wire text of this value.
    pub fn as_str(&self) -> (r: &'static str)
        ensures
            r@ == self.spec_as_str(),
    {
        match self {
            PluginCatalogInstallSourceClawhub::Clawhub => "clawhub",
        }
    }

    /// The value whose wire text is `s`, if any.
    pub open spec fn spec_from_str(s: Seq<char>) -> Option<PluginCatalogInstallSourceClawhub> {
        if s == "clawhub"@ {
            Some(PluginCatalogInstallSourceClawhub::Clawhub)
        } else {
            None
        }
    }
}

/// The `official` marker of an install `source`.
#[derive(Debug, Clone, Copy, PartialEq, Eq, Hash, Structural)]
pub enum PluginCatalogInstallSourceOfficial {
    Official,
}

impl PluginCatalogInstallSourceOfficial {
    /// The wire text of each variant.
    pub open spec fn spec_as_str(&self) -> Seq<char> {
        match self {
            PluginCatalogInstallSourceOfficial::Official => "official"@,
        }
    }

    /// The wire text of this value.
    pub fn as_str(&self) -> (r: &'static str)
        ensures
            r@ == self.spec_as_str(),
    {
        match self {
            PluginCatalogInstallSourceOfficial::Official => "official",
        }
    }

    /// The value whose wire text is `s`, if any.
    pub open spec fn spec_from_str(s: Seq<char>) -> Option<PluginCatalogInstallSourceOfficial> {
        if s == "official"@ {
            Some(PluginCatalogInstallSourceOfficial::Official)
        } else {
            None
        }
    }
}

// ---------------------------------------------------------------------------
// Control UI descriptors
// ---------------------------------------------------------------------------

/// Descriptor of one plugin-provided control UI action or surface.
#[derive(Debug, Clone)]
pub struct PluginControlUiDescriptorSchema {
    pub id: String,
    pub plugin_id: String,
    pub plugin_name: Option<String>,
    pub surface: PluginControlUiDescriptorSurface,
    pub label: String,
    pub description: Option<String>,
    pub placement: Option<String>,
    pub schema: Option<PluginJsonValueSchema>,
    pub required_scopes: Option<Vec<String>>,
}

impl PluginControlUiDescriptorSchema {
    /// Id, plugin id, plugin name, label, then each required scope non-empty.
    pub open spec fn check(&self) -> Outcome {
        also(non_empty("id"@, self.id@),
        also(non_empty("pluginId"@, self.plugin_id@),
        also(opt_non_empty("pluginName"@, self.plugin_name),
        also(non_empty("label"@, self.label@),
        opt_each_non_empty("requiredScopes"@, self.required_scopes)))))
    }

    pub fn validate(&self) -> (r: Result<(), String>)
        ensures
            outcome(r) == self.check(),
    {
        let r = require_non_empty("id", self.id.as_str());
        if r.is_err() {
            return r;
        }
        let r = require_non_empty("pluginId", self.plugin_id.as_str());
        if r.is_err() {
            return r;
        }
        let r = require_opt_non_empty("pluginName", &self.plugin_name);
        if r.is_err() {
            return r;
        }
        let r = require_non_empty("label", self.label.as_str());
        if r.is_err() {
            return r;
        }
        require_opt_each_non_empty("requiredScopes", &self.required_scopes)
    }
}

impl Checked for PluginControlUiDescriptorSchema {
    open spec fn checks(&self) -> Outcome {
        self.check()
    }

    fn run_checks(&self) -> (r: Result<(), String>) {
        self.validate()
    }
}

/// Empty request payload for listing plugin UI descriptors.
#[derive(Debug, Clone, Default)]
pub struct PluginsUiDescriptorsParamsSchema {}

impl PluginsUiDescriptorsParamsSchema {
    /// No fields to check.
    pub fn validate(&self) -> (r: Result<(), String>)
        ensures
            r is Ok,
    {
        Ok(())
    }
}

/// Response payload with every plugin UI descriptor visible to the client.
#[derive(Debug, Clone)]
pub struct PluginsUiDescriptorsResultSchema {
    pub ok: bool,
    pub descriptors: Vec<PluginControlUiDescriptorSchema>,
}

impl PluginsUiDescriptorsResultSchema {
    /// `ok` is `true`, then each descriptor (`descriptors[i]: message`).
    pub open spec fn check(&self) -> Outcome {
        also(literal_true(self.ok), each_checked("descriptors"@, self.descriptors@, 0))
    }

    pub fn validate(&self) -> (r: Result<(), String>)
        ensures
            outcome(r) == self.check(),
    {
        if !self.ok {
            return Err(String::from_str("ok: expected literal true"));
        }
        validate_each("descriptors", &self.descriptors)
    }
}

// ---------------------------------------------------------------------------
// Session actions
// ---------------------------------------------------------------------------

/// Request payload invoking one plugin-owned session action.
#[derive(Debug, Clone)]
pub struct PluginsSessionActionParamsSchema {
    pub plugin_id: String,
    pub action_id: String,
    pub session_key: Option<String>,
    pub payload: Option<PluginJsonValueSchema>,
}

impl PluginsSessionActionParamsSchema {
    /// Plugin id, action id, then the session key when present.
    pub open spec fn check(&self) -> Outcome {
        also(non_empty("pluginId"@, self.plugin_id@),
        also(non_empty("actionId"@, self.action_id@),
        opt_non_empty("sessionKey"@, self.session_key)))
    }

    pub fn validate(&self) -> (r: Result<(), String>)
        ensures
            outcome(r) == self.check(),
    {
        let r = require_non_empty("pluginId", self.plugin_id.as_str());
        if r.is_err() {
            return r;
        }
        let r = require_non_empty("actionId", self.action_id.as_str());
        if r.is_err() {
            return r;
        }
        require_opt_non_empty("sessionKey", &self.session_key)
    }
}

/// Successful plugin action result, optionally continuing the agent turn.
#[derive(Debug, Clone)]
pub struct PluginsSessionActionSuccessResultSchema {
    pub ok: bool,
    pub result: Option<PluginJsonValueSchema>,
    pub continue_agent: Option<bool>,
    pub reply: Option<PluginJsonValueSchema>,
}

impl PluginsSessionActionSuccessResultSchema {
    /// `ok` is `true`.
    pub open spec fn check(&self) -> Outcome {
        literal_true(self.ok)
    }

    pub fn validate(&self) -> (r: Result<(), String>)
        ensures
            outcome(r) == self.check(),
    {
        if !self.ok {
            return Err(String::from_str("ok: expected literal true"));
        }
        Ok(())
    }
}

/// Failed plugin action result with a plugin-owned detail payload.
#[derive(Debug, Clone)]
pub struct PluginsSessionActionFailureResultSchema {
    pub ok: bool,
    pub error: String,
    pub code: Option<String>,
    pub details: Option<PluginJsonValueSchema>,
}

impl PluginsSessionActionFailureResultSchema {
    /// `ok` is `false`.
    pub open spec fn check(&self) -> Outcome {
        reject(self.ok, "ok: expected literal false"@)
    }

    pub fn validate(&self) -> (r: Result<(), String>)
        ensures
            outcome(r) == self.check(),
    {
        if self.ok {
            return Err(String::from_str("ok: expected literal false"));
        }
        Ok(())
    }
}

/// Plugin action result returned to gateway clients: success or failure.
#[derive(Debug, Clone)]
pub enum PluginsSessionActionResultSchema {
    Success(PluginsSessionActionSuccessResultSchema),
    Failure(PluginsSessionActionFailureResultSchema),
}

impl PluginsSessionActionResultSchema {
    /// The checks of the variant held.
    pub open spec fn check(&self) -> Outcome {
        match self {
            PluginsSessionActionResultSchema::Success(s) => s.check(),
            PluginsSessionActionResultSchema::Failure(f) => f.check(),
        }
    }

    pub fn validate(&self) -> (r: Result<(), String>)
        ensures
            outcome(r) == self.check(),
    {
        match self {
            PluginsSessionActionResultSchema::Success(s) => s.validate(),
            PluginsSessionActionResultSchema::Failure(f) => f.validate(),
        }
    }
}

// ---------------------------------------------------------------------------
// Catalog install actions
// ---------------------------------------------------------------------------

/// ClawHub-backed install action of one catalog entry.
#[derive(Debug, Clone)]
pub struct PluginCatalogClawHubInstallSchema {
    pub source: PluginCatalogInstallSourceClawhub,
    pub package_name: String,
}

impl PluginCatalogClawHubInstallSchema {
    /// `packageName` non-empty.
    pub open spec fn check(&self) -> Outcome {
        non_empty("packageName"@, self.package_name@)
    }

    pub fn validate(&self) -> (r: Result<(), String>)
        ensures
            outcome(r) == self.check(),
    {
        require_non_empty("packageName", self.package_name.as_str())
    }
}

/// Official-catalog install action of one catalog entry.
#[derive(Debug, Clone)]
pub struct PluginCatalogOfficialInstallSchema {
    pub source: PluginCatalogInstallSourceOfficial,
    pub plugin_id: String,
}

impl PluginCatalogOfficialInstallSchema {
    /// `pluginId` non-empty.
    pub open spec fn check(&self) -> Outcome {
        non_empty("pluginId"@, self.plugin_id@)
    }

    pub fn validate(&self) -> (r: Result<(), String>)
        ensures
            outcome(r) == self.check(),
    {
        require_non_empty("pluginId", self.plugin_id.as_str())
    }
}

/// A catalog install action: from ClawHub or from the official catalog.
#[derive(Debug, Clone)]
pub enum PluginCatalogInstallActionSchema {
    Clawhub(PluginCatalogClawHubInstallSchema),
    Official(PluginCatalogOfficialInstallSchema),
}

impl PluginCatalogInstallActionSchema {
    /// The checks of the variant held.
    pub open spec fn check(&self) -> Outcome {
        match self {
            PluginCatalogInstallActionSchema::Clawhub(c) => c.check(),
            PluginCatalogInstallActionSchema::Official(o) => o.check(),
        }
    }

    pub fn validate(&self) -> (r: Result<(), String>)
        ensures
            outcome(r) == self.check(),
    {
        match self {
            PluginCatalogInstallActionSchema::Clawhub(c) => c.validate(),
            PluginCatalogInstallActionSchema::Official(o) => o.validate(),
        }
    }
}

// ---------------------------------------------------------------------------
// Catalog entries and listing
// ---------------------------------------------------------------------------

/// Control-plane representation of an installed or available plugin.
#[derive(Debug, Clone)]
pub struct PluginCatalogEntrySchema {
    pub id: String,
    pub name: String,
    pub package_name: Option<String>,
    pub description: Option<String>,
    pub version: Option<String>,
    pub kind: Option<Vec<String>>,
    pub origin: Option<String>,
    pub installed: bool,
    pub enabled: bool,
    pub state: PluginCatalogEntryState,
    pub featured: Option<bool>,
    pub order: Option<NumberValue>,
    pub install: Option<PluginCatalogInstallActionSchema>,
    pub error: Option<String>,
    /// Coarse manifest-derived grouping (channel, provider, memory, ...) for
    /// catalog UIs.
    pub category: Option<String>,
    /// True when the plugin has an install record and can be removed via
    /// `plugins.uninstall`.
    pub removable: Option<bool>,
}

impl PluginCatalogEntrySchema {
    /// Id, name, package name, each kind, origin, category, then the install
    /// action (prefixed `install: `).
    pub open spec fn check(&self) -> Outcome {
        also(non_empty("id"@, self.id@),
        also(non_empty("name"@, self.name@),
        also(opt_non_empty("packageName"@, self.package_name),
        also(opt_each_non_empty("kind"@, self.kind),
        also(opt_non_empty("origin"@, self.origin),
        also(opt_non_empty("category"@, self.category),
        match self.install {
            Some(i) => within("install: "@, i.check()),
            None => Ok(()),
        }))))))
    }

    pub fn validate(&self) -> (r: Result<(), String>)
        ensures
            outcome(r) == self.check(),
    {
        let r = require_non_empty("id", self.id.as_str());
        if r.is_err() {
            return r;
        }
        let r = require_non_empty("name", self.name.as_str());
        if r.is_err() {
            return r;
        }
        let r = require_opt_non_empty("packageName", &self.package_name);
        if r.is_err() {
            return r;
        }
        let r = require_opt_each_non_empty("kind", &self.kind);
        if r.is_err() {
            return r;
        }
        let r = require_opt_non_empty("origin", &self.origin);
        if r.is_err() {
            return r;
        }
        let r = require_opt_non_empty("category", &self.category);
        if r.is_err() {
            return r;
        }
        match &self.install {
            Some(i) => prefixed("install: ", i.validate()),
            None => Ok(()),
        }
    }
}

impl Checked for PluginCatalogEntrySchema {
    open spec fn checks(&self) -> Outcome {
        self.check()
    }

    fn run_checks(&self) -> (r: Result<(), String>) {
        self.validate()
    }
}

/// Empty request payload of the plugin catalog.
#[derive(Debug, Clone, Default)]
pub struct PluginsListParamsSchema {}

impl PluginsListParamsSchema {
    /// No fields to check.
    pub fn validate(&self) -> (r: Result<(), String>)
        ensures
            r is Ok,
    {
        Ok(())
    }
}

/// Installed and curated plugin catalog visible to the current client.
#[derive(Debug, Clone)]
pub struct PluginsListResultSchema {
    pub plugins: Vec<PluginCatalogEntrySchema>,
    pub diagnostics: Vec<PluginJsonValueSchema>,
    pub mutation_allowed: bool,
}

impl PluginsListResultSchema {
    /// Each plugin in order (`plugins[i]: message`).
    pub open spec fn check(&self) -> Outcome {
        each_checked("plugins"@, self.plugins@, 0)
    }

    pub fn validate(&self) -> (r: Result<(), String>)
        ensures
            outcome(r) == self.check(),
    {
        validate_each("plugins", &self.plugins)
    }
}

// ---------------------------------------------------------------------------
// Search
// ---------------------------------------------------------------------------

/// Request payload searching installable ClawHub plugin families.
#[derive(Debug, Clone, Default)]
pub struct PluginsSearchParamsSchema {
    pub query: String,
    pub limit: Option<i64>,
}

impl PluginsSearchParamsSchema {
    /// `query` non-empty, then `limit` in `1..=100`.
    pub open spec fn check(&self) -> Outcome {
        also(non_empty("query"@, self.query@), match self.limit {
            Some(l) => in_inclusive("limit"@, l as int, PLUGINS_SEARCH_LIMIT_MIN as int, PLUGINS_SEARCH_LIMIT_MAX as int),
            None => Ok(()),
        })
    }

    pub fn validate(&self) -> (r: Result<(), String>)
        ensures
            outcome(r) == self.check(),
    {
        let r = require_non_empty("query", self.query.as_str());
        if r.is_err() {
            return r;
        }
        match self.limit {
            Some(l) => require_in_inclusive("limit", l, PLUGINS_SEARCH_LIMIT_MIN, PLUGINS_SEARCH_LIMIT_MAX),
            None => Ok(()),
        }
    }
}

/// ClawHub package fields exposed by plugin search.
#[derive(Debug, Clone)]
pub struct PluginSearchPackageSchema {
    pub name: String,
    pub display_name: String,
    pub family: PluginSearchPackageFamily,
    pub channel: PluginSearchPackageChannel,
    pub is_official: bool,
    pub summary: Option<String>,
    pub latest_version: Option<String>,
    pub runtime_id: Option<String>,
    pub downloads: Option<NumberValue>,
    pub verification_tier: Option<String>,
}

impl PluginSearchPackageSchema {
    /// Name, display name, latest version, runtime id, `downloads >= 0`, then
    /// the verification tier.
    pub open spec fn check(&self) -> Outcome {
        also(non_empty("name"@, self.name@),
        also(non_empty("displayName"@, self.display_name@),
        also(opt_non_empty("latestVersion"@, self.latest_version),
        also(opt_non_empty("runtimeId"@, self.runtime_id),
        also(opt_non_negative_number("downloads"@, self.downloads),
        opt_non_empty("verificationTier"@, self.verification_tier))))))
    }

    pub fn validate(&self) -> (r: Result<(), String>)
        ensures
            outcome(r) == self.check(),
    {
        let r = require_non_empty("name", self.name.as_str());
        if r.is_err() {
            return r;
        }
        let r = require_non_empty("displayName", self.display_name.as_str());
        if r.is_err() {
            return r;
        }
        let r = require_opt_non_empty("latestVersion", &self.latest_version);
        if r.is_err() {
            return r;
        }
        let r = require_opt_non_empty("runtimeId", &self.runtime_id);
        if r.is_err() {
            return r;
        }
        let r = validate_optional_non_negative_number("downloads", &self.downloads);
        if r.is_err() {
            return r;
        }
        require_opt_non_empty("verificationTier", &self.verification_tier)
    }
}

/// Ranked ClawHub plugin search hit.
#[derive(Debug, Clone)]
pub struct PluginSearchResultEntrySchema {
    pub score: NumberValue,
    pub package: PluginSearchPackageSchema,
}

impl PluginSearchResultEntrySchema {
    /// The package (prefixed `package: `).
    pub open spec fn check(&self) -> Outcome {
        within("package: "@, self.package.check())
    }

    pub fn validate(&self) -> (r: Result<(), String>)
        ensures
            outcome(r) == self.check(),
    {
        prefixed("package: ", self.package.validate())
    }
}

impl Checked for PluginSearchResultEntrySchema {
    open spec fn checks(&self) -> Outcome {
        self.check()
    }

    fn run_checks(&self) -> (r: Result<(), String>) {
        self.validate()
    }
}

/// Ranked installable plugin packages matching the query.
#[derive(Debug, Clone)]
pub struct PluginsSearchResultSchema {
    pub results: Vec<PluginSearchResultEntrySchema>,
}

impl PluginsSearchResultSchema {
    /// Each hit in order (`results[i]: message`).
    pub open spec fn check(&self) -> Outcome {
        each_checked("results"@, self.results@, 0)
    }

    pub fn validate(&self) -> (r: Result<(), String>)
        ensures
            outcome(r) == self.check(),
    {
        validate_each("results", &self.results)
    }
}

// ---------------------------------------------------------------------------
// Install, uninstall, enablement
// ---------------------------------------------------------------------------

/// ClawHub install request.
#[derive(Debug, Clone)]
pub struct PluginsInstallClawhubParamsSchema {
    pub source: PluginCatalogInstallSourceClawhub,
    pub package_name: String,
    pub version: Option<String>,
    pub acknowledge_claw_hub_risk: Option<bool>,
}

/// A ClawHub install request names the package it installs: it passes
/// exactly when its package name is non-empty, and an empty name fails with
/// `packageName: expected non-empty string, got ""`, also when the request
/// comes as the ClawHub form of an install request.
pub proof fn clawhub_install_names_a_package(p: PluginsInstallClawhubParamsSchema)
    ensures
        p.check() is Ok <==> p.package_name@.len() > 0,
        p.package_name@.len() == 0 ==> p.check() == Err::<(), Seq<char>>(
            crate::checks::non_empty_msg("packageName"@, Seq::empty()),
        ),
        PluginsInstallParamsSchema::Clawhub(p).check() == p.check(),
{
    if p.package_name@.len() == 0 {
        assert(p.package_name@ =~= Seq::<char>::empty());
    }
}

impl PluginsInstallClawhubParamsSchema {
    /// `packageName` non-empty.
    pub open spec fn check(&self) -> Outcome {
        non_empty("packageName"@, self.package_name@)
    }

    pub fn validate(&self) -> (r: Result<(), String>)
        ensures
            outcome(r) == self.check(),
    {
        require_non_empty("packageName", self.package_name.as_str())
    }
}

/// Official-catalog install request.
#[derive(Debug, Clone)]
pub struct PluginsInstallOfficialParamsSchema {
    pub source: PluginCatalogInstallSourceOfficial,
    pub plugin_id: String,
}

impl PluginsInstallOfficialParamsSchema {
    /// `pluginId` non-empty.
    pub open spec fn check(&self) -> Outcome {
        non_empty("pluginId"@, self.plugin_id@)
    }

    pub fn validate(&self) -> (r: Result<(), String>)
        ensures
            outcome(r) == self.check(),
    {
        require_non_empty("pluginId", self.plugin_id.as_str())
    }
}

/// Trusted official-catalog or acknowledged ClawHub install request.
#[derive(Debug, Clone)]
pub enum PluginsInstallParamsSchema {
    Clawhub(PluginsInstallClawhubParamsSchema),
    Official(PluginsInstallOfficialParamsSchema),
}

impl PluginsInstallParamsSchema {
    /// The checks of the variant held.
    pub open spec fn check(&self) -> Outcome {
        match self {
            PluginsInstallParamsSchema::Clawhub(c) => c.check(),
            PluginsInstallParamsSchema::Official(o) => o.check(),
        }
    }

    pub fn validate(&self) -> (r: Result<(), String>)
        ensures
            outcome(r) == self.check(),
    {
        match self {
            PluginsInstallParamsSchema::Clawhub(c) => c.validate(),
            PluginsInstallParamsSchema::Official(o) => o.validate(),
        }
    }
}

/// Successful plugin installation result.
#[derive(Debug, Clone)]
pub struct PluginsInstallResultSchema {
    pub ok: bool,
    pub plugin: PluginCatalogEntrySchema,
    pub restart_required: bool,
    pub warnings: Option<Vec<String>>,
}

impl PluginsInstallResultSchema {
    /// `ok` and `restartRequired` are `true`, then the plugin (prefixed
    /// `plugin: `).
    pub open spec fn check(&self) -> Outcome {
        also(literal_true(self.ok),
        also(restart_literal_true(self.restart_required),
        within("plugin: "@, self.plugin.check())))
    }

    pub fn validate(&self) -> (r: Result<(), String>)
        ensures
            outcome(r) == self.check(),
    {
        if !self.ok {
            return Err(String::from_str("ok: expected literal true"));
        }
        if !self.restart_required {
            return Err(String::from_str("restartRequired: expected literal true"));
        }
        prefixed("plugin: ", self.plugin.validate())
    }
}

/// Request payload removing one installed plugin and its managed files.
#[derive(Debug, Clone, Default)]
pub struct PluginsUninstallParamsSchema {
    pub plugin_id: String,
}

impl PluginsUninstallParamsSchema {
    /// `pluginId` non-empty.
    pub open spec fn check(&self) -> Outcome {
        non_empty("pluginId"@, self.plugin_id@)
    }

    pub fn validate(&self) -> (r: Result<(), String>)
        ensures
            outcome(r) == self.check(),
    {
        require_non_empty("pluginId", self.plugin_id.as_str())
    }
}

/// Successful plugin removal result listing the cleanup actions that ran.
#[derive(Debug, Clone, Default)]
pub struct PluginsUninstallResultSchema {
    pub ok: bool,
    pub plugin_id: String,
    pub restart_required: bool,
    pub removed: Vec<String>,
    pub warnings: Option<Vec<String>>,
}

impl PluginsUninstallResultSchema {
    /// `ok` and `restartRequired` are `true`, then `pluginId` non-empty.
    pub open spec fn check(&self) -> Outcome {
        also(literal_true(self.ok),
        also(restart_literal_true(self.restart_required),
        non_empty("pluginId"@, self.plugin_id@)))
    }

    pub fn validate(&self) -> (r: Result<(), String>)
        ensures
            outcome(r) == self.check(),
    {
        if !self.ok {
            return Err(String::from_str("ok: expected literal true"));
        }
        if !self.restart_required {
            return Err(String::from_str("restartRequired: expected literal true"));
        }
        require_non_empty("pluginId", self.plugin_id.as_str())
    }
}

/// Request payload changing one installed plugin's policy state.
#[derive(Debug, Clone, Default)]
pub struct PluginsSetEnabledParamsSchema {
    pub plugin_id: String,
    pub enabled: bool,
}

impl PluginsSetEnabledParamsSchema {
    /// `pluginId` non-empty.
    pub open spec fn check(&self) -> Outcome {
        non_empty("pluginId"@, self.plugin_id@)
    }

    pub fn validate(&self) -> (r: Result<(), String>)
        ensures
            outcome(r) == self.check(),
    {
        require_non_empty("pluginId", self.plugin_id.as_str())
    }
}

/// Successful plugin enablement policy update.
#[derive(Debug, Clone)]
pub struct PluginsSetEnabledResultSchema {
    pub ok: bool,
    pub plugin: PluginCatalogEntrySchema,
    pub restart_required: bool,
    pub warnings: Option<Vec<String>>,
}

impl PluginsSetEnabledResultSchema {
    /// `ok` is `true`, then the plugin (prefixed `plugin: `).
    pub open spec fn check(&self) -> Outcome {
        also(literal_true(self.ok), within("plugin: "@, self.plugin.check()))
    }

    pub fn validate(&self) -> (r: Result<(), String>)
        ensures
            outcome(r) == self.check(),
    {
        if !self.ok {
            return Err(String::from_str("ok: expected literal true"));
        }
        prefixed("plugin: ", self.plugin.validate())
    }
}

// ---------------------------------------------------------------------------
// What each schema accepts
// ---------------------------------------------------------------------------

/// A `PluginControlUiDescriptorSchema` passes validation exactly when every condition below holds;
/// a value that breaks one is rejected.
pub proof fn plugin_control_ui_descriptor_schema_accepts(x: PluginControlUiDescriptorSchema)
    ensures
        x.check() is Ok <==> {
            &&& x.id@.len() > 0
            &&& x.plugin_id@.len() > 0
            &&& (x.plugin_name matches Some(s) ==> s@.len() > 0)
            &&& x.label@.len() > 0
            &&& (x.required_scopes matches Some(v) ==> forall|k: int| 0 <= k < v@.len() ==> (#[trigger] v@[k])@.len() > 0)
        },
{
    if let Some(v) = x.required_scopes { crate::checks::each_non_empty_all_pass("requiredScopes"@, v@, 0); }
}

/// A `PluginsUiDescriptorsResultSchema` passes validation exactly when every condition below holds;
/// a value that breaks one is rejected.
pub proof fn plugins_ui_descriptors_result_schema_accepts(x: PluginsUiDescriptorsResultSchema)
    ensures
        x.check() is Ok <==> {
            &&& x.ok
            &&& (forall|k: int| 0 <= k < x.descriptors@.len() ==> (#[trigger] x.descriptors@[k]).checks() is Ok)
        },
{
    crate::checks::each_checked_first_failure("descriptors"@, x.descriptors@, 0);
}

/// A `PluginsSessionActionParamsSchema` passes validation exactly when every condition below holds;
/// a value that breaks one is rejected.
pub proof fn plugins_session_action_params_schema_accepts(x: PluginsSessionActionParamsSchema)
    ensures
        x.check() is Ok <==> {
            &&& x.plugin_id@.len() > 0
            &&& x.action_id@.len() > 0
            &&& (x.session_key matches Some(s) ==> s@.len() > 0)
        },
{
}

/// A `PluginsSessionActionSuccessResultSchema` passes validation exactly when every condition below holds;
/// a value that breaks one is rejected.
pub proof fn plugins_session_action_success_result_schema_accepts(x: PluginsSessionActionSuccessResultSchema)
    ensures
        x.check() is Ok <==> {
            &&& x.ok
        },
{
}

/// A `PluginsSessionActionFailureResultSchema` passes validation exactly when every condition below holds;
/// a value that breaks one is rejected.
pub proof fn plugins_session_action_failure_result_schema_accepts(x: PluginsSessionActionFailureResultSchema)
    ensures
        x.check() is Ok <==> {
            &&& !(x.ok)
        },
{
}

/// A `PluginCatalogClawHubInstallSchema` passes validation exactly when every condition below holds;
/// a value that breaks one is rejected.
pub proof fn plugin_catalog_claw_hub_install_schema_accepts(x: PluginCatalogClawHubInstallSchema)
    ensures
        x.check() is Ok <==> {
            &&& x.package_name@.len() > 0
        },
{
}

/// A `PluginCatalogOfficialInstallSchema` passes validation exactly when every condition below holds;
/// a value that breaks one is rejected.
pub proof fn plugin_catalog_official_install_schema_accepts(x: PluginCatalogOfficialInstallSchema)
    ensures
        x.check() is Ok <==> {
            &&& x.plugin_id@.len() > 0
        },
{
}

/// A `PluginCatalogEntrySchema` passes validation exactly when every condition below holds;
/// a value that breaks one is rejected.
pub proof fn plugin_catalog_entry_schema_accepts(x: PluginCatalogEntrySchema)
    ensures
        x.check() is Ok <==> {
            &&& x.id@.len() > 0
            &&& x.name@.len() > 0
            &&& (x.package_name matches Some(s) ==> s@.len() > 0)
            &&& (x.kind matches Some(v) ==> forall|k: int| 0 <= k < v@.len() ==> (#[trigger] v@[k])@.len() > 0)
            &&& (x.origin matches Some(s) ==> s@.len() > 0)
            &&& (x.category matches Some(s) ==> s@.len() > 0)
            &&& (x.install matches Some(i) ==> i.check() is Ok)
        },
{
    if let Some(v) = x.kind { crate::checks::each_non_empty_all_pass("kind"@, v@, 0); }
}

/// A `PluginsListResultSchema` passes validation exactly when every condition below holds;
/// a value that breaks one is rejected.
pub proof fn plugins_list_result_schema_accepts(x: PluginsListResultSchema)
    ensures
        x.check() is Ok <==> {
            &&& (forall|k: int| 0 <= k < x.plugins@.len() ==> (#[trigger] x.plugins@[k]).checks() is Ok)
        },
{
    crate::checks::each_checked_first_failure("plugins"@, x.plugins@, 0);
}

/// A `PluginSearchResultEntrySchema` passes validation exactly when every condition below holds;
/// a value that breaks one is rejected.
pub proof fn plugin_search_result_entry_schema_accepts(x: PluginSearchResultEntrySchema)
    ensures
        x.check() is Ok <==> {
            &&& x.package.check() is Ok
        },
{
}

/// A `PluginsSearchResultSchema` passes validation exactly when every condition below holds;
/// a value that breaks one is rejected.
pub proof fn plugins_search_result_schema_accepts(x: PluginsSearchResultSchema)
    ensures
        x.check() is Ok <==> {
            &&& (forall|k: int| 0 <= k < x.results@.len() ==> (#[trigger] x.results@[k]).checks() is Ok)
        },
{
    crate::checks::each_checked_first_failure("results"@, x.results@, 0);
}

/// A `PluginsInstallClawhubParamsSchema` passes validation exactly when every condition below holds;
/// a value that breaks one is rejected.
pub proof fn plugins_install_clawhub_params_schema_accepts(x: PluginsInstallClawhubParamsSchema)
    ensures
        x.check() is Ok <==> {
            &&& x.package_name@.len() > 0
        },
{
}

/// A `PluginsInstallOfficialParamsSchema` passes validation exactly when every condition below holds;
/// a value that breaks one is rejected.
pub proof fn plugins_install_official_params_schema_accepts(x: PluginsInstallOfficialParamsSchema)
    ensures
        x.check() is Ok <==> {
            &&& x.plugin_id@.len() > 0
        },
{
}

/// A `PluginsInstallResultSchema` passes validation exactly when every condition below holds;
/// a value that breaks one is rejected.
pub proof fn plugins_install_result_schema_accepts(x: PluginsInstallResultSchema)
    ensures
        x.check() is Ok <==> {
            &&& x.ok
            &&& x.restart_required
            &&& x.plugin.check() is Ok
        },
{
}

/// A `PluginsUninstallParamsSchema` passes validation exactly when every condition below holds;
/// a value that breaks one is rejected.
pub proof fn plugins_uninstall_params_schema_accepts(x: PluginsUninstallParamsSchema)
    ensures
        x.check() is Ok <==> {
            &&& x.plugin_id@.len() > 0
        },
{
}

/// A `PluginsUninstallResultSchema` passes validation exactly when every condition below holds;
/// a value that breaks one is rejected.
pub proof fn plugins_uninstall_result_schema_accepts(x: PluginsUninstallResultSchema)
    ensures
        x.check() is Ok <==> {
            &&& x.ok
            &&& x.restart_required
            &&& x.plugin_id@.len() > 0
        },
{
}

/// A `PluginsSetEnabledParamsSchema` passes validation exactly when every condition below holds;
/// a value that breaks one is rejected.
pub proof fn plugins_set_enabled_params_schema_accepts(x: PluginsSetEnabledParamsSchema)
    ensures
        x.check() is Ok <==> {
            &&& x.plugin_id@.len() > 0
        },
{
}

/// A `PluginsSetEnabledResultSchema` passes validation exactly when every condition below holds;
/// a value that breaks one is rejected.
pub proof fn plugins_set_enabled_result_schema_accepts(x: PluginsSetEnabledResultSchema)
    ensures
        x.check() is Ok <==> {
            &&& x.ok
            &&& x.plugin.check() is Ok
        },
{
}

/// A `PluginsSearchParamsSchema` passes validation exactly when every condition below holds;
/// a value that breaks one is rejected.
pub proof fn plugins_search_params_schema_accepts(x: PluginsSearchParamsSchema)
    ensures
        x.check() is Ok <==> {
            &&& x.query@.len() > 0
            &&& (x.limit matches Some(l) ==> PLUGINS_SEARCH_LIMIT_MIN as int <= l as int <= PLUGINS_SEARCH_LIMIT_MAX as int)
        },
{
}

/// A session action result passes validation exactly when the success or
/// failure it holds passes its own validation.
pub proof fn plugins_session_action_result_schema_accepts(x: PluginsSessionActionResultSchema)
    ensures
        x.check() is Ok <==> match x {
            PluginsSessionActionResultSchema::Success(s) => s.check() is Ok,
            PluginsSessionActionResultSchema::Failure(f) => f.check() is Ok,
        },
{
}

/// A catalog install action passes validation exactly when the ClawHub or
/// official install it holds passes its own validation.
pub proof fn plugin_catalog_install_action_schema_accepts(x: PluginCatalogInstallActionSchema)
    ensures
        x.check() is Ok <==> match x {
            PluginCatalogInstallActionSchema::Clawhub(c) => c.check() is Ok,
            PluginCatalogInstallActionSchema::Official(o) => o.check() is Ok,
        },
{
}

/// A search package passes validation exactly when its name and display name
/// are non-empty, each optional text it sets is non-empty, and a download
/// count it sets is neither NaN nor negative.
pub proof fn plugin_search_package_schema_accepts(x: PluginSearchPackageSchema)
    ensures
        x.check() is Ok <==> {
            &&& x.name@.len() > 0
            &&& x.display_name@.len() > 0
            &&& (x.latest_version matches Some(s) ==> s@.len() > 0)
            &&& (x.runtime_id matches Some(s) ==> s@.len() > 0)
            &&& (x.downloads matches Some(d) ==> !d.is_nan && !d.negative)
            &&& (x.verification_tier matches Some(s) ==> s@.len() > 0)
        },
{
}

/// An install request passes validation exactly when the request it holds
/// does: a ClawHub install needs a non-empty package name.
pub proof fn plugins_install_params_schema_accepts(x: PluginsInstallParamsSchema)
    ensures
        x.check() is Ok <==> match x {
            PluginsInstallParamsSchema::Clawhub(c) => c.package_name@.len() > 0,
            PluginsInstallParamsSchema::Official(o) => o.check() is Ok,
        },
{
}

} // verus!
