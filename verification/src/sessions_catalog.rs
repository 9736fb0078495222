//! Cross-host session catalog schemas.
//!
//! The session catalog lets one dashboard enumerate sessions that live on
//! several hosts (the gateway itself and attached node workers). Each catalog
//! exposes a host set, per-host session lists, and an optional continue and
//! archive bridge into the local sessions API.
use vstd::prelude::*;
use crate::checks::{
    also, each_checked, each_non_empty, non_empty, opt_non_empty, opt_positive_integer, outcome,
    prefixed, reject, require_each_non_empty, require_non_empty, require_opt_non_empty,
    require_opt_positive_integer, validate_each, within, Checked, Outcome,
};
use crate::json::NumberValue;
use crate::plugins::PluginJsonValueSchema;
use crate::maps::{
    entries_in_order, first_failure, first_failure_at, first_failure_none, first_failure_passes_iff_all_pass,
    lists_entries_in_order,
};
use crate::text::{debug_text, str_debug, str_eq};

verus! {

/// Kind of a catalog host: the gateway itself or an attached node.
#[derive(Debug, Clone, Copy, PartialEq, Eq, Hash, Structural)]
pub enum SessionCatalogHostKind {
    Gateway,
    Node,
}

impl SessionCatalogHostKind {
    /// The wire text of each variant.
    pub open spec fn spec_as_str(&self) -> Seq<char> {
        match self {
            SessionCatalogHostKind::Gateway => "gateway"@,
            SessionCatalogHostKind::Node => "node"@,
        }
    }

    /// The wire text of this value.
    pub fn as_str(&self) -> (r: &'static str)
        ensures
            r@ == self.spec_as_str(),
    {
        match self {
            SessionCatalogHostKind::Gateway => "gateway",
            SessionCatalogHostKind::Node => "node",
        }
    }

    /// The value whose wire text is `s`, if any.
    pub open spec fn spec_from_str(s: Seq<char>) -> Option<SessionCatalogHostKind> {
        if s == "gateway"@ {
            Some(SessionCatalogHostKind::Gateway)
        } else if s == "node"@ {
            Some(SessionCatalogHostKind::Node)
        } else {
            None
        }
    }
}

/// The wire texts of `SessionCatalogHostKind` are distinct: parsing the text of a value
/// gives that value back, and a text that parses is the text of what it
/// parses to.
pub proof fn session_catalog_host_kind_text_round_trip(v: SessionCatalogHostKind, s: Seq<char>)
    ensures
        SessionCatalogHostKind::spec_from_str(v.spec_as_str()) == Some(v),
        SessionCatalogHostKind::spec_from_str(s) matches Some(w) ==> w.spec_as_str() == s,
{
    reveal_strlit("gateway");
    reveal_strlit("node");
    assert("gateway"@.len() == 7);
    assert("node"@.len() == 4);
}

/// Returns true when `s` is the wire text of a `SessionCatalogHostKind`.
pub fn is_valid_session_catalog_host_kind(s: &str) -> (r: bool)
    ensures
        r == SessionCatalogHostKind::spec_from_str(s@) is Some,
{
    str_eq(s, "gateway") || str_eq(s, "node")
}

/// Kind of a normalized transcript item.
#[derive(Debug, Clone, Copy, PartialEq, Eq, Hash, Structural)]
pub enum SessionCatalogTranscriptItemType {
    UserMessage,
    AgentMessage,
    Reasoning,
    ToolCall,
    ToolResult,
    Other,
}

impl SessionCatalogTranscriptItemType {
    /// The wire text of each variant.
    pub open spec fn spec_as_str(&self) -> Seq<char> {
        match self {
            SessionCatalogTranscriptItemType::UserMessage => "userMessage"@,
            SessionCatalogTranscriptItemType::AgentMessage => "agentMessage"@,
            SessionCatalogTranscriptItemType::Reasoning => "reasoning"@,
            SessionCatalogTranscriptItemType::ToolCall => "toolCall"@,
            SessionCatalogTranscriptItemType::ToolResult => "toolResult"@,
            SessionCatalogTranscriptItemType::Other => "other"@,
        }
    }

    /// The wire text of this value.
    pub fn as_str(&self) -> (r: &'static str)
        ensures
            r@ == self.spec_as_str(),
    {
        match self {
            SessionCatalogTranscriptItemType::UserMessage => "userMessage",
            SessionCatalogTranscriptItemType::AgentMessage => "agentMessage",
            SessionCatalogTranscriptItemType::Reasoning => "reasoning",
            SessionCatalogTranscriptItemType::ToolCall => "toolCall",
            SessionCatalogTranscriptItemType::ToolResult => "toolResult",
            SessionCatalogTranscriptItemType::Other => "other",
        }
    }

    /// The value whose wire text is `s`, if any.
    pub open spec fn spec_from_str(s: Seq<char>) -> Option<SessionCatalogTranscriptItemType> {
        if s == "userMessage"@ {
            Some(SessionCatalogTranscriptItemType::UserMessage)
        } else if s == "agentMessage"@ {
            Some(SessionCatalogTranscriptItemType::AgentMessage)
        } else if s == "reasoning"@ {
            Some(SessionCatalogTranscriptItemType::Reasoning)
        } else if s == "toolCall"@ {
            Some(SessionCatalogTranscriptItemType::ToolCall)
        } else if s == "toolResult"@ {
            Some(SessionCatalogTranscriptItemType::ToolResult)
        } else if s == "other"@ {
            Some(SessionCatalogTranscriptItemType::Other)
        } else {
            None
        }
    }
}

/// The wire texts of `SessionCatalogTranscriptItemType` are distinct: parsing the text of a value
/// gives that value back, and a text that parses is the text of what it
/// parses to.
pub proof fn session_catalog_transcript_item_type_text_round_trip(v: SessionCatalogTranscriptItemType, s: Seq<char>)
    ensures
        SessionCatalogTranscriptItemType::spec_from_str(v.spec_as_str()) == Some(v),
        SessionCatalogTranscriptItemType::spec_from_str(s) matches Some(w) ==> w.spec_as_str() == s,
{
    reveal_strlit("userMessage");
    reveal_strlit("agentMessage");
    reveal_strlit("reasoning");
    reveal_strlit("toolCall");
    reveal_strlit("toolResult");
    reveal_strlit("other");
    assert("userMessage"@.len() == 11);
    assert("agentMessage"@.len() == 12);
    assert("reasoning"@.len() == 9);
    assert("toolCall"@.len() == 8);
    assert("toolResult"@.len() == 10);
    assert("other"@.len() == 5);
}

/// Returns true when `s` is the wire text of a `SessionCatalogTranscriptItemType`.
pub fn is_valid_session_catalog_transcript_item_type(s: &str) -> (r: bool)
    ensures
        r == SessionCatalogTranscriptItemType::spec_from_str(s@) is Some,
{
    str_eq(s, "userMessage") || str_eq(s, "agentMessage") || str_eq(s, "reasoning") || str_eq(s, "toolCall") || str_eq(s, "toolResult") || str_eq(s, "other")
}

// ---------------------------------------------------------------------------
// Catalog descriptors, hosts and sessions
// ---------------------------------------------------------------------------

/// Catalog capability flags surfaced to clients.
#[derive(Debug, Clone, Copy, Default)]
pub struct SessionCatalogCapabilitiesSchema {
    pub continue_session: bool,
    pub archive: bool,
}

impl SessionCatalogCapabilitiesSchema {
    /// Two flags: nothing to check.
    pub fn validate(&self) -> (r: Result<(), String>)
        ensures
            r is Ok,
    {
        Ok(())
    }
}

/// Top-level catalog descriptor: id, label and capability flags.
#[derive(Debug, Clone, Default)]
pub struct SessionCatalogDescriptorSchema {
    pub id: String,
    pub label: String,
    pub capabilities: SessionCatalogCapabilitiesSchema,
}

impl SessionCatalogDescriptorSchema {
    /// `id`, then `label`, non-empty.
    pub open spec fn check(&self) -> Outcome {
        also(non_empty("id"@, self.id@), non_empty("label"@, self.label@))
    }

    pub fn validate(&self) -> (r: Result<(), String>)
        ensures
            outcome(r) == self.check(),
    {
        let r = require_non_empty("id", self.id.as_str());
        if r.is_err() {
            return r;
        }
        let r = require_non_empty("label", self.label.as_str());
        if r.is_err() {
            return r;
        }
        prefixed("capabilities: ", self.capabilities.validate())
    }
}

/// One session row inside a host bucket.
#[derive(Debug, Clone)]
pub struct SessionCatalogSessionSchema {
    pub thread_id: String,
    pub name: Option<String>,
    pub cwd: Option<String>,
    pub status: String,
    pub created_at: Option<NumberValue>,
    pub updated_at: Option<NumberValue>,
    pub recency_at: Option<NumberValue>,
    pub source: Option<String>,
    pub model_provider: Option<String>,
    pub cli_version: Option<String>,
    pub git_branch: Option<String>,
    pub archived: bool,
    pub open_claw_session_key: Option<String>,
    pub can_continue: bool,
    pub can_archive: bool,
}

impl SessionCatalogSessionSchema {
    /// Thread id, status, then the local session key when present.
    pub open spec fn check(&self) -> Outcome {
        also(non_empty("threadId"@, self.thread_id@),
        also(non_empty("status"@, self.status@),
        opt_non_empty("openClawSessionKey"@, self.open_claw_session_key)))
    }

    pub fn validate(&self) -> (r: Result<(), String>)
        ensures
            outcome(r) == self.check(),
    {
        let r = require_non_empty("threadId", self.thread_id.as_str());
        if r.is_err() {
            return r;
        }
        let r = require_non_empty("status", self.status.as_str());
        if r.is_err() {
            return r;
        }
        require_opt_non_empty("openClawSessionKey", &self.open_claw_session_key)
    }
}

impl Checked for SessionCatalogSessionSchema {
    open spec fn checks(&self) -> Outcome {
        self.check()
    }

    fn run_checks(&self) -> (r: Result<(), String>) {
        self.validate()
    }
}

/// Error payload attached to a catalog host or to a whole catalog.
#[derive(Debug, Clone, Default)]
pub struct SessionCatalogErrorSchema {
    pub code: String,
    pub message: String,
}

impl SessionCatalogErrorSchema {
    /// `code`, then `message`, non-empty.
    pub open spec fn check(&self) -> Outcome {
        also(non_empty("code"@, self.code@), non_empty("message"@, self.message@))
    }

    pub fn validate(&self) -> (r: Result<(), String>)
        ensures
            outcome(r) == self.check(),
    {
        let r = require_non_empty("code", self.code.as_str());
        if r.is_err() {
            return r;
        }
        require_non_empty("message", self.message.as_str())
    }
}

/// An optional error block, its message prefixed `error: `.
pub open spec fn opt_catalog_error(error: Option<SessionCatalogErrorSchema>) -> Outcome {
    match error {
        Some(e) => within("error: "@, e.check()),
        None => Ok(()),
    }
}

fn validate_opt_catalog_error(error: &Option<SessionCatalogErrorSchema>) -> (r: Result<(), String>)
    ensures
        outcome(r) == opt_catalog_error(*error),
{
    match error {
        Some(e) => prefixed("error: ", e.validate()),
        None => Ok(()),
    }
}

/// One host bucket inside a catalog: the gateway itself or an attached node.
#[derive(Debug, Clone)]
pub struct SessionCatalogHostSchema {
    pub host_id: String,
    pub label: String,
    pub kind: SessionCatalogHostKind,
    pub connected: bool,
    pub node_id: Option<String>,
    pub sessions: Vec<SessionCatalogSessionSchema>,
    pub next_cursor: Option<String>,
    pub error: Option<SessionCatalogErrorSchema>,
}

impl SessionCatalogHostSchema {
    /// Host id, label, node id, each session (`sessions[i]: message`), then
    /// the error block.
    pub open spec fn check(&self) -> Outcome {
        also(non_empty("hostId"@, self.host_id@),
        also(non_empty("label"@, self.label@),
        also(opt_non_empty("nodeId"@, self.node_id),
        also(each_checked("sessions"@, self.sessions@, 0),
        opt_catalog_error(self.error)))))
    }

    pub fn validate(&self) -> (r: Result<(), String>)
        ensures
            outcome(r) == self.check(),
    {
        let r = require_non_empty("hostId", self.host_id.as_str());
        if r.is_err() {
            return r;
        }
        let r = require_non_empty("label", self.label.as_str());
        if r.is_err() {
            return r;
        }
        let r = require_opt_non_empty("nodeId", &self.node_id);
        if r.is_err() {
            return r;
        }
        let r = validate_each("sessions", &self.sessions);
        if r.is_err() {
            return r;
        }
        validate_opt_catalog_error(&self.error)
    }
}

impl Checked for SessionCatalogHostSchema {
    open spec fn checks(&self) -> Outcome {
        self.check()
    }

    fn run_checks(&self) -> (r: Result<(), String>) {
        self.validate()
    }
}

/// Top-level catalog aggregating one or more hosts.
#[derive(Debug, Clone)]
pub struct SessionCatalogSchema {
    pub id: String,
    pub label: String,
    pub capabilities: SessionCatalogCapabilitiesSchema,
    pub hosts: Vec<SessionCatalogHostSchema>,
    pub error: Option<SessionCatalogErrorSchema>,
}

impl SessionCatalogSchema {
    /// Id, label, each host (`hosts[i]: message`), then the error block.
    pub open spec fn check(&self) -> Outcome {
        also(non_empty("id"@, self.id@),
        also(non_empty("label"@, self.label@),
        also(each_checked("hosts"@, self.hosts@, 0),
        opt_catalog_error(self.error))))
    }

    pub fn validate(&self) -> (r: Result<(), String>)
        ensures
            outcome(r) == self.check(),
    {
        let r = require_non_empty("id", self.id.as_str());
        if r.is_err() {
            return r;
        }
        let r = require_non_empty("label", self.label.as_str());
        if r.is_err() {
            return r;
        }
        let r = prefixed("capabilities: ", self.capabilities.validate());
        if r.is_err() {
            return r;
        }
        let r = validate_each("hosts", &self.hosts);
        if r.is_err() {
            return r;
        }
        validate_opt_catalog_error(&self.error)
    }
}

impl Checked for SessionCatalogSchema {
    open spec fn checks(&self) -> Outcome {
        self.check()
    }

    fn run_checks(&self) -> (r: Result<(), String>) {
        self.validate()
    }
}

// ---------------------------------------------------------------------------
// Listing
// ---------------------------------------------------------------------------

/// An optional list of host ids, each non-empty.
pub open spec fn opt_host_ids(ids: Option<Vec<String>>) -> Outcome {
    match ids {
        Some(v) => each_non_empty("hostIds"@, v@, 0),
        None => Ok(()),
    }
}

fn validate_opt_host_ids(ids: &Option<Vec<String>>) -> (r: Result<(), String>)
    ensures
        outcome(r) == opt_host_ids(*ids),
{
    match ids {
        Some(v) => require_each_non_empty("hostIds", v),
        None => Ok(()),
    }
}

/// Listing without explicit cursors.
#[derive(Debug, Clone, Default)]
pub struct SessionsCatalogListDiscoveryParamsSchema {
    pub catalog_id: Option<String>,
    pub search: Option<String>,
    pub limit_per_host: Option<i64>,
    pub host_ids: Option<Vec<String>>,
}

impl SessionsCatalogListDiscoveryParamsSchema {
    /// Catalog id, `limitPerHost >= 1`, then each host id.
    pub open spec fn check(&self) -> Outcome {
        also(opt_non_empty("catalogId"@, self.catalog_id),
        also(opt_positive_integer("limitPerHost"@, self.limit_per_host),
        opt_host_ids(self.host_ids)))
    }

    pub fn validate(&self) -> (r: Result<(), String>)
        ensures
            outcome(r) == self.check(),
    {
        let r = require_opt_non_empty("catalogId", &self.catalog_id);
        if r.is_err() {
            return r;
        }
        let r = require_opt_positive_integer("limitPerHost", self.limit_per_host);
        if r.is_err() {
            return r;
        }
        validate_opt_host_ids(&self.host_ids)
    }
}

/// The check of one cursor entry: its key is non-empty; the cursor value is
/// any string.
pub open spec fn cursor_entry(key: Seq<char>, value: String) -> Outcome {
    reject(key.len() == 0, "cursors: expected non-empty string key, got "@ + str_debug(key))
}

/// `cursor_entry` as a function value.
pub open spec fn cursor_check() -> spec_fn(Seq<char>, String) -> Outcome {
    |key: Seq<char>, value: String| cursor_entry(key, value)
}

/// Cursor entries are visited in key order; the first whose key is empty
/// fails.
pub open spec fn cursors_check(cursors: Map<String, String>) -> Outcome {
    first_failure(cursors, cursor_check())
}

/// Listing with explicit per-host cursors.
#[derive(Debug, Clone, Default)]
pub struct SessionsCatalogListPagedParamsSchema {
    pub catalog_id: String,
    pub cursors: std::collections::BTreeMap<String, String>,
    pub search: Option<String>,
    pub limit_per_host: Option<i64>,
    pub host_ids: Option<Vec<String>>,
}

impl SessionsCatalogListPagedParamsSchema {
    /// Catalog id, the cursors in key order, `limitPerHost >= 1`, then each
    /// host id.
    pub open spec fn check(&self) -> Outcome {
        also(non_empty("catalogId"@, self.catalog_id@),
        also(cursors_check(self.cursors@),
        also(opt_positive_integer("limitPerHost"@, self.limit_per_host),
        opt_host_ids(self.host_ids))))
    }

    pub fn validate(&self) -> (r: Result<(), String>)
        ensures
            outcome(r) == self.check(),
    {
        let r = require_non_empty("catalogId", self.catalog_id.as_str());
        if r.is_err() {
            return r;
        }
        let r = validate_cursors(&self.cursors);
        if r.is_err() {
            return r;
        }
        let r = require_opt_positive_integer("limitPerHost", self.limit_per_host);
        if r.is_err() {
            return r;
        }
        validate_opt_host_ids(&self.host_ids)
    }
}

fn validate_cursors(cursors: &std::collections::BTreeMap<String, String>) -> (r: Result<(), String>)
    ensures
        outcome(r) == cursors_check(cursors@),
{
    let entries = entries_in_order(cursors);
    let n = entries.len();
    let mut i: usize = 0;
    while i < n
        invariant
            n == entries@.len(),
            i <= n,
            lists_entries_in_order(cursors@, entries@),
            forall|j: int| 0 <= j < i ==> cursor_check()(#[trigger] entries@[j].0@, *entries@[j].1) is Ok,
        decreases n - i,
    {
        let key = entries[i].0;
        if key.as_str().is_empty() {
            let shown = debug_text(key.as_str());
            let mut m = String::from_str("cursors: expected non-empty string key, got ");
            m.append(shown.as_str());
            proof {
                first_failure_at(cursors@, cursor_check(), entries@, i as int);
            }
            return Err(m);
        }
        i = i + 1;
    }
    proof {
        first_failure_none(cursors@, cursor_check(), entries@);
    }
    Ok(())
}

/// Catalog listing: with or without per-host cursors.
#[derive(Debug, Clone)]
pub enum SessionsCatalogListParamsSchema {
    Discovery(SessionsCatalogListDiscoveryParamsSchema),
    Paged(SessionsCatalogListPagedParamsSchema),
}

impl SessionsCatalogListParamsSchema {
    /// The checks of the variant held.
    pub open spec fn check(&self) -> Outcome {
        match self {
            SessionsCatalogListParamsSchema::Discovery(d) => d.check(),
            SessionsCatalogListParamsSchema::Paged(p) => p.check(),
        }
    }

    pub fn validate(&self) -> (r: Result<(), String>)
        ensures
            outcome(r) == self.check(),
    {
        match self {
            SessionsCatalogListParamsSchema::Discovery(d) => d.validate(),
            SessionsCatalogListParamsSchema::Paged(p) => p.validate(),
        }
    }
}

/// Listing response: one or more catalogs.
#[derive(Debug, Clone)]
pub struct SessionsCatalogListResultSchema {
    pub catalogs: Vec<SessionCatalogSchema>,
}

impl SessionsCatalogListResultSchema {
    /// Each catalog in order (`catalogs[i]: message`).
    pub open spec fn check(&self) -> Outcome {
        each_checked("catalogs"@, self.catalogs@, 0)
    }

    pub fn validate(&self) -> (r: Result<(), String>)
        ensures
            outcome(r) == self.check(),
    {
        validate_each("catalogs", &self.catalogs)
    }
}

// ---------------------------------------------------------------------------
// Reading transcripts
// ---------------------------------------------------------------------------

/// One normalized transcript item surfaced by the catalog read endpoint.
#[derive(Debug, Clone)]
pub struct SessionCatalogTranscriptItemSchema {
    pub id: Option<String>,
    pub item_type: SessionCatalogTranscriptItemType,
    pub text: Option<String>,
    pub timestamp: Option<String>,
    pub model: Option<String>,
    pub truncated: Option<bool>,
    pub raw: Option<PluginJsonValueSchema>,
}

impl SessionCatalogTranscriptItemSchema {
    /// Free-form fields: nothing to check.
    pub fn validate(&self) -> (r: Result<(), String>)
        ensures
            r is Ok,
    {
        Ok(())
    }
}

impl Checked for SessionCatalogTranscriptItemSchema {
    open spec fn checks(&self) -> Outcome {
        Ok(())
    }

    fn run_checks(&self) -> (r: Result<(), String>) {
        self.validate()
    }
}

/// Reads transcript pages of one catalog thread.
#[derive(Debug, Clone, Default)]
pub struct SessionsCatalogReadParamsSchema {
    pub catalog_id: String,
    pub host_id: String,
    pub thread_id: String,
    pub limit: Option<i64>,
    pub cursor: Option<String>,
}

impl SessionsCatalogReadParamsSchema {
    /// Catalog, host and thread ids, then `limit >= 1`.
    pub open spec fn check(&self) -> Outcome {
        also(non_empty("catalogId"@, self.catalog_id@),
        also(non_empty("hostId"@, self.host_id@),
        also(non_empty("threadId"@, self.thread_id@),
        opt_positive_integer("limit"@, self.limit))))
    }

    pub fn validate(&self) -> (r: Result<(), String>)
        ensures
            outcome(r) == self.check(),
    {
        let r = require_non_empty("catalogId", self.catalog_id.as_str());
        if r.is_err() {
            return r;
        }
        let r = require_non_empty("hostId", self.host_id.as_str());
        if r.is_err() {
            return r;
        }
        let r = require_non_empty("threadId", self.thread_id.as_str());
        if r.is_err() {
            return r;
        }
        require_opt_positive_integer("limit", self.limit)
    }
}

/// Read result: items and an optional pagination cursor.
#[derive(Debug, Clone)]
pub struct SessionsCatalogReadResultSchema {
    pub host_id: String,
    pub label: Option<String>,
    pub thread_id: String,
    pub items: Vec<SessionCatalogTranscriptItemSchema>,
    pub next_cursor: Option<String>,
}

impl SessionsCatalogReadResultSchema {
    /// Host id, then thread id; items never fail.
    pub open spec fn check(&self) -> Outcome {
        also(non_empty("hostId"@, self.host_id@),
        also(non_empty("threadId"@, self.thread_id@),
        each_checked("items"@, self.items@, 0)))
    }

    pub fn validate(&self) -> (r: Result<(), String>)
        ensures
            outcome(r) == self.check(),
    {
        let r = require_non_empty("hostId", self.host_id.as_str());
        if r.is_err() {
            return r;
        }
        let r = require_non_empty("threadId", self.thread_id.as_str());
        if r.is_err() {
            return r;
        }
        validate_each("items", &self.items)
    }
}

// ---------------------------------------------------------------------------
// Continue and archive
// ---------------------------------------------------------------------------

/// Identifies a remote catalog thread to resume locally.
#[derive(Debug, Clone, Default)]
pub struct SessionsCatalogContinueParamsSchema {
    pub catalog_id: String,
    pub host_id: String,
    pub thread_id: String,
}

impl SessionsCatalogContinueParamsSchema {
    /// Catalog, host and thread ids non-empty.
    pub open spec fn check(&self) -> Outcome {
        also(non_empty("catalogId"@, self.catalog_id@),
        also(non_empty("hostId"@, self.host_id@),
        non_empty("threadId"@, self.thread_id@)))
    }

    pub fn validate(&self) -> (r: Result<(), String>)
        ensures
            outcome(r) == self.check(),
    {
        let r = require_non_empty("catalogId", self.catalog_id.as_str());
        if r.is_err() {
            return r;
        }
        let r = require_non_empty("hostId", self.host_id.as_str());
        if r.is_err() {
            return r;
        }
        require_non_empty("threadId", self.thread_id.as_str())
    }
}

/// The local session key opened for a continued thread.
#[derive(Debug, Clone, Default)]
pub struct SessionsCatalogContinueResultSchema {
    pub session_key: String,
}

impl SessionsCatalogContinueResultSchema {
    /// `sessionKey` non-empty.
    pub open spec fn check(&self) -> Outcome {
        non_empty("sessionKey"@, self.session_key@)
    }

    pub fn validate(&self) -> (r: Result<(), String>)
        ensures
            outcome(r) == self.check(),
    {
        require_non_empty("sessionKey", self.session_key.as_str())
    }
}

/// Archives a catalog thread; the caller must confirm no other runner holds it.
#[derive(Debug, Clone, Default)]
pub struct SessionsCatalogArchiveParamsSchema {
    pub catalog_id: String,
    pub host_id: String,
    pub thread_id: String,
    pub confirm_no_other_runner: bool,
}

impl SessionsCatalogArchiveParamsSchema {
    /// Catalog, host and thread ids, then the confirmation is `true`.
    pub open spec fn check(&self) -> Outcome {
        also(non_empty("catalogId"@, self.catalog_id@),
        also(non_empty("hostId"@, self.host_id@),
        also(non_empty("threadId"@, self.thread_id@),
        reject(!self.confirm_no_other_runner, "confirmNoOtherRunner: expected literal true"@))))
    }

    pub fn validate(&self) -> (r: Result<(), String>)
        ensures
            outcome(r) == self.check(),
    {
        let r = require_non_empty("catalogId", self.catalog_id.as_str());
        if r.is_err() {
            return r;
        }
        let r = require_non_empty("hostId", self.host_id.as_str());
        if r.is_err() {
            return r;
        }
        let r = require_non_empty("threadId", self.thread_id.as_str());
        if r.is_err() {
            return r;
        }
        if !self.confirm_no_other_runner {
            return Err(String::from_str("confirmNoOtherRunner: expected literal true"));
        }
        Ok(())
    }
}

/// Archive result: `ok` is always `true`.
#[derive(Debug, Clone, Default)]
pub struct SessionsCatalogArchiveResultSchema {
    pub ok: bool,
}

impl SessionsCatalogArchiveResultSchema {
    /// `ok` is `true`.
    pub open spec fn check(&self) -> Outcome {
        reject(!self.ok, "ok: expected literal true"@)
    }

    pub fn validate(&self) -> (r: Result<(), String>)
        ensures
            outcome(r) == self.check(),
    {
        if !self.ok {
            return Err(String::from_str("ok: expected literal true"));
        }
        Ok(())
    }
}

/// The cursors of a paged listing pass exactly when every key is non-empty.
pub proof fn cursors_pass_iff_filled(p: SessionsCatalogListPagedParamsSchema)
    ensures
        cursors_check(p.cursors@) is Ok <==> forall|key: String| #[trigger] p.cursors@.contains_key(key)
            ==> key@.len() > 0,
{
    broadcast use vstd::std_specs::btree::axiom_btree_map_view_finite_dom;
    first_failure_passes_iff_all_pass(p.cursors@, cursor_check());
    assert forall|key: String| #[trigger] p.cursors@.contains_key(key) implies
        (cursor_check()(key@, p.cursors@[key]) is Ok <==> key@.len() > 0) by {
    }
}

// ---------------------------------------------------------------------------
// What each schema accepts
// ---------------------------------------------------------------------------

/// A `SessionCatalogDescriptorSchema` passes validation exactly when every condition below holds;
/// a value that breaks one is rejected.
pub proof fn session_catalog_descriptor_schema_accepts(x: SessionCatalogDescriptorSchema)
    ensures
        x.check() is Ok <==> {
            &&& x.id@.len() > 0
            &&& x.label@.len() > 0
        },
{
}

/// A `SessionCatalogSessionSchema` passes validation exactly when every condition below holds;
/// a value that breaks one is rejected.
pub proof fn session_catalog_session_schema_accepts(x: SessionCatalogSessionSchema)
    ensures
        x.check() is Ok <==> {
            &&& x.thread_id@.len() > 0
            &&& x.status@.len() > 0
            &&& (x.open_claw_session_key matches Some(s) ==> s@.len() > 0)
        },
{
}

/// A `SessionCatalogErrorSchema` passes validation exactly when every condition below holds;
/// a value that breaks one is rejected.
pub proof fn session_catalog_error_schema_accepts(x: SessionCatalogErrorSchema)
    ensures
        x.check() is Ok <==> {
            &&& x.code@.len() > 0
            &&& x.message@.len() > 0
        },
{
}

/// A `SessionCatalogHostSchema` passes validation exactly when every condition below holds;
/// a value that breaks one is rejected.
pub proof fn session_catalog_host_schema_accepts(x: SessionCatalogHostSchema)
    ensures
        x.check() is Ok <==> {
            &&& x.host_id@.len() > 0
            &&& x.label@.len() > 0
            &&& (x.node_id matches Some(s) ==> s@.len() > 0)
            &&& (forall|k: int| 0 <= k < x.sessions@.len() ==> (#[trigger] x.sessions@[k]).checks() is Ok)
            &&& (x.error matches Some(e) ==> e.check() is Ok)
        },
{
    crate::checks::each_checked_first_failure("sessions"@, x.sessions@, 0);
}

/// A `SessionCatalogSchema` passes validation exactly when every condition below holds;
/// a value that breaks one is rejected.
pub proof fn session_catalog_schema_accepts(x: SessionCatalogSchema)
    ensures
        x.check() is Ok <==> {
            &&& x.id@.len() > 0
            &&& x.label@.len() > 0
            &&& (forall|k: int| 0 <= k < x.hosts@.len() ==> (#[trigger] x.hosts@[k]).checks() is Ok)
            &&& (x.error matches Some(e) ==> e.check() is Ok)
        },
{
    crate::checks::each_checked_first_failure("hosts"@, x.hosts@, 0);
}

/// A `SessionsCatalogListResultSchema` passes validation exactly when every condition below holds;
/// a value that breaks one is rejected.
pub proof fn sessions_catalog_list_result_schema_accepts(x: SessionsCatalogListResultSchema)
    ensures
        x.check() is Ok <==> {
            &&& (forall|k: int| 0 <= k < x.catalogs@.len() ==> (#[trigger] x.catalogs@[k]).checks() is Ok)
        },
{
    crate::checks::each_checked_first_failure("catalogs"@, x.catalogs@, 0);
}

/// A `SessionsCatalogReadParamsSchema` passes validation exactly when every condition below holds;
/// a value that breaks one is rejected.
pub proof fn sessions_catalog_read_params_schema_accepts(x: SessionsCatalogReadParamsSchema)
    ensures
        x.check() is Ok <==> {
            &&& x.catalog_id@.len() > 0
            &&& x.host_id@.len() > 0
            &&& x.thread_id@.len() > 0
            &&& (x.limit matches Some(n) ==> n >= 1)
        },
{
}

/// A `SessionsCatalogReadResultSchema` passes validation exactly when every condition below holds;
/// a value that breaks one is rejected.
pub proof fn sessions_catalog_read_result_schema_accepts(x: SessionsCatalogReadResultSchema)
    ensures
        x.check() is Ok <==> {
            &&& x.host_id@.len() > 0
            &&& x.thread_id@.len() > 0
            &&& (forall|k: int| 0 <= k < x.items@.len() ==> (#[trigger] x.items@[k]).checks() is Ok)
        },
{
    crate::checks::each_checked_first_failure("items"@, x.items@, 0);
}

/// A `SessionsCatalogContinueParamsSchema` passes validation exactly when every condition below holds;
/// a value that breaks one is rejected.
pub proof fn sessions_catalog_continue_params_schema_accepts(x: SessionsCatalogContinueParamsSchema)
    ensures
        x.check() is Ok <==> {
            &&& x.catalog_id@.len() > 0
            &&& x.host_id@.len() > 0
            &&& x.thread_id@.len() > 0
        },
{
}

/// A `SessionsCatalogContinueResultSchema` passes validation exactly when every condition below holds;
/// a value that breaks one is rejected.
pub proof fn sessions_catalog_continue_result_schema_accepts(x: SessionsCatalogContinueResultSchema)
    ensures
        x.check() is Ok <==> {
            &&& x.session_key@.len() > 0
        },
{
}

/// A `SessionsCatalogArchiveParamsSchema` passes validation exactly when every condition below holds;
/// a value that breaks one is rejected.
pub proof fn sessions_catalog_archive_params_schema_accepts(x: SessionsCatalogArchiveParamsSchema)
    ensures
        x.check() is Ok <==> {
            &&& x.catalog_id@.len() > 0
            &&& x.host_id@.len() > 0
            &&& x.thread_id@.len() > 0
            &&& !(!x.confirm_no_other_runner)
        },
{
}

/// A `SessionsCatalogArchiveResultSchema` passes validation exactly when every condition below holds;
/// a value that breaks one is rejected.
pub proof fn sessions_catalog_archive_result_schema_accepts(x: SessionsCatalogArchiveResultSchema)
    ensures
        x.check() is Ok <==> {
            &&& !(!x.ok)
        },
{
}

/// A `SessionsCatalogListDiscoveryParamsSchema` passes validation exactly when every condition below holds;
/// a value that breaks one is rejected.
pub proof fn sessions_catalog_list_discovery_params_schema_accepts(x: SessionsCatalogListDiscoveryParamsSchema)
    ensures
        x.check() is Ok <==> {
            &&& (x.catalog_id matches Some(s) ==> s@.len() > 0)
            &&& (x.limit_per_host matches Some(n) ==> n >= 1)
            &&& (x.host_ids matches Some(v) ==> forall|k: int| 0 <= k < v@.len() ==> (#[trigger] v@[k])@.len() > 0)
        },
{
    if let Some(v) = x.host_ids { crate::checks::each_non_empty_all_pass("hostIds"@, v@, 0); }
}

/// A catalog listing request passes validation exactly when the discovery or
/// paged request it holds passes its own validation.
pub proof fn sessions_catalog_list_params_schema_accepts(x: SessionsCatalogListParamsSchema)
    ensures
        x.check() is Ok <==> match x {
            SessionsCatalogListParamsSchema::Discovery(d) => d.check() is Ok,
            SessionsCatalogListParamsSchema::Paged(p) => p.check() is Ok,
        },
{
}

} // verus!
