//! Exec approval schemas.
//!
//! These payloads cross the security-approval boundary for command execution,
//! so persisted policy, request snapshots and resolve decisions stay
//! explicit.
use vstd::prelude::*;
use crate::checks::{
    also, each_checked, each_non_empty, index_label, index_label_text, non_empty,
    non_negative_integer, one_of_msg, one_of_msg_text, opt_each_non_empty, opt_non_empty,
    opt_positive_integer, outcome, positive_integer, prefixed, prefixed_item, reject,
    require_count_in, count_in, require_non_empty, require_non_negative_integer,
    require_opt_each_non_empty, require_opt_non_empty, require_opt_positive_integer,
    require_positive_integer, validate_each, within, item_prefix, Checked, Outcome,
};
use crate::json::NumberValue;
use crate::maps::{
    entries_in_order, first_failure, first_failure_at, first_failure_none, first_failure_passes_iff_all_pass,
    lists_entries_in_order,
};
use crate::primitives::NonEmptyString;
use crate::text::{debug_text, decimal, i64_text, str_debug, str_eq, usize_text};

pub mod exec_ask;
pub mod exec_security;
pub mod native_exec_approval_action;

verus! {

/// Returns true when `s` names an exec security level.
pub fn is_valid_exec_security(s: &str) -> (r: bool)
    ensures
        r == exec_security::is_member(s@),
{
    exec_security::from_str(s).is_some()
}

/// Returns true when `s` names an exec ask mode.
pub fn is_valid_exec_ask(s: &str) -> (r: bool)
    ensures
        r == exec_ask::is_member(s@),
{
    exec_ask::from_str(s).is_some()
}

/// Returns true when `s` names a native exec approval action.
pub fn is_valid_native_exec_approval_action(s: &str) -> (r: bool)
    ensures
        r == native_exec_approval_action::is_member(s@),
{
    native_exec_approval_action::from_str(s).is_some()
}

// ---------------------------------------------------------------------------
// Field checks
// ---------------------------------------------------------------------------

/// An exec security level: `field: expected one of ["deny", "allowlist", "full"], got "value"`.
pub open spec fn security_level(field: Seq<char>, value: Seq<char>) -> Outcome {
    reject(!exec_security::is_member(value), one_of_msg(field, exec_security::spec_all(), value))
}

/// An exec ask mode: `field: expected one of ["off", "on-miss", "always"], got "value"`.
pub open spec fn ask_mode(field: Seq<char>, value: Seq<char>) -> Outcome {
    reject(!exec_ask::is_member(value), one_of_msg(field, exec_ask::spec_all(), value))
}

/// A native action: `field: expected one of ["allow", "deny", "prompt"], got "value"`.
pub open spec fn native_action(field: Seq<char>, value: Seq<char>) -> Outcome {
    reject(
        !native_exec_approval_action::is_member(value),
        one_of_msg(field, native_exec_approval_action::spec_all(), value),
    )
}

fn validate_security_level(field: &str, value: &str) -> (r: Result<(), String>)
    ensures
        outcome(r) == security_level(field@, value@),
{
    if is_valid_exec_security(value) {
        Ok(())
    } else {
        Err(one_of_msg_text(field, exec_security::all(), value))
    }
}

fn validate_ask_mode(field: &str, value: &str) -> (r: Result<(), String>)
    ensures
        outcome(r) == ask_mode(field@, value@),
{
    if is_valid_exec_ask(value) {
        Ok(())
    } else {
        Err(one_of_msg_text(field, exec_ask::all(), value))
    }
}

fn validate_native_action(field: &str, value: &str) -> (r: Result<(), String>)
    ensures
        outcome(r) == native_action(field@, value@),
{
    if is_valid_native_exec_approval_action(value) {
        Ok(())
    } else {
        Err(one_of_msg_text(field, native_exec_approval_action::all(), value))
    }
}

/// A string that must not be empty, reported without the value:
/// `field: expected non-empty string`.
pub open spec fn non_empty_bare(field: Seq<char>, value: Seq<char>) -> Outcome {
    reject(value.len() == 0, field + ": expected non-empty string"@)
}

fn validate_non_empty_bare(field: &str, value: &str) -> (r: Result<(), String>)
    ensures
        outcome(r) == non_empty_bare(field@, value@),
{
    if value.is_empty() {
        let mut m = String::from_str(field);
        m.append(": expected non-empty string");
        Err(m)
    } else {
        Ok(())
    }
}

/// An optional `source` that must be the literal `allow-always`.
pub open spec fn allow_always_source(source: Option<String>) -> Outcome {
    match source {
        Some(src) => reject(
            src@ != "allow-always"@,
            "source: expected literal \"allow-always\", got "@ + str_debug(src@),
        ),
        None => Ok(()),
    }
}

fn validate_allow_always_source(source: &Option<String>) -> (r: Result<(), String>)
    ensures
        outcome(r) == allow_always_source(*source),
{
    match source {
        Some(src) => {
            if str_eq(src.as_str(), "allow-always") {
                Ok(())
            } else {
                let shown = debug_text(src.as_str());
                let mut m = String::from_str("source: expected literal \"allow-always\", got ");
                m.append(shown.as_str());
                Err(m)
            }
        },
        None => Ok(()),
    }
}

/// An optional finite number at least zero:
/// `field: expected finite number >= 0, got n`.
pub open spec fn opt_finite_non_negative(field: Seq<char>, n: Option<NumberValue>) -> Outcome {
    match n {
        Some(v) => reject(
            !(v.finite && v.at_least_zero()),
            field + ": expected finite number >= 0, got "@ + v.text@,
        ),
        None => Ok(()),
    }
}

fn validate_optional_non_negative_number(field: &str, n: &Option<NumberValue>) -> (r: Result<(), String>)
    ensures
        outcome(r) == opt_finite_non_negative(field@, *n),
{
    match n {
        Some(v) => {
            if v.finite && !v.is_nan && !v.negative {
                Ok(())
            } else {
                let mut m = String::from_str(field);
                m.append(": expected finite number >= 0, got ");
                m.append(v.text.as_str());
                Err(m)
            }
        },
        None => Ok(()),
    }
}

/// Every item of `values[i..]` non-empty, reported as
/// `field[k]: expected non-empty string`.
pub open spec fn each_non_empty_bare(field: Seq<char>, values: Seq<String>, i: int) -> Outcome
    decreases values.len() - i,
{
    if 0 <= i < values.len() {
        also(non_empty_bare(index_label(field, i), values[i]@), each_non_empty_bare(field, values, i + 1))
    } else {
        Ok(())
    }
}

fn validate_each_non_empty_bare(field: &str, values: &Vec<String>) -> (r: Result<(), String>)
    ensures
        outcome(r) == each_non_empty_bare(field@, values@, 0),
{
    let n = values.len();
    let mut i: usize = 0;
    while i < n
        invariant
            n == values@.len(),
            i <= n,
            each_non_empty_bare(field@, values@, 0) == each_non_empty_bare(field@, values@, i as int),
        decreases n - i,
    {
        if values[i].as_str().is_empty() {
            let label = index_label_text(field, i);
            return validate_non_empty_bare(label.as_str(), values[i].as_str());
        }
        i = i + 1;
    }
    Ok(())
}

// ---------------------------------------------------------------------------
// UTF-16 length
// ---------------------------------------------------------------------------

/// UTF-16 code units of one character: two for those beyond the Basic
/// Multilingual Plane.
pub open spec fn utf16_units(c: char) -> int {
    if (c as u32) < 0x10000 {
        1
    } else {
        2
    }
}

/// Length of `s` in UTF-16 code units (JavaScript's `length`).
pub open spec fn utf16_len(s: Seq<char>) -> int
    decreases s.len(),
{
    if s.len() == 0 {
        0
    } else {
        utf16_len(s.drop_last()) + utf16_units(s.last())
    }
}

proof fn utf16_len_bounds(s: Seq<char>)
    ensures
        s.len() <= utf16_len(s) <= 2 * s.len(),
    decreases s.len(),
{
    if s.len() > 0 {
        utf16_len_bounds(s.drop_last());
    }
}

/// Counts the UTF-16 code units of `s`. A string holds at least one byte per
/// character and at most `isize::MAX` bytes, hence the bound on its length.
pub fn utf16_length(s: &str) -> (r: usize)
    requires
        s@.len() <= isize::MAX,
    ensures
        r == utf16_len(s@),
{
    let n = s.unicode_len();
    let mut total: usize = 0;
    let mut i: usize = 0;
    while i < n
        invariant
            n == s@.len(),
            n <= isize::MAX,
            i <= n,
            total == utf16_len(s@.take(i as int)),
            total <= 2 * i,
        decreases n - i,
    {
        let c = s.get_char(i);
        assert(s@.take(i + 1).drop_last() =~= s@.take(i as int));
        proof {
            utf16_len_bounds(s@.take(i as int));
        }
        if (c as u32) < 0x10000 {
            total = total + 1;
        } else {
            total = total + 2;
        }
        i = i + 1;
    }
    assert(s@.take(n as int) =~= s@);
    total
}

// ---------------------------------------------------------------------------
// Persisted policy
// ---------------------------------------------------------------------------

/// One persisted allowlist entry for a command pattern or resolved executable.
#[derive(Debug, Clone)]
pub struct ExecApprovalsAllowlistEntrySchema {
    pub id: Option<NonEmptyString>,
    pub pattern: String,
    pub source: Option<String>,
    pub command_text: Option<String>,
    pub arg_pattern: Option<String>,
    pub last_used_at: Option<NumberValue>,
    pub last_used_command: Option<String>,
    pub last_resolved_path: Option<String>,
}

impl ExecApprovalsAllowlistEntrySchema {
    /// Id, the `allow-always` source, then a finite `lastUsedAt >= 0`; the
    /// pattern is any string.
    pub open spec fn check(&self) -> Outcome {
        also(opt_non_empty("id"@, self.id),
        also(allow_always_source(self.source),
        opt_finite_non_negative("lastUsedAt"@, self.last_used_at)))
    }

    pub fn validate(&self) -> (r: Result<(), String>)
        ensures
            outcome(r) == self.check(),
    {
        let r = require_opt_non_empty("id", &self.id);
        if r.is_err() {
            return r;
        }
        let r = validate_allow_always_source(&self.source);
        if r.is_err() {
            return r;
        }
        validate_optional_non_negative_number("lastUsedAt", &self.last_used_at)
    }
}

impl Checked for ExecApprovalsAllowlistEntrySchema {
    open spec fn checks(&self) -> Outcome {
        self.check()
    }

    fn run_checks(&self) -> (r: Result<(), String>) {
        self.validate()
    }
}

/// Policy fields shared by the defaults and the agent overlays.
#[derive(Debug, Clone, Default)]
pub struct ExecApprovalsPolicyFields {
    pub security: Option<String>,
    pub ask: Option<String>,
    pub ask_fallback: Option<String>,
    pub auto_allow_skills: Option<bool>,
}

impl ExecApprovalsPolicyFields {
    /// `security`, `ask` and `askFallback` are free strings here, so every
    /// value passes.
    pub fn validate(&self) -> (r: Result<(), String>)
        ensures
            r is Ok,
    {
        Ok(())
    }
}

/// Host-resolved default policy after applying persisted defaults and runtime
/// fallbacks.
#[derive(Debug, Clone, Default)]
pub struct ExecApprovalsResolvedDefaultsSchema {
    pub security: String,
    pub ask: String,
    pub ask_fallback: String,
    pub auto_allow_skills: bool,
}

impl ExecApprovalsResolvedDefaultsSchema {
    /// Security, ask and ask fallback name known values.
    pub open spec fn check(&self) -> Outcome {
        also(security_level("security"@, self.security@),
        also(ask_mode("ask"@, self.ask@),
        security_level("askFallback"@, self.ask_fallback@)))
    }

    pub fn validate(&self) -> (r: Result<(), String>)
        ensures
            outcome(r) == self.check(),
    {
        let r = validate_security_level("security", self.security.as_str());
        if r.is_err() {
            return r;
        }
        let r = validate_ask_mode("ask", self.ask.as_str());
        if r.is_err() {
            return r;
        }
        validate_security_level("askFallback", self.ask_fallback.as_str())
    }
}

/// Default exec approval policy shared by all agents unless overridden.
#[derive(Debug, Clone, Default)]
pub struct ExecApprovalsDefaultsSchema {
    pub policy: ExecApprovalsPolicyFields,
}

impl ExecApprovalsDefaultsSchema {
    /// The policy fields are free, so every value passes.
    pub fn validate(&self) -> (r: Result<(), String>)
        ensures
            r is Ok,
    {
        self.policy.validate()
    }
}

/// Agent-specific exec approval policy and allowlist.
#[derive(Debug, Clone, Default)]
pub struct ExecApprovalsAgentSchema {
    pub policy: ExecApprovalsPolicyFields,
    pub allowlist: Option<Vec<ExecApprovalsAllowlistEntrySchema>>,
}

impl ExecApprovalsAgentSchema {
    /// Each allowlist entry (`allowlist[i]: message`); the policy fields are
    /// free.
    pub open spec fn check(&self) -> Outcome {
        match self.allowlist { Some(v) => each_checked("allowlist"@, v@, 0), None => Ok(()) }
    }

    pub fn validate(&self) -> (r: Result<(), String>)
        ensures
            outcome(r) == self.check(),
    {
        match &self.allowlist {
            Some(v) => validate_each("allowlist", v),
            None => Ok(()),
        }
    }
}

/// Socket through which the approvals host is reached.
#[derive(Debug, Clone, Default)]
pub struct ExecApprovalsSocketSchema {
    pub path: Option<String>,
    pub token: Option<String>,
}

impl ExecApprovalsSocketSchema {
    /// No field is constrained.
    pub fn validate(&self) -> (r: Result<(), String>)
        ensures
            r is Ok,
    {
        Ok(())
    }
}
/// The check of one agent entry of the approvals file: the agent's checks,
/// its message prefixed `agents[<key>]: `.
pub open spec fn agent_entry(key: Seq<char>, agent: ExecApprovalsAgentSchema) -> Outcome {
    within("agents["@ + key + "]: "@, agent.check())
}

/// `agent_entry` as a function value.
pub open spec fn agent_check() -> spec_fn(Seq<char>, ExecApprovalsAgentSchema) -> Outcome {
    |key: Seq<char>, agent: ExecApprovalsAgentSchema| agent_entry(key, agent)
}

fn validate_agents(agents: &std::collections::BTreeMap<String, ExecApprovalsAgentSchema>) -> (r: Result<(), String>)
    ensures
        outcome(r) == first_failure(agents@, agent_check()),
{
    let entries = entries_in_order(agents);
    let n = entries.len();
    let mut i: usize = 0;
    while i < n
        invariant
            n == entries@.len(),
            i <= n,
            lists_entries_in_order(agents@, entries@),
            forall|j: int| 0 <= j < i ==> agent_check()(#[trigger] entries@[j].0@, *entries@[j].1) is Ok,
        decreases n - i,
    {
        let key = entries[i].0;
        let agent = entries[i].1;
        let r = agent.validate();
        if r.is_err() {
            let mut prefix = String::from_str("agents[");
            prefix.append(key.as_str());
            prefix.append("]: ");
            let out = prefixed(prefix.as_str(), r);
            proof {
                first_failure_at(agents@, agent_check(), entries@, i as int);
            }
            return out;
        }
        i = i + 1;
    }
    proof {
        first_failure_none(agents@, agent_check(), entries@);
    }
    Ok(())
}

/// Versioned exec approvals config file edited through gateway APIs.
#[derive(Debug, Clone, Default)]
pub struct ExecApprovalsFileSchema {
    /// Always the literal `1`.
    pub version: i64,
    pub socket: Option<ExecApprovalsSocketSchema>,
    pub defaults: Option<ExecApprovalsDefaultsSchema>,
    pub agents: Option<std::collections::BTreeMap<String, ExecApprovalsAgentSchema>>,
}

impl ExecApprovalsFileSchema {
    /// `version` is 1, then each agent in key order (prefixed
    /// `agents[<key>]: `). The socket and the defaults never fail.
    pub open spec fn check(&self) -> Outcome {
        also(reject(self.version != 1, "version: expected literal 1, got "@ + decimal(self.version as int)),
        match self.agents {
            Some(a) => first_failure(a@, agent_check()),
            None => Ok(()),
        })
    }

    pub fn validate(&self) -> (r: Result<(), String>)
        ensures
            outcome(r) == self.check(),
    {
        if self.version != 1 {
            let digits = i64_text(self.version);
            let mut m = String::from_str("version: expected literal 1, got ");
            m.append(digits.as_str());
            return Err(m);
        }
        if let Some(s) = &self.socket {
            let r = prefixed("socket: ", s.validate());
            if r.is_err() {
                return r;
            }
        }
        if let Some(d) = &self.defaults {
            let r = prefixed("defaults: ", d.validate());
            if r.is_err() {
                return r;
            }
        }
        match &self.agents {
            Some(a) => validate_agents(a),
            None => Ok(()),
        }
    }
}

/// File-backed read snapshot with path and hash metadata for optimistic writes.
#[derive(Debug, Clone, Default)]
pub struct ExecApprovalsSnapshotSchema {
    pub path: NonEmptyString,
    pub exists: bool,
    pub hash: NonEmptyString,
    pub file: ExecApprovalsFileSchema,
}

impl ExecApprovalsSnapshotSchema {
    /// The checks of this schema, in field order.
    pub open spec fn check(&self) -> Outcome {
        also(non_empty("path"@, self.path@),
        also(non_empty("hash"@, self.hash@),
        within("file: "@, self.file.check())))
    }

    pub fn validate(&self) -> (r: Result<(), String>)
        ensures
            outcome(r) == self.check(),
    {
        let r = require_non_empty("path", self.path.as_str());
        if r.is_err() {
            return r;
        }
        let r = require_non_empty("hash", self.hash.as_str());
        if r.is_err() {
            return r;
        }
        prefixed("file: ", self.file.validate())
    }
}

// ---------------------------------------------------------------------------
// Host-native policy
// ---------------------------------------------------------------------------

/// One rule owned and enforced by a host-native exec policy implementation.
#[derive(Debug, Clone, Default)]
pub struct NativeExecApprovalRuleSchema {
    pub pattern: NonEmptyString,
    /// One of `allow`, `deny`, `prompt`.
    pub action: String,
    pub shells: Option<Vec<NonEmptyString>>,
    pub description: Option<String>,
    pub enabled: Option<bool>,
}

impl NativeExecApprovalRuleSchema {
    /// The checks of this schema, in field order.
    pub open spec fn check(&self) -> Outcome {
        also(non_empty("pattern"@, self.pattern@),
        also(native_action("action"@, self.action@),
        opt_each_non_empty("shells"@, self.shells)))
    }

    pub fn validate(&self) -> (r: Result<(), String>)
        ensures
            outcome(r) == self.check(),
    {
        let r = require_non_empty("pattern", self.pattern.as_str());
        if r.is_err() {
            return r;
        }
        let r = validate_native_action("action", self.action.as_str());
        if r.is_err() {
            return r;
        }
        require_opt_each_non_empty("shells", &self.shells)
    }
}

impl Checked for NativeExecApprovalRuleSchema {
    open spec fn checks(&self) -> Outcome {
        self.check()
    }

    fn run_checks(&self) -> (r: Result<(), String>) {
        self.validate()
    }
}

/// Constraints a host-native policy imposes on writes.
#[derive(Debug, Clone, Default)]
pub struct NativeExecApprovalConstraintsSchema {
    pub base_hash_required: Option<bool>,
    pub default_allow_allowed: Option<bool>,
    pub broad_allow_rules_allowed: Option<bool>,
    pub dangerous_allow_rules_allowed: Option<bool>,
}

impl NativeExecApprovalConstraintsSchema {
    /// No field is constrained.
    pub fn validate(&self) -> (r: Result<(), String>)
        ensures
            r is Ok,
    {
        Ok(())
    }
}
/// Node read snapshot of a file-backed or a host-native approval owner. It
/// takes exactly one of three shapes: file-backed (path, exists, hash and
/// file, with no native field), native enabled (`enabled: true` with a
/// non-empty hash, a default action and rules, with no file-backed field), or
/// native disabled (`enabled: false` and nothing else).
#[derive(Debug, Clone, Default)]
pub struct ExecApprovalsNodeSnapshotSchema {
    pub path: Option<String>,
    pub exists: Option<bool>,
    pub hash: Option<String>,
    pub file: Option<ExecApprovalsFileSchema>,
    pub resolved_defaults: Option<ExecApprovalsResolvedDefaultsSchema>,
    pub enabled: Option<bool>,
    pub base_hash: Option<NonEmptyString>,
    /// One of `allow`, `deny`, `prompt`.
    pub default_action: Option<String>,
    pub rules: Option<Vec<NativeExecApprovalRuleSchema>>,
    pub constraints: Option<NativeExecApprovalConstraintsSchema>,
    pub message: Option<String>,
}

impl ExecApprovalsNodeSnapshotSchema {
    /// Path, exists, hash and file are all present.
    pub open spec fn is_file_form(&self) -> bool {
        self.path is Some && self.exists is Some && self.hash is Some && self.file is Some
    }

    /// Enabled, with hash, default action and rules present.
    pub open spec fn is_native_enabled_form(&self) -> bool {
        self.enabled == Some(true) && self.hash is Some && self.default_action is Some && self.rules is Some
    }

    /// Explicitly disabled.
    pub open spec fn is_native_disabled_form(&self) -> bool {
        self.enabled == Some(false)
    }

    /// A field of the native shapes is present.
    pub open spec fn has_native_fields(&self) -> bool {
        self.enabled is Some || self.base_hash is Some || self.default_action is Some || self.rules is Some
            || self.constraints is Some || self.message is Some
    }

    /// A field of the file-backed shape is present.
    pub open spec fn has_file_fields(&self) -> bool {
        self.path is Some || self.exists is Some || self.file is Some || self.resolved_defaults is Some
            || self.message is Some
    }

    /// A field other than `enabled` and `message` is present.
    pub open spec fn has_other_fields(&self) -> bool {
        self.path is Some || self.exists is Some || self.hash is Some || self.file is Some
            || self.resolved_defaults is Some || self.base_hash is Some || self.default_action is Some
            || self.rules is Some || self.constraints is Some
    }

    /// Which shape the snapshot takes, and whether it carries only that
    /// shape's fields.
    pub open spec fn shape_check(&self) -> Outcome {
        if self.is_file_form() {
            reject(
                self.has_native_fields(),
                "nodeSnapshot: file-backed shape (path+exists+hash+file) cannot also carry native fields"@,
            )
        } else if self.is_native_enabled_form() {
            if self.hash.unwrap()@.len() == 0 {
                Err("nodeSnapshot: native enabled shape requires non-empty hash"@)
            } else if self.has_file_fields() {
                Err("nodeSnapshot: native enabled shape (enabled=true+hash+defaultAction+rules) cannot also carry file-backed fields"@)
            } else {
                opt_non_empty("baseHash"@, self.base_hash)
            }
        } else if self.is_native_disabled_form() {
            reject(
                self.has_other_fields(),
                "nodeSnapshot: native disabled shape (enabled=false) must not carry any other fields"@,
            )
        } else {
            Err("nodeSnapshot: payload matches none of the supported shapes (file-backed, native-enabled, native-disabled)"@)
        }
    }

    /// The resolved defaults (prefixed `resolvedDefaults: `), the default
    /// action, each rule (`rules[i]: message`), then the shape.
    pub open spec fn check(&self) -> Outcome {
        also(match self.resolved_defaults {
            Some(rd) => within("resolvedDefaults: "@, rd.check()),
            None => Ok(()),
        },
        also(match self.default_action {
            Some(da) => native_action("defaultAction"@, da@),
            None => Ok(()),
        },
        also(match self.rules {
            Some(rs) => each_checked("rules"@, rs@, 0),
            None => Ok(()),
        },
        self.shape_check())))
    }

    pub fn validate(&self) -> (r: Result<(), String>)
        ensures
            outcome(r) == self.check(),
    {
        if let Some(rd) = &self.resolved_defaults {
            let r = prefixed("resolvedDefaults: ", rd.validate());
            if r.is_err() {
                return r;
            }
        }
        if let Some(da) = &self.default_action {
            let r = validate_native_action("defaultAction", da.as_str());
            if r.is_err() {
                return r;
            }
        }
        if let Some(rules) = &self.rules {
            let r = validate_each("rules", rules);
            if r.is_err() {
                return r;
            }
        }
        if let Some(c) = &self.constraints {
            let r = prefixed("constraints: ", c.validate());
            if r.is_err() {
                return r;
            }
        }
        let file_form = self.path.is_some() && self.exists.is_some() && self.hash.is_some() && self.file.is_some();
        let native_enabled_form = self.enabled == Some(true) && self.hash.is_some() && self.default_action.is_some()
            && self.rules.is_some();
        let native_disabled_form = self.enabled == Some(false);
        if file_form {
            let native_extras = self.enabled.is_some() || self.base_hash.is_some() || self.default_action.is_some()
                || self.rules.is_some() || self.constraints.is_some() || self.message.is_some();
            if native_extras {
                return Err(String::from_str(
                    "nodeSnapshot: file-backed shape (path+exists+hash+file) cannot also carry native fields",
                ));
            }
        } else if native_enabled_form {
            if let Some(h) = &self.hash {
                if h.as_str().is_empty() {
                    return Err(String::from_str("nodeSnapshot: native enabled shape requires non-empty hash"));
                }
            }
            let file_extras = self.path.is_some() || self.exists.is_some() || self.file.is_some()
                || self.resolved_defaults.is_some() || self.message.is_some();
            if file_extras {
                return Err(String::from_str(
                    "nodeSnapshot: native enabled shape (enabled=true+hash+defaultAction+rules) cannot also carry file-backed fields",
                ));
            }
            return require_opt_non_empty("baseHash", &self.base_hash);
        } else if native_disabled_form {
            let extras = self.path.is_some() || self.exists.is_some() || self.hash.is_some() || self.file.is_some()
                || self.resolved_defaults.is_some() || self.base_hash.is_some() || self.default_action.is_some()
                || self.rules.is_some() || self.constraints.is_some();
            if extras {
                return Err(String::from_str(
                    "nodeSnapshot: native disabled shape (enabled=false) must not carry any other fields",
                ));
            }
        } else {
            return Err(String::from_str(
                "nodeSnapshot: payload matches none of the supported shapes (file-backed, native-enabled, native-disabled)",
            ));
        }
        Ok(())
    }
}

// ---------------------------------------------------------------------------
// Reads and writes of the policy
// ---------------------------------------------------------------------------

/// Empty request payload for reading the local exec approval policy.
#[derive(Debug, Clone, Default)]
pub struct ExecApprovalsGetParamsSchema {
}

impl ExecApprovalsGetParamsSchema {
    /// No field is constrained.
    pub fn validate(&self) -> (r: Result<(), String>)
        ensures
            r is Ok,
    {
        Ok(())
    }
}

/// Local exec approval policy write, optionally guarded by a base hash.
#[derive(Debug, Clone, Default)]
pub struct ExecApprovalsSetParamsSchema {
    pub file: ExecApprovalsFileSchema,
    pub base_hash: Option<NonEmptyString>,
}

impl ExecApprovalsSetParamsSchema {
    /// The checks of this schema, in field order.
    pub open spec fn check(&self) -> Outcome {
        also(within("file: "@, self.file.check()),
        opt_non_empty("baseHash"@, self.base_hash))
    }

    pub fn validate(&self) -> (r: Result<(), String>)
        ensures
            outcome(r) == self.check(),
    {
        let r = prefixed("file: ", self.file.validate());
        if r.is_err() {
            return r;
        }
        require_opt_non_empty("baseHash", &self.base_hash)
    }
}

/// Node-scoped request for reading the exec approval policy.
#[derive(Debug, Clone, Default)]
pub struct ExecApprovalsNodeGetParamsSchema {
    pub node_id: NonEmptyString,
}

impl ExecApprovalsNodeGetParamsSchema {
    /// The checks of this schema, in field order.
    pub open spec fn check(&self) -> Outcome {
        non_empty("nodeId"@, self.node_id@)
    }

    pub fn validate(&self) -> (r: Result<(), String>)
        ensures
            outcome(r) == self.check(),
    {
        require_non_empty("nodeId", self.node_id.as_str())
    }
}

/// Writable host-native policy fields; the node remains the validation
/// authority.
#[derive(Debug, Clone, Default)]
pub struct NativeExecApprovalPolicySchema {
    /// One of `allow`, `deny`, `prompt`.
    pub default_action: Option<String>,
    /// A set replaces the whole list, so omitting it would clear the rules.
    pub rules: Vec<NativeExecApprovalRuleSchema>,
}

impl NativeExecApprovalPolicySchema {
    /// The checks of this schema, in field order.
    pub open spec fn check(&self) -> Outcome {
        also(match self.default_action { Some(da) => native_action("defaultAction"@, da@), None => Ok(()) },
        each_checked("rules"@, self.rules@, 0))
    }

    pub fn validate(&self) -> (r: Result<(), String>)
        ensures
            outcome(r) == self.check(),
    {
        if let Some(da) = &self.default_action {
            let r = validate_native_action("defaultAction", da.as_str());
            if r.is_err() {
                return r;
            }
        }
        validate_each("rules", &self.rules)
    }
}
/// Node-scoped write of exactly one approval owner: a file alone, or a native
/// policy together with its base hash.
#[derive(Debug, Clone, Default)]
pub struct ExecApprovalsNodeSetParamsSchema {
    pub node_id: NonEmptyString,
    pub file: Option<ExecApprovalsFileSchema>,
    pub native: Option<NativeExecApprovalPolicySchema>,
    pub base_hash: Option<NonEmptyString>,
}

impl ExecApprovalsNodeSetParamsSchema {
    /// `nodeId`, then: a file without a native policy is checked (prefixed
    /// `file: `); a native policy with a base hash is checked (prefixed
    /// `native: `) and the base hash is non-empty; any other combination fails.
    pub open spec fn check(&self) -> Outcome {
        also(non_empty("nodeId"@, self.node_id@), match (self.file, self.native, self.base_hash) {
            (Some(f), None, _) => within("file: "@, f.check()),
            (None, Some(n), Some(bh)) => also(within("native: "@, n.check()), non_empty("baseHash"@, bh@)),
            _ => Err("ExecApprovalsNodeSetParamsSchema: must carry exactly one of {file} or {native,baseHash}"@),
        })
    }

    pub fn validate(&self) -> (r: Result<(), String>)
        ensures
            outcome(r) == self.check(),
    {
        let r = require_non_empty("nodeId", self.node_id.as_str());
        if r.is_err() {
            return r;
        }
        match (&self.file, &self.native, &self.base_hash) {
            (Some(f), None, _) => prefixed("file: ", f.validate()),
            (None, Some(n), Some(bh)) => {
                let r = prefixed("native: ", n.validate());
                if r.is_err() {
                    return r;
                }
                require_non_empty("baseHash", bh.as_str())
            },
            _ => Err(String::from_str(
                "ExecApprovalsNodeSetParamsSchema: must carry exactly one of {file} or {native,baseHash}",
            )),
        }
    }
}

// ---------------------------------------------------------------------------
// Pending approvals
// ---------------------------------------------------------------------------

/// Lookup request for one pending exec approval by id.
#[derive(Debug, Clone, Default)]
pub struct ExecApprovalGetParamsSchema {
    pub id: NonEmptyString,
}

impl ExecApprovalGetParamsSchema {
    /// The checks of this schema, in field order.
    pub open spec fn check(&self) -> Outcome {
        non_empty("id"@, self.id@)
    }

    pub fn validate(&self) -> (r: Result<(), String>)
        ensures
            outcome(r) == self.check(),
    {
        require_non_empty("id", self.id.as_str())
    }
}

/// One allowlist rule in a policy snapshot.
#[derive(Debug, Clone, Default)]
pub struct ExecApprovalAllowlistRuleSchema {
    pub pattern: String,
    pub arg_pattern: Option<String>,
    /// Only the literal `allow-always`.
    pub source: Option<String>,
}

impl ExecApprovalAllowlistRuleSchema {
    /// The source is the literal `allow-always` when present; the pattern is
    /// any string.
    pub open spec fn check(&self) -> Outcome {
        allow_always_source(self.source)
    }

    pub fn validate(&self) -> (r: Result<(), String>)
        ensures
            outcome(r) == self.check(),
    {
        validate_allow_always_source(&self.source)
    }
}

impl Checked for ExecApprovalAllowlistRuleSchema {
    open spec fn checks(&self) -> Outcome {
        self.check()
    }

    fn run_checks(&self) -> (r: Result<(), String>) {
        self.validate()
    }
}

/// The effective policy a request was evaluated under.
#[derive(Debug, Clone, Default)]
pub struct ExecApprovalPolicySnapshotSchema {
    pub security: String,
    pub ask: String,
    pub ask_fallback: String,
    pub auto_allow_skills: bool,
    pub allowlist_rules: Vec<ExecApprovalAllowlistRuleSchema>,
}

impl ExecApprovalPolicySnapshotSchema {
    /// The checks of this schema, in field order.
    pub open spec fn check(&self) -> Outcome {
        also(security_level("security"@, self.security@),
        also(ask_mode("ask"@, self.ask@),
        also(security_level("askFallback"@, self.ask_fallback@),
        each_checked("allowlistRules"@, self.allowlist_rules@, 0))))
    }

    pub fn validate(&self) -> (r: Result<(), String>)
        ensures
            outcome(r) == self.check(),
    {
        let r = validate_security_level("security", self.security.as_str());
        if r.is_err() {
            return r;
        }
        let r = validate_ask_mode("ask", self.ask.as_str());
        if r.is_err() {
            return r;
        }
        let r = validate_security_level("askFallback", self.ask_fallback.as_str());
        if r.is_err() {
            return r;
        }
        validate_each("allowlistRules", &self.allowlist_rules)
    }
}

/// The argument of a command that names a file the command may change, with
/// the file's hash.
#[derive(Debug, Clone, Default)]
pub struct ExecMutableFileOperandSchema {
    pub argv_index: i64,
    pub path: String,
    pub sha256: String,
}

impl ExecMutableFileOperandSchema {
    /// The checks of this schema, in field order.
    pub open spec fn check(&self) -> Outcome {
        also(non_negative_integer("argvIndex"@, self.argv_index as int),
        also(non_empty_bare("path"@, self.path@),
        non_empty_bare("sha256"@, self.sha256@)))
    }

    pub fn validate(&self) -> (r: Result<(), String>)
        ensures
            outcome(r) == self.check(),
    {
        let r = require_non_negative_integer("argvIndex", self.argv_index);
        if r.is_err() {
            return r;
        }
        let r = validate_non_empty_bare("path", self.path.as_str());
        if r.is_err() {
            return r;
        }
        validate_non_empty_bare("sha256", self.sha256.as_str())
    }
}

/// The planned system run a pending approval shows to approvers.
#[derive(Debug, Clone, Default)]
pub struct ExecSystemRunPlanSchema {
    pub argv: Vec<String>,
    pub cwd: Option<String>,
    pub command_text: String,
    pub command_preview: Option<String>,
    pub agent_id: Option<String>,
    pub session_key: Option<String>,
    pub policy_snapshot: Option<ExecApprovalPolicySnapshotSchema>,
    pub mutable_file_operand: Option<ExecMutableFileOperandSchema>,
}

impl ExecSystemRunPlanSchema {
    /// The checks of this schema, in field order.
    pub open spec fn check(&self) -> Outcome {
        also(each_non_empty_bare("argv"@, self.argv@, 0),
        also(non_empty_bare("commandText"@, self.command_text@),
        also(match self.policy_snapshot { Some(x) => within("policySnapshot: "@, x.check()), None => Ok(()) },
        match self.mutable_file_operand { Some(x) => within("mutableFileOperand: "@, x.check()), None => Ok(()) })))
    }

    pub fn validate(&self) -> (r: Result<(), String>)
        ensures
            outcome(r) == self.check(),
    {
        let r = validate_each_non_empty_bare("argv", &self.argv);
        if r.is_err() {
            return r;
        }
        let r = validate_non_empty_bare("commandText", self.command_text.as_str());
        if r.is_err() {
            return r;
        }
        if let Some(x) = &self.policy_snapshot {
            let r = prefixed("policySnapshot: ", x.validate());
            if r.is_err() {
                return r;
            }
        }
        if let Some(x) = &self.mutable_file_operand {
            let r = prefixed("mutableFileOperand: ", x.validate());
            if r.is_err() {
                return r;
            }
        }
        Ok(())
    }
}
// ---------------------------------------------------------------------------
// Command spans
// ---------------------------------------------------------------------------

/// A span of the `command` string, in UTF-16 code units.
#[derive(Debug, Clone, Copy, Default)]
pub struct ExecCommandSpanSchema {
    /// Inclusive UTF-16 code unit offset into the command.
    pub start_index: i64,
    /// Exclusive UTF-16 code unit offset into the command; greater than
    /// `start_index` and no greater than the command's length.
    pub end_index: i64,
}

impl ExecCommandSpanSchema {
    /// `startIndex >= 0`, `endIndex >= 1`, the end after the start, and the end
    /// within a command of `command_len` UTF-16 code units (both offsets
    /// compared as `usize`).
    pub open spec fn check(&self, command_len: int) -> Outcome {
        also(non_negative_integer("startIndex"@, self.start_index as int),
        also(positive_integer("endIndex"@, self.end_index as int),
        also(reject(
            (self.end_index as usize) <= (self.start_index as usize),
            "commandSpan: endIndex ("@ + decimal(self.end_index as int) + ") must be greater than startIndex ("@
                + decimal(self.start_index as int) + ")"@,
        ),
        reject(
            (self.end_index as usize) > command_len,
            "commandSpan: endIndex ("@ + decimal(self.end_index as int) + ") exceeds command length ("@
                + decimal(command_len) + ")"@,
        ))))
    }

    pub fn validate(&self, command_len_utf16: usize) -> (r: Result<(), String>)
        ensures
            outcome(r) == self.check(command_len_utf16 as int),
    {
        let r = require_non_negative_integer("startIndex", self.start_index);
        if r.is_err() {
            return r;
        }
        let r = require_positive_integer("endIndex", self.end_index);
        if r.is_err() {
            return r;
        }
        if (self.end_index as usize) <= (self.start_index as usize) {
            let end_text = i64_text(self.end_index);
            let start_text = i64_text(self.start_index);
            let mut m = String::from_str("commandSpan: endIndex (");
            m.append(end_text.as_str());
            m.append(") must be greater than startIndex (");
            m.append(start_text.as_str());
            m.append(")");
            return Err(m);
        }
        if (self.end_index as usize) > command_len_utf16 {
            let end_text = i64_text(self.end_index);
            let len_text = usize_text(command_len_utf16);
            let mut m = String::from_str("commandSpan: endIndex (");
            m.append(end_text.as_str());
            m.append(") exceeds command length (");
            m.append(len_text.as_str());
            m.append(")");
            return Err(m);
        }
        Ok(())
    }
}

/// Every span of `spans[i..]` within a command of `command_len` code units,
/// reported as `commandSpans[k]: message`.
pub open spec fn each_span(spans: Seq<ExecCommandSpanSchema>, command_len: int, i: int) -> Outcome
    decreases spans.len() - i,
{
    if 0 <= i < spans.len() {
        also(within(item_prefix("commandSpans"@, i), spans[i].check(command_len)), each_span(spans, command_len, i + 1))
    } else {
        Ok(())
    }
}

fn validate_spans(spans: &Vec<ExecCommandSpanSchema>, command_len: usize) -> (r: Result<(), String>)
    ensures
        outcome(r) == each_span(spans@, command_len as int, 0),
{
    let n = spans.len();
    let mut i: usize = 0;
    while i < n
        invariant
            n == spans@.len(),
            i <= n,
            each_span(spans@, command_len as int, 0) == each_span(spans@, command_len as int, i as int),
        decreases n - i,
    {
        let r = spans[i].validate(command_len);
        if r.is_err() {
            return prefixed_item("commandSpans", i, r);
        }
        i = i + 1;
    }
    Ok(())
}

// ---------------------------------------------------------------------------
// Approval requests
// ---------------------------------------------------------------------------

/// The originating thread of a request: a string id, a numeric id, or null.
#[derive(Debug, Clone)]
pub enum ExecTurnSourceThreadId {
    String(String),
    Number(NumberValue),
    Null,
}

impl ExecTurnSourceThreadId {
    /// A number must be finite; strings and null pass.
    pub open spec fn check(&self) -> Outcome {
        match self {
            ExecTurnSourceThreadId::Number(n) => reject(
                !n.finite,
                "turnSourceThreadId: expected finite number, got "@ + n.text@,
            ),
            _ => Ok(()),
        }
    }

    pub fn validate(&self) -> (r: Result<(), String>)
        ensures
            outcome(r) == self.check(),
    {
        match self {
            ExecTurnSourceThreadId::Number(n) => {
                if n.finite {
                    Ok(())
                } else {
                    let mut m = String::from_str("turnSourceThreadId: expected finite number, got ");
                    m.append(n.text.as_str());
                    Err(m)
                }
            },
            _ => Ok(()),
        }
    }
}

/// The check of one environment entry: its key is non-empty.
pub open spec fn env_entry(key: Seq<char>, value: String) -> Outcome {
    non_empty("env key"@, key)
}

/// `env_entry` as a function value.
pub open spec fn env_check() -> spec_fn(Seq<char>, String) -> Outcome {
    |key: Seq<char>, value: String| env_entry(key, value)
}

fn validate_env(env: &std::collections::BTreeMap<NonEmptyString, String>) -> (r: Result<(), String>)
    ensures
        outcome(r) == first_failure(env@, env_check()),
{
    let entries = entries_in_order(env);
    let n = entries.len();
    let mut i: usize = 0;
    while i < n
        invariant
            n == entries@.len(),
            i <= n,
            lists_entries_in_order(env@, entries@),
            forall|j: int| 0 <= j < i ==> env_check()(#[trigger] entries@[j].0@, *entries@[j].1) is Ok,
        decreases n - i,
    {
        let key = entries[i].0;
        let r = require_non_empty("env key", key.as_str());
        if r.is_err() {
            proof {
                first_failure_at(env@, env_check(), entries@, i as int);
            }
            return r;
        }
        i = i + 1;
    }
    proof {
        first_failure_none(env@, env_check(), entries@);
    }
    Ok(())
}

/// Every decision of `values[i..]` is the literal `allow-always`.
pub open spec fn each_allow_always(values: Seq<String>, i: int) -> Outcome
    decreases values.len() - i,
{
    if 0 <= i < values.len() {
        also(
            reject(
                values[i]@ != "allow-always"@,
                index_label("unavailableDecisions"@, i) + ": expected literal \"allow-always\", got "@
                    + str_debug(values[i]@),
            ),
            each_allow_always(values, i + 1),
        )
    } else {
        Ok(())
    }
}

/// Exactly one unavailable decision, the literal `allow-always`.
pub open spec fn unavailable_decisions(values: Seq<String>) -> Outcome {
    also(
        count_in("unavailableDecisions"@, ": expected length ["@, values.len() as int, 1, 1, "], got "@),
        each_allow_always(values, 0),
    )
}

fn validate_unavailable_decisions(values: &Vec<String>) -> (r: Result<(), String>)
    ensures
        outcome(r) == unavailable_decisions(values@),
{
    let r = require_count_in("unavailableDecisions", ": expected length [", values.len(), 1, 1, "], got ");
    if r.is_err() {
        return r;
    }
    let n = values.len();
    let mut i: usize = 0;
    while i < n
        invariant
            n == values@.len(),
            i <= n,
            unavailable_decisions(values@) == each_allow_always(values@, 0),
            each_allow_always(values@, 0) == each_allow_always(values@, i as int),
        decreases n - i,
    {
        if !str_eq(values[i].as_str(), "allow-always") {
            let shown = debug_text(values[i].as_str());
            let mut m = index_label_text("unavailableDecisions", i);
            m.append(": expected literal \"allow-always\", got ");
            m.append(shown.as_str());
            return Err(m);
        }
        i = i + 1;
    }
    Ok(())
}

/// Pending command execution approval request shown to approvers.
#[derive(Debug, Clone, Default)]
pub struct ExecApprovalRequestParamsSchema {
    pub id: Option<NonEmptyString>,
    pub command: Option<NonEmptyString>,
    pub command_argv: Option<Vec<String>>,
    pub system_run_plan: Option<ExecSystemRunPlanSchema>,
    pub env: Option<std::collections::BTreeMap<NonEmptyString, String>>,
    pub cwd: Option<String>,
    pub node_id: Option<String>,
    pub host: Option<String>,
    pub security: Option<String>,
    pub ask: Option<String>,
    pub warning_text: Option<String>,
    /// Exactly one entry, `allow-always`, when present.
    pub unavailable_decisions: Option<Vec<String>>,
    pub command_spans: Option<Vec<ExecCommandSpanSchema>>,
    pub agent_id: Option<String>,
    pub resolved_path: Option<String>,
    pub session_key: Option<String>,
    pub turn_source_channel: Option<String>,
    pub turn_source_to: Option<String>,
    pub turn_source_account_id: Option<String>,
    pub turn_source_thread_id: Option<ExecTurnSourceThreadId>,
    /// Operator devices that may decide this request; the gateway binds it
    /// only for internal approval-runtime requests.
    pub approval_reviewer_device_ids: Option<Vec<NonEmptyString>>,
    pub require_delivery_route: Option<bool>,
    pub suppress_delivery: Option<bool>,
    pub timeout_ms: Option<i64>,
    pub two_phase: Option<bool>,
}

impl ExecApprovalRequestParamsSchema {
    /// The UTF-16 length of the command; zero without one.
    pub open spec fn command_len(&self) -> int {
        match self.command {
            Some(c) => utf16_len(c@),
            None => 0,
        }
    }

    /// Id, command, each argument (`commandArgv[i]: expected non-empty
    /// string`), the run plan (prefixed `systemRunPlan: `), each environment
    /// key in key order, the unavailable decisions, each command span against
    /// the command's UTF-16 length, the approving devices, `timeoutMs >= 1`,
    /// then the thread id (its message prefixed once more).
    pub open spec fn check(&self) -> Outcome {
        also(self.command_check(), self.delivery_check())
    }

    /// The checks of the command: id, command, arguments, run plan,
    /// environment keys, unavailable decisions and command spans.
    pub open spec fn command_check(&self) -> Outcome {
        also(opt_non_empty("id"@, self.id),
        also(opt_non_empty("command"@, self.command),
        also(match self.command_argv {
            Some(v) => each_non_empty_bare("commandArgv"@, v@, 0),
            None => Ok(()),
        },
        also(match self.system_run_plan {
            Some(p) => within("systemRunPlan: "@, p.check()),
            None => Ok(()),
        },
        also(match self.env {
            Some(e) => first_failure(e@, env_check()),
            None => Ok(()),
        },
        also(match self.unavailable_decisions {
            Some(ud) => unavailable_decisions(ud@),
            None => Ok(()),
        },
        match self.command_spans {
            Some(spans) => each_span(spans@, self.command_len(), 0),
            None => Ok(()),
        }))))))
    }

    /// The checks of approval and delivery: approving devices, timeout and the
    /// originating thread.
    pub open spec fn delivery_check(&self) -> Outcome {
        also(opt_each_non_empty("approvalReviewerDeviceIds"@, self.approval_reviewer_device_ids),
        also(opt_positive_integer("timeoutMs"@, self.timeout_ms),
        match self.turn_source_thread_id {
            Some(t) => within("turnSourceThreadId: "@, t.check()),
            None => Ok(()),
        }))
    }

    pub fn validate(&self) -> (r: Result<(), String>)
        requires
            self.command matches Some(c) ==> c@.len() <= isize::MAX,
        ensures
            outcome(r) == self.check(),
    {
        let r = require_opt_non_empty("id", &self.id);
        if r.is_err() {
            return r;
        }
        let r = require_opt_non_empty("command", &self.command);
        if r.is_err() {
            return r;
        }
        if let Some(argv) = &self.command_argv {
            let r = validate_each_non_empty_bare("commandArgv", argv);
            if r.is_err() {
                return r;
            }
        }
        if let Some(plan) = &self.system_run_plan {
            let r = prefixed("systemRunPlan: ", plan.validate());
            if r.is_err() {
                return r;
            }
        }
        if let Some(env) = &self.env {
            let r = validate_env(env);
            if r.is_err() {
                return r;
            }
        }
        if let Some(ud) = &self.unavailable_decisions {
            let r = validate_unavailable_decisions(ud);
            if r.is_err() {
                return r;
            }
        }
        if let Some(spans) = &self.command_spans {
            let command_len = match &self.command {
                Some(c) => utf16_length(c.as_str()),
                None => 0,
            };
            let r = validate_spans(spans, command_len);
            if r.is_err() {
                return r;
            }
        }
        let r = require_opt_each_non_empty("approvalReviewerDeviceIds", &self.approval_reviewer_device_ids);
        if r.is_err() {
            return r;
        }
        let r = require_opt_positive_integer("timeoutMs", self.timeout_ms);
        if r.is_err() {
            return r;
        }
        match &self.turn_source_thread_id {
            Some(t) => prefixed("turnSourceThreadId: ", t.validate()),
            None => Ok(()),
        }
    }
}

/// Approver decision payload for one pending exec approval.
#[derive(Debug, Clone, Default)]
pub struct ExecApprovalResolveParamsSchema {
    pub id: NonEmptyString,
    pub decision: NonEmptyString,
}

impl ExecApprovalResolveParamsSchema {
    /// `id`, then `decision`, non-empty.
    pub open spec fn check(&self) -> Outcome {
        also(non_empty("id"@, self.id@), non_empty("decision"@, self.decision@))
    }

    pub fn validate(&self) -> (r: Result<(), String>)
        ensures
            outcome(r) == self.check(),
    {
        let r = require_non_empty("id", self.id.as_str());
        if r.is_err() {
            return r;
        }
        require_non_empty("decision", self.decision.as_str())
    }
}

/// Wire-type names of the schemas above.
pub type ExecApprovalsGetParams = ExecApprovalsGetParamsSchema;
pub type ExecApprovalsSetParams = ExecApprovalsSetParamsSchema;
pub type ExecApprovalsNodeGetParams = ExecApprovalsNodeGetParamsSchema;
pub type ExecApprovalsNodeSnapshot = ExecApprovalsNodeSnapshotSchema;
pub type ExecApprovalsNodeSetParams = ExecApprovalsNodeSetParamsSchema;
pub type ExecApprovalsSnapshot = ExecApprovalsSnapshotSchema;
pub type ExecApprovalGetParams = ExecApprovalGetParamsSchema;
pub type ExecApprovalRequestParams = ExecApprovalRequestParamsSchema;
pub type ExecApprovalResolveParams = ExecApprovalResolveParamsSchema;

// ---------------------------------------------------------------------------
// Laws
// ---------------------------------------------------------------------------

/// A node snapshot that passes validation takes exactly one of the three
/// shapes, and carries only that shape's fields: a file-backed snapshot has no
/// native field, a native enabled one has a non-empty hash and no file-backed
/// field, and a native disabled one has nothing besides `enabled` (and
/// `message`).
pub proof fn node_snapshot_takes_one_shape(s: ExecApprovalsNodeSnapshotSchema)
    requires
        s.check() is Ok,
    ensures
        s.is_file_form() ==> !s.is_native_enabled_form() && !s.is_native_disabled_form() && !s.has_native_fields(),
        s.is_native_enabled_form() ==> !s.is_file_form() && !s.has_file_fields() && s.hash.unwrap()@.len() > 0,
        s.is_native_disabled_form() ==> !s.is_file_form() && !s.is_native_enabled_form() && !s.has_other_fields(),
        s.is_file_form() || s.is_native_enabled_form() || s.is_native_disabled_form(),
{
}

/// A node snapshot passes validation exactly when its parts pass (resolved
/// defaults, a known default action, every rule) and it takes one of the three
/// shapes exactly: file-backed with no native field; native enabled with a
/// non-empty hash, no file-backed field and a non-empty base hash when
/// present; or native disabled with nothing besides `enabled` and `message`.
pub proof fn node_snapshot_passes_iff_one_shape(s: ExecApprovalsNodeSnapshotSchema)
    ensures
        s.check() is Ok <==> {
            &&& s.resolved_defaults matches Some(rd) ==> rd.check() is Ok
            &&& s.default_action matches Some(da) ==> native_exec_approval_action::is_member(da@)
            &&& s.rules matches Some(rs) ==> forall|k: int| 0 <= k < rs@.len() ==> (#[trigger] rs@[k]).check() is Ok
            &&& {
                ||| s.is_file_form() && !s.has_native_fields()
                ||| !s.is_file_form() && s.is_native_enabled_form() && s.hash.unwrap()@.len() > 0
                    && !s.has_file_fields() && (s.base_hash matches Some(b) ==> b@.len() > 0)
                ||| !s.is_file_form() && !s.is_native_enabled_form() && s.is_native_disabled_form()
                    && !s.has_other_fields()
            }
        },
{
    if let Some(rs) = s.rules {
        crate::checks::each_checked_first_failure("rules"@, rs@, 0);
        assert forall|k: int| 0 <= k < rs@.len() implies (#[trigger] rs@[k]).checks() == rs@[k].check() by {}
    }
}

/// An exec approval request checks the devices it names as approvers: one
/// that passes names no empty device id, and when the request without its
/// device list passes, a list whose first empty id is at `k` makes the request
/// fail with `approvalReviewerDeviceIds[k]: expected non-empty string, got ""`.
pub proof fn request_checks_approver_devices(p: ExecApprovalRequestParamsSchema, k: int)
    ensures
        p.check() is Ok ==> (p.approval_reviewer_device_ids matches Some(v) ==> forall|i: int|
            0 <= i < v@.len() ==> (#[trigger] v@[i])@.len() > 0),
        (ExecApprovalRequestParamsSchema { approval_reviewer_device_ids: None, ..p }).check() is Ok ==> (
            p.approval_reviewer_device_ids matches Some(v) && 0 <= k < v@.len() && v@[k]@.len() == 0
                && (forall|j: int| 0 <= j < k ==> (#[trigger] v@[j])@.len() > 0)
            ==> p.check() == Err::<(), Seq<char>>(
                crate::checks::non_empty_msg(index_label("approvalReviewerDeviceIds"@, k), Seq::empty()),
            )),
{
    if let Some(v) = p.approval_reviewer_device_ids {
        crate::checks::each_non_empty_all_pass("approvalReviewerDeviceIds"@, v@, 0);
        if 0 <= k < v@.len() && v@[k]@.len() == 0 && (forall|j: int| 0 <= j < k ==> (#[trigger] v@[j])@.len() > 0) {
            crate::checks::each_non_empty_first_empty("approvalReviewerDeviceIds"@, v@, 0, k);
        }
    }
}

/// A node write that passes validation targets exactly one owner: a file with
/// no native policy, or a native policy together with a base hash and no file.
pub proof fn node_set_targets_one_owner(p: ExecApprovalsNodeSetParamsSchema)
    requires
        p.check() is Ok,
    ensures
        (p.file is Some && p.native is None) || (p.file is None && p.native is Some && p.base_hash is Some),
{
}

/// A command span that passes validation against a command of `command_len`
/// UTF-16 code units lies within it: `0 <= start < end <= command_len`. The
/// offsets are compared as `usize`, so the law holds for offsets that fit in
/// one.
pub proof fn command_span_within_command(span: ExecCommandSpanSchema, command_len: int)
    requires
        span.check(command_len) is Ok,
        span.end_index <= usize::MAX,
        span.start_index <= usize::MAX,
    ensures
        0 <= span.start_index < span.end_index <= command_len,
{
}

/// The agents of an approvals file pass exactly when every agent's own checks
/// pass.
pub proof fn agents_pass_iff_each_agent_passes(f: ExecApprovalsFileSchema)
    ensures
        f.agents matches Some(a) ==> (first_failure(a@, agent_check()) is Ok <==> forall|key: String|
            #[trigger] a@.contains_key(key) ==> a@[key].check() is Ok),
{
    broadcast use vstd::std_specs::btree::axiom_btree_map_view_finite_dom;
    if let Some(a) = f.agents {
        first_failure_passes_iff_all_pass(a@, agent_check());
    }
}

/// The environment of an approval request passes exactly when no key is
/// empty.
pub proof fn env_passes_iff_keys_filled(p: ExecApprovalRequestParamsSchema)
    ensures
        p.env matches Some(e) ==> (first_failure(e@, env_check()) is Ok <==> forall|key: String|
            #[trigger] e@.contains_key(key) ==> key@.len() > 0),
{
    broadcast use vstd::std_specs::btree::axiom_btree_map_view_finite_dom;
    if let Some(e) = p.env {
        first_failure_passes_iff_all_pass(e@, env_check());
    }
}

// ---------------------------------------------------------------------------
// What each schema accepts
// ---------------------------------------------------------------------------

/// A `ExecApprovalsSnapshotSchema` passes validation exactly when every condition below holds;
/// a value that breaks one is rejected.
pub proof fn exec_approvals_snapshot_schema_accepts(x: ExecApprovalsSnapshotSchema)
    ensures
        x.check() is Ok <==> {
            &&& x.path@.len() > 0
            &&& x.hash@.len() > 0
            &&& x.file.check() is Ok
        },
{
}

/// A `ExecApprovalsSetParamsSchema` passes validation exactly when every condition below holds;
/// a value that breaks one is rejected.
pub proof fn exec_approvals_set_params_schema_accepts(x: ExecApprovalsSetParamsSchema)
    ensures
        x.check() is Ok <==> {
            &&& x.file.check() is Ok
            &&& (x.base_hash matches Some(s) ==> s@.len() > 0)
        },
{
}

/// A `ExecApprovalsNodeGetParamsSchema` passes validation exactly when every condition below holds;
/// a value that breaks one is rejected.
pub proof fn exec_approvals_node_get_params_schema_accepts(x: ExecApprovalsNodeGetParamsSchema)
    ensures
        x.check() is Ok <==> {
            &&& x.node_id@.len() > 0
        },
{
}

/// A `ExecApprovalGetParamsSchema` passes validation exactly when every condition below holds;
/// a value that breaks one is rejected.
pub proof fn exec_approval_get_params_schema_accepts(x: ExecApprovalGetParamsSchema)
    ensures
        x.check() is Ok <==> {
            &&& x.id@.len() > 0
        },
{
}

/// A `ExecApprovalResolveParamsSchema` passes validation exactly when every condition below holds;
/// a value that breaks one is rejected.
pub proof fn exec_approval_resolve_params_schema_accepts(x: ExecApprovalResolveParamsSchema)
    ensures
        x.check() is Ok <==> {
            &&& x.id@.len() > 0
            &&& x.decision@.len() > 0
        },
{
}

/// A `ExecApprovalsAllowlistEntrySchema` passes validation exactly when every condition below holds;
/// a value that breaks one is rejected.
pub proof fn exec_approvals_allowlist_entry_schema_accepts(x: ExecApprovalsAllowlistEntrySchema)
    ensures
        x.check() is Ok <==> {
            &&& (x.id matches Some(s) ==> s@.len() > 0)
            &&& (x.source matches Some(s) ==> s@ == "allow-always"@)
            &&& (x.last_used_at matches Some(v) ==> v.finite && v.at_least_zero())
        },
{
}

/// A `ExecApprovalsResolvedDefaultsSchema` passes validation exactly when every condition below holds;
/// a value that breaks one is rejected.
pub proof fn exec_approvals_resolved_defaults_schema_accepts(x: ExecApprovalsResolvedDefaultsSchema)
    ensures
        x.check() is Ok <==> {
            &&& exec_security::is_member(x.security@)
            &&& exec_ask::is_member(x.ask@)
            &&& exec_security::is_member(x.ask_fallback@)
        },
{
}

/// A `ExecApprovalsAgentSchema` passes validation exactly when every condition below holds;
/// a value that breaks one is rejected.
pub proof fn exec_approvals_agent_schema_accepts(x: ExecApprovalsAgentSchema)
    ensures
        x.check() is Ok <==> {
            &&& (x.allowlist matches Some(v) ==> (forall|k: int| 0 <= k < v@.len() ==> (#[trigger] v@[k]).checks() is Ok))
        },
{
    if let Some(v) = x.allowlist { crate::checks::each_checked_first_failure("allowlist"@, v@, 0); }
}

/// A `NativeExecApprovalRuleSchema` passes validation exactly when every condition below holds;
/// a value that breaks one is rejected.
pub proof fn native_exec_approval_rule_schema_accepts(x: NativeExecApprovalRuleSchema)
    ensures
        x.check() is Ok <==> {
            &&& x.pattern@.len() > 0
            &&& native_exec_approval_action::is_member(x.action@)
            &&& (x.shells matches Some(v) ==> forall|k: int| 0 <= k < v@.len() ==> (#[trigger] v@[k])@.len() > 0)
        },
{
    if let Some(v) = x.shells { crate::checks::each_non_empty_all_pass("shells"@, v@, 0); }
}

/// A `NativeExecApprovalPolicySchema` passes validation exactly when every condition below holds;
/// a value that breaks one is rejected.
pub proof fn native_exec_approval_policy_schema_accepts(x: NativeExecApprovalPolicySchema)
    ensures
        x.check() is Ok <==> {
            &&& (x.default_action matches Some(da) ==> native_exec_approval_action::is_member(da@))
            &&& (forall|k: int| 0 <= k < x.rules@.len() ==> (#[trigger] x.rules@[k]).checks() is Ok)
        },
{
    crate::checks::each_checked_first_failure("rules"@, x.rules@, 0);
}

/// A `ExecApprovalAllowlistRuleSchema` passes validation exactly when every condition below holds;
/// a value that breaks one is rejected.
pub proof fn exec_approval_allowlist_rule_schema_accepts(x: ExecApprovalAllowlistRuleSchema)
    ensures
        x.check() is Ok <==> {
            &&& (x.source matches Some(s) ==> s@ == "allow-always"@)
        },
{
}

/// A `ExecApprovalPolicySnapshotSchema` passes validation exactly when every condition below holds;
/// a value that breaks one is rejected.
pub proof fn exec_approval_policy_snapshot_schema_accepts(x: ExecApprovalPolicySnapshotSchema)
    ensures
        x.check() is Ok <==> {
            &&& exec_security::is_member(x.security@)
            &&& exec_ask::is_member(x.ask@)
            &&& exec_security::is_member(x.ask_fallback@)
            &&& (forall|k: int| 0 <= k < x.allowlist_rules@.len() ==> (#[trigger] x.allowlist_rules@[k]).checks() is Ok)
        },
{
    crate::checks::each_checked_first_failure("allowlistRules"@, x.allowlist_rules@, 0);
}

/// A `ExecMutableFileOperandSchema` passes validation exactly when every condition below holds;
/// a value that breaks one is rejected.
pub proof fn exec_mutable_file_operand_schema_accepts(x: ExecMutableFileOperandSchema)
    ensures
        x.check() is Ok <==> {
            &&& x.argv_index as int >= 0
            &&& x.path@.len() > 0
            &&& x.sha256@.len() > 0
        },
{
}

/// Every string of a list is non-empty exactly when the bare list check passes.
pub proof fn each_non_empty_bare_all_pass(field: Seq<char>, values: Seq<String>, i: int)
    requires
        0 <= i <= values.len(),
    ensures
        each_non_empty_bare(field, values, i) is Ok
            <==> forall|k: int| i <= k < values.len() ==> (#[trigger] values[k]@).len() > 0,
    decreases values.len() - i,
{
    if i < values.len() {
        each_non_empty_bare_all_pass(field, values, i + 1);
    }
}

/// Every span of a list lies within the command exactly when the span check
/// passes.
pub proof fn each_span_all_pass(spans: Seq<ExecCommandSpanSchema>, command_len: int, i: int)
    requires
        0 <= i <= spans.len(),
    ensures
        each_span(spans, command_len, i) is Ok
            <==> forall|k: int| i <= k < spans.len() ==> (#[trigger] spans[k]).check(command_len) is Ok,
    decreases spans.len() - i,
{
    if i < spans.len() {
        each_span_all_pass(spans, command_len, i + 1);
    }
}

/// Every decision of a list is `allow-always` exactly when the decision check
/// passes.
pub proof fn each_allow_always_all_pass(values: Seq<String>, i: int)
    requires
        0 <= i <= values.len(),
    ensures
        each_allow_always(values, i) is Ok
            <==> forall|k: int| i <= k < values.len() ==> (#[trigger] values[k]@) == "allow-always"@,
    decreases values.len() - i,
{
    if i < values.len() {
        each_allow_always_all_pass(values, i + 1);
    }
}

/// A system run plan passes validation exactly when it has non-empty argv
/// items and command text, and its policy snapshot and mutable file operand
/// pass their own validation.
pub proof fn exec_system_run_plan_schema_accepts(x: ExecSystemRunPlanSchema)
    ensures
        x.check() is Ok <==> {
            &&& forall|k: int| 0 <= k < x.argv@.len() ==> (#[trigger] x.argv@[k]@).len() > 0
            &&& x.command_text@.len() > 0
            &&& (x.policy_snapshot matches Some(p) ==> p.check() is Ok)
            &&& (x.mutable_file_operand matches Some(m) ==> m.check() is Ok)
        },
{
    each_non_empty_bare_all_pass("argv"@, x.argv@, 0);
}

/// An exec approval request passes validation exactly when every string it
/// sets is non-empty (id, command, each argument, each environment key, each
/// approving device id), its run plan passes, its unavailable decisions are the
/// single `allow-always`, every command span ends after its start and within
/// the command, a set timeout is `>= 1` and a numeric thread id is finite.
pub proof fn exec_approval_request_params_schema_accepts(x: ExecApprovalRequestParamsSchema)
    ensures
        x.check() is Ok <==> {
            &&& (x.id matches Some(s) ==> s@.len() > 0)
            &&& (x.command matches Some(s) ==> s@.len() > 0)
            &&& (x.command_argv matches Some(v) ==> forall|k: int|
                0 <= k < v@.len() ==> (#[trigger] v@[k]@).len() > 0)
            &&& (x.system_run_plan matches Some(p) ==> p.check() is Ok)
            &&& (x.env matches Some(e) ==> forall|key: String| #[trigger] e@.contains_key(key) ==> key@.len() > 0)
            &&& (x.unavailable_decisions matches Some(u) ==> u@.len() == 1 && u@[0]@ == "allow-always"@)
            &&& (x.command_spans matches Some(spans) ==> forall|k: int|
                0 <= k < spans@.len() ==> {
                    let sp = #[trigger] spans@[k];
                    &&& sp.start_index >= 0
                    &&& sp.end_index >= 1
                    &&& (sp.start_index as usize) < (sp.end_index as usize)
                    &&& (sp.end_index as usize) <= x.command_len()
                })
            &&& (x.approval_reviewer_device_ids matches Some(v) ==> forall|k: int|
                0 <= k < v@.len() ==> (#[trigger] v@[k]@).len() > 0)
            &&& (x.timeout_ms matches Some(t) ==> t >= 1)
            &&& (x.turn_source_thread_id matches Some(ExecTurnSourceThreadId::Number(n)) ==> n.finite)
        },
{
    broadcast use vstd::std_specs::btree::axiom_btree_map_view_finite_dom;
    if let Some(v) = x.command_argv {
        each_non_empty_bare_all_pass("commandArgv"@, v@, 0);
    }
    if let Some(e) = x.env {
        first_failure_passes_iff_all_pass(e@, env_check());
    }
    if let Some(u) = x.unavailable_decisions {
        each_allow_always_all_pass(u@, 0);
    }
    if let Some(spans) = x.command_spans {
        each_span_all_pass(spans@, x.command_len(), 0);
    }
    if let Some(v) = x.approval_reviewer_device_ids {
        crate::checks::each_non_empty_all_pass("approvalReviewerDeviceIds"@, v@, 0);
    }
}

} // verus!
