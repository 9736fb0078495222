//! Plugin approval schemas.
//!
//! These payloads cross from plugin and tool execution into approver-facing
//! UI, so title, description, decision set and timeout limits are part of the
//! public gateway contract.
use vstd::prelude::*;
use crate::checks::{
    also, count_in, index_label, int_in, non_empty, one_of_msg, one_of_msg_text, opt_each_non_empty,
    opt_non_empty, outcome, prefixed, reject, require_count_in, require_non_empty,
    require_opt_each_non_empty, require_opt_non_empty, require_int_in, within, Outcome,
};
use crate::json::NumberValue;
use crate::primitives::NonEmptyString;
use crate::text::str_eq;

pub mod plugin_approval_decisions;
pub mod plugin_approval_severities;

verus! {

/// Maximum approval timeout (10 minutes).
pub const MAX_PLUGIN_APPROVAL_TIMEOUT_MS: i64 = 600_000;
pub const PLUGIN_APPROVAL_TIMEOUT_MIN_MS: i64 = 1;

/// Title length bounds, in characters.
pub const PLUGIN_APPROVAL_TITLE_MAX_LENGTH: usize = 80;
pub const PLUGIN_APPROVAL_TITLE_MIN_LENGTH: usize = 1;

/// Description length bounds, in characters.
pub const PLUGIN_APPROVAL_DESCRIPTION_MAX_LENGTH: usize = 512;
pub const PLUGIN_APPROVAL_DESCRIPTION_MIN_LENGTH: usize = 1;

/// Bounds on the number of allowed decisions.
pub const PLUGIN_APPROVAL_ALLOWED_DECISIONS_MIN_ITEMS: usize = 1;
pub const PLUGIN_APPROVAL_ALLOWED_DECISIONS_MAX_ITEMS: usize = 3;

/// Returns true when `s` names a severity.
pub fn is_valid_plugin_approval_severity(s: &str) -> (r: bool)
    ensures
        r == plugin_approval_severities::is_member(s@),
{
    plugin_approval_severities::from_str(s).is_some()
}

/// Returns true when `s` names an approver decision.
pub fn is_valid_plugin_approval_decision(s: &str) -> (r: bool)
    ensures
        r == plugin_approval_decisions::is_member(s@),
{
    plugin_approval_decisions::from_str(s).is_some()
}

/// Severity levels reported alongside plugin approval requests.
#[derive(Debug, Clone, Copy, PartialEq, Eq, Hash, Structural)]
pub enum PluginApprovalSeverity {
    Info,
    Warning,
    Critical,
}

impl PluginApprovalSeverity {
    /// The wire text of each variant.
    pub open spec fn spec_as_str(&self) -> Seq<char> {
        match self {
            PluginApprovalSeverity::Info => "info"@,
            PluginApprovalSeverity::Warning => "warning"@,
            PluginApprovalSeverity::Critical => "critical"@,
        }
    }

    /// The wire text of this value.
    pub fn as_str(&self) -> (r: &'static str)
        ensures
            r@ == self.spec_as_str(),
    {
        match self {
            PluginApprovalSeverity::Info => "info",
            PluginApprovalSeverity::Warning => "warning",
            PluginApprovalSeverity::Critical => "critical",
        }
    }

    /// The value whose wire text is `s`, if any.
    pub open spec fn spec_from_str(s: Seq<char>) -> Option<PluginApprovalSeverity> {
        if s == "info"@ {
            Some(PluginApprovalSeverity::Info)
        } else if s == "warning"@ {
            Some(PluginApprovalSeverity::Warning)
        } else if s == "critical"@ {
            Some(PluginApprovalSeverity::Critical)
        } else {
            None
        }
    }
}

/// The wire texts of `PluginApprovalSeverity` are distinct: parsing the text of a value
/// gives that value back, and a text that parses is the text of what it
/// parses to.
pub proof fn plugin_approval_severity_text_round_trip(v: PluginApprovalSeverity, s: Seq<char>)
    ensures
        PluginApprovalSeverity::spec_from_str(v.spec_as_str()) == Some(v),
        PluginApprovalSeverity::spec_from_str(s) matches Some(w) ==> w.spec_as_str() == s,
{
    reveal_strlit("info");
    reveal_strlit("warning");
    reveal_strlit("critical");
    assert("info"@.len() == 4);
    assert("warning"@.len() == 7);
    assert("critical"@.len() == 8);
}

/// Approver decisions accepted for plugin approvals.
#[derive(Debug, Clone, Copy, PartialEq, Eq, Hash, Structural)]
pub enum PluginApprovalDecision {
    AllowOnce,
    AllowAlways,
    Deny,
}

impl PluginApprovalDecision {
    /// The wire text of each variant.
    pub open spec fn spec_as_str(&self) -> Seq<char> {
        match self {
            PluginApprovalDecision::AllowOnce => "allow-once"@,
            PluginApprovalDecision::AllowAlways => "allow-always"@,
            PluginApprovalDecision::Deny => "deny"@,
        }
    }

    /// The wire text of this value.
    pub fn as_str(&self) -> (r: &'static str)
        ensures
            r@ == self.spec_as_str(),
    {
        match self {
            PluginApprovalDecision::AllowOnce => "allow-once",
            PluginApprovalDecision::AllowAlways => "allow-always",
            PluginApprovalDecision::Deny => "deny",
        }
    }

    /// The value whose wire text is `s`, if any.
    pub open spec fn spec_from_str(s: Seq<char>) -> Option<PluginApprovalDecision> {
        if s == "allow-once"@ {
            Some(PluginApprovalDecision::AllowOnce)
        } else if s == "allow-always"@ {
            Some(PluginApprovalDecision::AllowAlways)
        } else if s == "deny"@ {
            Some(PluginApprovalDecision::Deny)
        } else {
            None
        }
    }
}

/// The wire texts of `PluginApprovalDecision` are distinct: parsing the text of a value
/// gives that value back, and a text that parses is the text of what it
/// parses to.
pub proof fn plugin_approval_decision_text_round_trip(v: PluginApprovalDecision, s: Seq<char>)
    ensures
        PluginApprovalDecision::spec_from_str(v.spec_as_str()) == Some(v),
        PluginApprovalDecision::spec_from_str(s) matches Some(w) ==> w.spec_as_str() == s,
{
    reveal_strlit("allow-once");
    reveal_strlit("allow-always");
    reveal_strlit("deny");
    assert("allow-once"@.len() == 10);
    assert("allow-always"@.len() == 12);
    assert("deny"@.len() == 4);
}

// ---------------------------------------------------------------------------
// Field checks
// ---------------------------------------------------------------------------

/// A title of 1..=80 characters.
pub open spec fn approval_title(field: Seq<char>, value: Seq<char>) -> Outcome {
    count_in(
        field,
        ": expected length ["@,
        value.len() as int,
        PLUGIN_APPROVAL_TITLE_MIN_LENGTH as int,
        PLUGIN_APPROVAL_TITLE_MAX_LENGTH as int,
        "], got "@,
    )
}

fn validate_plugin_approval_title(field: &str, value: &str) -> (r: Result<(), String>)
    ensures
        outcome(r) == approval_title(field@, value@),
{
    require_count_in(
        field,
        ": expected length [",
        value.unicode_len(),
        PLUGIN_APPROVAL_TITLE_MIN_LENGTH,
        PLUGIN_APPROVAL_TITLE_MAX_LENGTH,
        "], got ",
    )
}

/// A description of 1..=512 characters.
pub open spec fn approval_description(field: Seq<char>, value: Seq<char>) -> Outcome {
    count_in(
        field,
        ": expected length ["@,
        value.len() as int,
        PLUGIN_APPROVAL_DESCRIPTION_MIN_LENGTH as int,
        PLUGIN_APPROVAL_DESCRIPTION_MAX_LENGTH as int,
        "], got "@,
    )
}

fn validate_plugin_approval_description(field: &str, value: &str) -> (r: Result<(), String>)
    ensures
        outcome(r) == approval_description(field@, value@),
{
    require_count_in(
        field,
        ": expected length [",
        value.unicode_len(),
        PLUGIN_APPROVAL_DESCRIPTION_MIN_LENGTH,
        PLUGIN_APPROVAL_DESCRIPTION_MAX_LENGTH,
        "], got ",
    )
}

/// A timeout in `[1, 600000]` milliseconds.
pub open spec fn approval_timeout(field: Seq<char>, n: int) -> Outcome {
    int_in(
        field,
        ": expected integer in ["@,
        n,
        PLUGIN_APPROVAL_TIMEOUT_MIN_MS as int,
        MAX_PLUGIN_APPROVAL_TIMEOUT_MS as int,
        "], got "@,
    )
}

fn validate_plugin_approval_timeout(field: &str, n: i64) -> (r: Result<(), String>)
    ensures
        outcome(r) == approval_timeout(field@, n as int),
{
    require_int_in(
        field,
        ": expected integer in [",
        n,
        PLUGIN_APPROVAL_TIMEOUT_MIN_MS,
        MAX_PLUGIN_APPROVAL_TIMEOUT_MS,
        "], got ",
    )
}

/// Every item of `values[i..]` names a decision.
pub open spec fn each_decision(values: Seq<String>, i: int) -> Outcome
    decreases values.len() - i,
{
    if 0 <= i < values.len() {
        also(
            reject(
                !plugin_approval_decisions::is_member(values[i]@),
                one_of_msg(index_label("allowedDecisions"@, i), plugin_approval_decisions::spec_all(), values[i]@),
            ),
            each_decision(values, i + 1),
        )
    } else {
        Ok(())
    }
}

/// One to three allowed decisions, each a known decision.
pub open spec fn allowed_decisions(values: Seq<String>) -> Outcome {
    also(
        count_in(
            "allowedDecisions"@,
            ": expected length ["@,
            values.len() as int,
            PLUGIN_APPROVAL_ALLOWED_DECISIONS_MIN_ITEMS as int,
            PLUGIN_APPROVAL_ALLOWED_DECISIONS_MAX_ITEMS as int,
            "], got "@,
        ),
        each_decision(values, 0),
    )
}

fn validate_plugin_approval_allowed_decisions(values: &Vec<String>) -> (r: Result<(), String>)
    ensures
        outcome(r) == allowed_decisions(values@),
{
    let r = require_count_in(
        "allowedDecisions",
        ": expected length [",
        values.len(),
        PLUGIN_APPROVAL_ALLOWED_DECISIONS_MIN_ITEMS,
        PLUGIN_APPROVAL_ALLOWED_DECISIONS_MAX_ITEMS,
        "], got ",
    );
    if r.is_err() {
        return r;
    }
    let n = values.len();
    let mut i: usize = 0;
    while i < n
        invariant
            n == values@.len(),
            i <= n,
            allowed_decisions(values@) == each_decision(values@, 0),
            each_decision(values@, 0) == each_decision(values@, i as int),
        decreases n - i,
    {
        if !is_valid_plugin_approval_decision(values[i].as_str()) {
            let label = crate::checks::index_label_text("allowedDecisions", i);
            let allowed = plugin_approval_decisions::all();
            let m = one_of_msg_text(label.as_str(), allowed, values[i].as_str());
            return Err(m);
        }
        i = i + 1;
    }
    Ok(())
}

// ---------------------------------------------------------------------------
// Originating thread id
// ---------------------------------------------------------------------------

/// Either a string id or a numeric id used for the originating thread.
#[derive(Debug, Clone)]
pub enum TurnSourceThreadIdSchema {
    String(String),
    Number(NumberValue),
}

impl TurnSourceThreadIdSchema {
    /// Any string is accepted; a number must be finite.
    pub open spec fn check(&self) -> Outcome {
        match self {
            TurnSourceThreadIdSchema::String(_) => Ok(()),
            TurnSourceThreadIdSchema::Number(n) => reject(
                !n.finite,
                "turnSourceThreadId: expected finite number, got "@ + n.text@,
            ),
        }
    }

    pub fn validate(&self) -> (r: Result<(), String>)
        ensures
            outcome(r) == self.check(),
    {
        match self {
            TurnSourceThreadIdSchema::String(_) => Ok(()),
            TurnSourceThreadIdSchema::Number(n) => {
                if n.finite {
                    Ok(())
                } else {
                    let mut m = String::from_str("turnSourceThreadId: expected finite number, got ");
                    m.append(n.text.as_str());
                    Err(m)
                }
            },
        }
    }
}

// ---------------------------------------------------------------------------
// Requests and resolutions
// ---------------------------------------------------------------------------

/// Approval request raised by a plugin before a sensitive tool action proceeds.
#[derive(Debug, Clone, Default)]
pub struct PluginApprovalRequestParams {
    pub plugin_id: Option<NonEmptyString>,
    pub title: String,
    pub description: String,
    pub severity: Option<PluginApprovalSeverity>,
    pub tool_name: Option<String>,
    pub tool_call_id: Option<String>,
    pub allowed_decisions: Option<Vec<String>>,
    pub agent_id: Option<String>,
    pub session_key: Option<String>,
    /// Operator devices that may decide this request; the gateway binds it
    /// only for internal approval-runtime requests.
    pub approval_reviewer_device_ids: Option<Vec<NonEmptyString>>,
    pub turn_source_channel: Option<String>,
    pub turn_source_to: Option<String>,
    pub turn_source_account_id: Option<String>,
    pub turn_source_thread_id: Option<TurnSourceThreadIdSchema>,
    pub timeout_ms: Option<i64>,
    pub two_phase: Option<bool>,
}

impl PluginApprovalRequestParams {
    /// Plugin id, title, description, allowed decisions, approving devices,
    /// timeout, then the thread id (its message prefixed once more with
    /// `turnSourceThreadId: `).
    pub open spec fn check(&self) -> Outcome {
        also(opt_non_empty("pluginId"@, self.plugin_id),
        also(approval_title("title"@, self.title@),
        also(approval_description("description"@, self.description@),
        also(match self.allowed_decisions {
            Some(v) => allowed_decisions(v@),
            None => Ok(()),
        },
        also(opt_each_non_empty("approvalReviewerDeviceIds"@, self.approval_reviewer_device_ids),
        also(match self.timeout_ms {
            Some(n) => approval_timeout("timeoutMs"@, n as int),
            None => Ok(()),
        },
        match self.turn_source_thread_id {
            Some(t) => within("turnSourceThreadId: "@, t.check()),
            None => Ok(()),
        }))))))
    }

    pub fn validate(&self) -> (r: Result<(), String>)
        ensures
            outcome(r) == self.check(),
    {
        let r = require_opt_non_empty("pluginId", &self.plugin_id);
        if r.is_err() {
            return r;
        }
        let r = validate_plugin_approval_title("title", self.title.as_str());
        if r.is_err() {
            return r;
        }
        let r = validate_plugin_approval_description("description", self.description.as_str());
        if r.is_err() {
            return r;
        }
        if let Some(allowed) = &self.allowed_decisions {
            let r = validate_plugin_approval_allowed_decisions(allowed);
            if r.is_err() {
                return r;
            }
        }
        let r = require_opt_each_non_empty("approvalReviewerDeviceIds", &self.approval_reviewer_device_ids);
        if r.is_err() {
            return r;
        }
        if let Some(n) = self.timeout_ms {
            let r = validate_plugin_approval_timeout("timeoutMs", n);
            if r.is_err() {
                return r;
            }
        }
        if let Some(thread_id) = &self.turn_source_thread_id {
            return prefixed("turnSourceThreadId: ", thread_id.validate());
        }
        Ok(())
    }
}

/// Approver decision payload resolving one pending plugin approval request.
#[derive(Debug, Clone, Default)]
pub struct PluginApprovalResolveParams {
    pub id: NonEmptyString,
    pub decision: NonEmptyString,
}

impl PluginApprovalResolveParams {
    /// `id`, then `decision`, non-empty.
    pub open spec fn check(&self) -> Outcome {
        also(non_empty("id"@, self.id@), non_empty("decision"@, self.decision@))
    }

    pub fn validate(&self) -> (r: Result<(), String>)
        ensures
            outcome(r) == self.check(),
    {
        let r = require_non_empty("id", self.id.as_str());
        if r.is_err() {
            return r;
        }
        require_non_empty("decision", self.decision.as_str())
    }
}

/// The request payload under its wire-type name.
pub type PluginApprovalRequestParamsType = PluginApprovalRequestParams;
/// The resolution payload under its wire-type name.
pub type PluginApprovalResolveParamsType = PluginApprovalResolveParams;

/// The public limits of a plugin approval request: one that passes validation
/// has a title of 1..=80 and a description of 1..=512 characters, one to three
/// allowed decisions, each a known decision, and a timeout of 1..=600000
/// milliseconds.
pub proof fn approval_request_within_limits(p: PluginApprovalRequestParams)
    requires
        p.check() is Ok,
    ensures
        1 <= p.title@.len() <= PLUGIN_APPROVAL_TITLE_MAX_LENGTH,
        1 <= p.description@.len() <= PLUGIN_APPROVAL_DESCRIPTION_MAX_LENGTH,
        p.allowed_decisions matches Some(d) ==> 1 <= d@.len() <= 3
            && forall|i: int| 0 <= i < d@.len() ==> plugin_approval_decisions::is_member(#[trigger] d@[i]@),
        p.timeout_ms matches Some(t) ==> 1 <= t <= MAX_PLUGIN_APPROVAL_TIMEOUT_MS,
{
    if let Some(d) = p.allowed_decisions {
        assert forall|i: int| 0 <= i < d@.len() implies plugin_approval_decisions::is_member(#[trigger] d@[i]@) by {
            each_decision_passes(d@, 0, i);
        }
    }
}

proof fn each_decision_passes(values: Seq<String>, start: int, i: int)
    requires
        0 <= start <= i < values.len(),
        each_decision(values, start) is Ok,
    ensures
        plugin_approval_decisions::is_member(values[i]@),
    decreases i - start,
{
    if start < i {
        each_decision_passes(values, start + 1, i);
    }
}

// ---------------------------------------------------------------------------
// What each schema accepts
// ---------------------------------------------------------------------------

/// A `PluginApprovalResolveParams` passes validation exactly when every condition below holds;
/// a value that breaks one is rejected.
pub proof fn plugin_approval_resolve_params_accepts(x: PluginApprovalResolveParams)
    ensures
        x.check() is Ok <==> {
            &&& x.id@.len() > 0
            &&& x.decision@.len() > 0
        },
{
}

/// Every decision of a list is a known decision exactly when the decision
/// check passes.
pub proof fn each_decision_all_pass(values: Seq<String>, i: int)
    requires
        0 <= i <= values.len(),
    ensures
        each_decision(values, i) is Ok
            <==> forall|k: int| i <= k < values.len() ==> plugin_approval_decisions::is_member(#[trigger] values[k]@),
    decreases values.len() - i,
{
    if i < values.len() {
        each_decision_all_pass(values, i + 1);
    }
}

/// A plugin approval request passes validation exactly when a set plugin id is
/// non-empty, the title has 1..=80 and the description 1..=512 characters,
/// a set list of allowed decisions holds one to three known decisions, every
/// approving device id is non-empty, a set timeout lies in `1..=600000` and a
/// numeric thread id is finite.
pub proof fn plugin_approval_request_params_accepts(x: PluginApprovalRequestParams)
    ensures
        x.check() is Ok <==> {
            &&& (x.plugin_id matches Some(s) ==> s@.len() > 0)
            &&& 1 <= x.title@.len() <= 80
            &&& 1 <= x.description@.len() <= 512
            &&& (x.allowed_decisions matches Some(d) ==> 1 <= d@.len() <= 3 && forall|k: int|
                0 <= k < d@.len() ==> (#[trigger] d@[k]@ == "allow-once"@ || d@[k]@ == "allow-always"@
                    || d@[k]@ == "deny"@))
            &&& (x.approval_reviewer_device_ids matches Some(v) ==> forall|k: int|
                0 <= k < v@.len() ==> (#[trigger] v@[k]@).len() > 0)
            &&& (x.timeout_ms matches Some(t) ==> 1 <= t <= 600_000)
            &&& (x.turn_source_thread_id matches Some(TurnSourceThreadIdSchema::Number(n)) ==> n.finite)
        },
{
    if let Some(d) = x.allowed_decisions {
        each_decision_all_pass(d@, 0);
    }
    if let Some(v) = x.approval_reviewer_device_ids {
        crate::checks::each_non_empty_all_pass("approvalReviewerDeviceIds"@, v@, 0);
    }
}

} // verus!
