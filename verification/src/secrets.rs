//! Secret reload and secret resolution protocol schemas.
use vstd::prelude::*;
use crate::checks::{
    also, each_checked, index_label, index_label_text, outcome, reject, validate_opt_each, Checked,
    Outcome, opt_each_checked,
};
use crate::text::{debug_text, str_debug};

verus! {

/// A NonEmptyString (at least one character):
/// `field: expected non-empty string, got "value"`.
pub open spec fn non_empty_text(field: Seq<char>, value: Seq<char>) -> Outcome {
    reject(
        value.len() == 0,
        field + ": expected non-empty string, got "@ + str_debug(value),
    )
}

/// An optional `non_empty_text` string.
pub open spec fn opt_non_empty_text(field: Seq<char>, value: Option<String>) -> Outcome {
    match value {
        Some(s) => non_empty_text(field, s@),
        None => Ok(()),
    }
}

/// Every item of `values[i..]` `non_empty_text`, reported as `field[k]`.
pub open spec fn each_non_empty_text(field: Seq<char>, values: Seq<String>, i: int) -> Outcome
    decreases values.len() - i,
{
    if 0 <= i < values.len() {
        also(non_empty_text(index_label(field, i), values[i]@), each_non_empty_text(field, values, i + 1))
    } else {
        Ok(())
    }
}

/// An optional list of `non_empty_text` items.
pub open spec fn opt_each_non_empty_text(field: Seq<char>, values: Option<Vec<String>>) -> Outcome {
    match values {
        Some(v) => each_non_empty_text(field, v@, 0),
        None => Ok(()),
    }
}

fn is_non_empty_string(s: &str) -> (r: bool)
    ensures
        r == (s@.len() > 0),
{
    !s.is_empty()
}

fn validate_non_empty_string(field: &str, value: &str) -> (r: Result<(), String>)
    ensures
        outcome(r) == non_empty_text(field@, value@),
{
    if is_non_empty_string(value) {
        Ok(())
    } else {
        let shown = debug_text(value);
        let mut m = String::from_str(field);
        m.append(": expected non-empty string, got ");
        m.append(shown.as_str());
        Err(m)
    }
}

fn validate_optional_non_empty_string(field: &str, value: &Option<String>) -> (r: Result<(), String>)
    ensures
        outcome(r) == opt_non_empty_text(field@, *value),
{
    match value {
        Some(s) => validate_non_empty_string(field, s.as_str()),
        None => Ok(()),
    }
}

fn validate_non_empty_string_list(field: &str, values: &Vec<String>) -> (r: Result<(), String>)
    ensures
        outcome(r) == each_non_empty_text(field@, values@, 0),
{
    let n = values.len();
    let mut i: usize = 0;
    while i < n
        invariant
            n == values@.len(),
            i <= n,
            each_non_empty_text(field@, values@, 0) == each_non_empty_text(field@, values@, i as int),
        decreases n - i,
    {
        if !is_non_empty_string(values[i].as_str()) {
            let label = index_label_text(field, i);
            return validate_non_empty_string(label.as_str(), values[i].as_str());
        }
        i = i + 1;
    }
    Ok(())
}

fn validate_optional_non_empty_string_list(field: &str, value: &Option<Vec<String>>) -> (r: Result<(), String>)
    ensures
        outcome(r) == opt_each_non_empty_text(field@, *value),
{
    match value {
        Some(v) => validate_non_empty_string_list(field, v),
        None => Ok(()),
    }
}

/// Parameters of `secrets.reload` (empty object).
#[derive(Debug, Clone, Default)]
pub struct SecretsReloadParams {}

impl SecretsReloadParams {
    /// No required or constrained fields.
    pub fn validate(&self) -> (r: Result<(), String>)
        ensures
            r is Ok,
    {
        Ok(())
    }
}

/// Optional provider overrides attached to a secret-resolution request.
#[derive(Debug, Clone, Default)]
pub struct SecretsResolveProviderOverrides {
    pub web_search: Option<String>,
    pub web_fetch: Option<String>,
}

impl SecretsResolveProviderOverrides {
    /// An omitted override is allowed; a present one must not be empty.
    pub open spec fn check(&self) -> Outcome {
        also(
            opt_non_empty_text("providerOverrides.webSearch"@, self.web_search),
            opt_non_empty_text("providerOverrides.webFetch"@, self.web_fetch),
        )
    }

    pub fn validate(&self) -> (r: Result<(), String>)
        ensures
            outcome(r) == self.check(),
    {
        let r = validate_optional_non_empty_string("providerOverrides.webSearch", &self.web_search);
        if r.is_err() {
            return r;
        }
        validate_optional_non_empty_string("providerOverrides.webFetch", &self.web_fetch)
    }
}

/// Request payload for resolving the secrets needed by one command invocation.
#[derive(Debug, Clone)]
pub struct SecretsResolveParams {
    pub command_name: String,
    pub target_ids: Vec<String>,
    pub allowed_paths: Option<Vec<String>>,
    pub forced_active_paths: Option<Vec<String>>,
    pub optional_active_paths: Option<Vec<String>>,
    pub provider_overrides: Option<SecretsResolveProviderOverrides>,
}

impl SecretsResolveParams {
    /// Command name, target ids and path lists non-empty, then the provider
    /// overrides (messages unprefixed).
    pub open spec fn check(&self) -> Outcome {
        also(non_empty_text("commandName"@, self.command_name@),
        also(each_non_empty_text("targetIds"@, self.target_ids@, 0),
        also(opt_each_non_empty_text("allowedPaths"@, self.allowed_paths),
        also(opt_each_non_empty_text("forcedActivePaths"@, self.forced_active_paths),
        also(opt_each_non_empty_text("optionalActivePaths"@, self.optional_active_paths),
        match self.provider_overrides {
            Some(po) => po.check(),
            None => Ok(()),
        })))))
    }

    pub fn validate(&self) -> (r: Result<(), String>)
        ensures
            outcome(r) == self.check(),
    {
        let r = validate_non_empty_string("commandName", self.command_name.as_str());
        if r.is_err() {
            return r;
        }
        let r = validate_non_empty_string_list("targetIds", &self.target_ids);
        if r.is_err() {
            return r;
        }
        let r = validate_optional_non_empty_string_list("allowedPaths", &self.allowed_paths);
        if r.is_err() {
            return r;
        }
        let r = validate_optional_non_empty_string_list("forcedActivePaths", &self.forced_active_paths);
        if r.is_err() {
            return r;
        }
        let r = validate_optional_non_empty_string_list("optionalActivePaths", &self.optional_active_paths);
        if r.is_err() {
            return r;
        }
        if let Some(po) = &self.provider_overrides {
            return po.validate();
        }
        Ok(())
    }
}

/// One resolved secret: where it goes and the JSON value resolved for it.
#[derive(Debug)]
pub struct SecretsResolveAssignment {
    pub path: Option<String>,
    pub path_segments: Vec<String>,
    pub value: serde_json::Value,
}

impl SecretsResolveAssignment {
    /// `path` non-empty when present, every path segment non-empty.
    pub open spec fn check(&self) -> Outcome {
        also(opt_non_empty_text("path"@, self.path), each_non_empty_text("pathSegments"@, self.path_segments@, 0))
    }

    pub fn validate(&self) -> (r: Result<(), String>)
        ensures
            outcome(r) == self.check(),
    {
        let r = validate_optional_non_empty_string("path", &self.path);
        if r.is_err() {
            return r;
        }
        validate_non_empty_string_list("pathSegments", &self.path_segments)
    }
}

impl Checked for SecretsResolveAssignment {
    open spec fn checks(&self) -> Outcome {
        self.check()
    }

    fn run_checks(&self) -> (r: Result<(), String>) {
        self.validate()
    }
}

/// Result of `secrets.resolve`.
#[derive(Debug, Default)]
pub struct SecretsResolveResult {
    pub ok: Option<bool>,
    pub assignments: Option<Vec<SecretsResolveAssignment>>,
    pub diagnostics: Option<Vec<String>>,
    pub inactive_ref_paths: Option<Vec<String>>,
}

impl SecretsResolveResult {
    /// Every assignment valid (`assignments[i]: ...`), diagnostics and
    /// inactive ref paths non-empty.
    pub open spec fn check(&self) -> Outcome {
        also(opt_each_checked("assignments"@, self.assignments),
        also(opt_each_non_empty_text("diagnostics"@, self.diagnostics),
        opt_each_non_empty_text("inactiveRefPaths"@, self.inactive_ref_paths)))
    }

    pub fn validate(&self) -> (r: Result<(), String>)
        ensures
            outcome(r) == self.check(),
    {
        let r = validate_opt_each("assignments", &self.assignments);
        if r.is_err() {
            return r;
        }
        let r = validate_optional_non_empty_string_list("diagnostics", &self.diagnostics);
        if r.is_err() {
            return r;
        }
        validate_optional_non_empty_string_list("inactiveRefPaths", &self.inactive_ref_paths)
    }
}

pub type SecretsReloadParamsType = SecretsReloadParams;
pub type SecretsResolveParamsType = SecretsResolveParams;
pub type SecretsResolveAssignmentType = SecretsResolveAssignment;
pub type SecretsResolveResultType = SecretsResolveResult;

// ---------------------------------------------------------------------------
// What each schema accepts
// ---------------------------------------------------------------------------

/// A `SecretsResolveProviderOverrides` passes validation exactly when every condition below holds;
/// a value that breaks one is rejected.
pub proof fn secrets_resolve_provider_overrides_accepts(x: SecretsResolveProviderOverrides)
    ensures
        x.check() is Ok <==> {
            &&& (x.web_search matches Some(s) ==> s@.len() > 0)
            &&& (x.web_fetch matches Some(s) ==> s@.len() > 0)
        },
{
}

/// Every string of a list is non-empty exactly when the list check passes.
pub proof fn each_non_empty_text_all_pass(field: Seq<char>, values: Seq<String>, i: int)
    requires
        0 <= i <= values.len(),
    ensures
        each_non_empty_text(field, values, i) is Ok
            <==> forall|k: int| i <= k < values.len() ==> (#[trigger] values[k]@).len() > 0,
    decreases values.len() - i,
{
    if i < values.len() {
        each_non_empty_text_all_pass(field, values, i + 1);
    }
}

/// A secrets.resolve request passes validation exactly when its command name,
/// every target id and every item of each path list it sets are non-empty,
/// and its provider overrides pass their own validation.
pub proof fn secrets_resolve_params_accepts(x: SecretsResolveParams)
    ensures
        x.check() is Ok <==> {
            &&& x.command_name@.len() > 0
            &&& forall|k: int| 0 <= k < x.target_ids@.len() ==> (#[trigger] x.target_ids@[k]@).len() > 0
            &&& (x.allowed_paths matches Some(v) ==> forall|k: int|
                0 <= k < v@.len() ==> (#[trigger] v@[k]@).len() > 0)
            &&& (x.forced_active_paths matches Some(v) ==> forall|k: int|
                0 <= k < v@.len() ==> (#[trigger] v@[k]@).len() > 0)
            &&& (x.optional_active_paths matches Some(v) ==> forall|k: int|
                0 <= k < v@.len() ==> (#[trigger] v@[k]@).len() > 0)
            &&& (x.provider_overrides matches Some(po) ==> po.check() is Ok)
        },
{
    each_non_empty_text_all_pass("targetIds"@, x.target_ids@, 0);
    if let Some(v) = x.allowed_paths {
        each_non_empty_text_all_pass("allowedPaths"@, v@, 0);
    }
    if let Some(v) = x.forced_active_paths {
        each_non_empty_text_all_pass("forcedActivePaths"@, v@, 0);
    }
    if let Some(v) = x.optional_active_paths {
        each_non_empty_text_all_pass("optionalActivePaths"@, v@, 0);
    }
}

/// An assignment passes validation exactly when a path it sets and every
/// path segment are non-empty.
pub proof fn secrets_resolve_assignment_accepts(x: SecretsResolveAssignment)
    ensures
        x.check() is Ok <==> {
            &&& (x.path matches Some(s) ==> s@.len() > 0)
            &&& forall|k: int| 0 <= k < x.path_segments@.len() ==> (#[trigger] x.path_segments@[k]@).len() > 0
        },
{
    each_non_empty_text_all_pass("pathSegments"@, x.path_segments@, 0);
}

/// A secrets.resolve result passes validation exactly when every assignment
/// passes its own validation and every diagnostic and inactive ref path is
/// non-empty.
pub proof fn secrets_resolve_result_accepts(x: SecretsResolveResult)
    ensures
        x.check() is Ok <==> {
            &&& (x.assignments matches Some(v) ==> forall|k: int|
                0 <= k < v@.len() ==> (#[trigger] v@[k]).check() is Ok)
            &&& (x.diagnostics matches Some(v) ==> forall|k: int|
                0 <= k < v@.len() ==> (#[trigger] v@[k]@).len() > 0)
            &&& (x.inactive_ref_paths matches Some(v) ==> forall|k: int|
                0 <= k < v@.len() ==> (#[trigger] v@[k]@).len() > 0)
        },
{
    if let Some(v) = x.assignments {
        crate::checks::each_checked_first_failure("assignments"@, v@, 0);
        assert forall|k: int| 0 <= k < v@.len() implies (#[trigger] v@[k]).check() == v@[k].checks() by {}
    }
    if let Some(v) = x.diagnostics {
        each_non_empty_text_all_pass("diagnostics"@, v@, 0);
    }
    if let Some(v) = x.inactive_ref_paths {
        each_non_empty_text_all_pass("inactiveRefPaths"@, v@, 0);
    }
}

} // verus!
