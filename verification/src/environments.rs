//! Execution environment protocol schemas: environment summaries, worker
//! environment metadata, and the list/status/create/destroy requests.
use vstd::prelude::*;
use crate::checks::{
    also, each_checked, each_non_empty, non_empty, opt_each_non_empty, opt_non_empty, outcome,
    reject, require_each_non_empty, require_non_empty, require_opt_each_non_empty,
    require_opt_non_empty, validate_each, Checked, Outcome,
};
use crate::text::{decimal, i64_text};

verus! {

/// Lifecycle status of an environment (`available`, `unavailable`,
/// `starting`, `stopping`, `error`).
#[derive(Debug, Clone, Copy, PartialEq, Eq, Structural)]
pub enum EnvironmentStatus {
    Available,
    Unavailable,
    Starting,
    Stopping,
    Error,
}

impl EnvironmentStatus {
    /// A closed enum: every value is valid.
    pub fn validate(&self) -> (r: Result<(), String>)
        ensures
            r is Ok,
    {
        Ok(())
    }
}

/// Lifecycle state of a worker environment.
#[derive(Debug, Clone, Copy, PartialEq, Eq, Structural)]
pub enum WorkerEnvironmentState {
    Requested,
    Provisioning,
    Bootstrapping,
    Ready,
    Attached,
    Idle,
    Draining,
    Destroying,
    Destroyed,
    Failed,
    Orphaned,
}

impl WorkerEnvironmentState {
    /// A closed enum: every value is valid.
    pub fn validate(&self) -> (r: Result<(), String>)
        ensures
            r is Ok,
    {
        Ok(())
    }
}

/// Status of a worker's tunnel to the gateway.
#[derive(Debug, Clone, Copy, PartialEq, Eq, Structural)]
pub enum WorkerTunnelStatus {
    Stopped,
    Connecting,
    Connected,
    Reconnecting,
}

impl WorkerTunnelStatus {
    /// A closed enum: every value is valid.
    pub fn validate(&self) -> (r: Result<(), String>)
        ensures
            r is Ok,
    {
        Ok(())
    }
}

/// Worker-specific metadata of an environment.
#[derive(Debug, Clone)]
pub struct WorkerEnvironmentMetadata {
    pub provider_id: String,
    pub lease_id: Option<String>,
    pub state: WorkerEnvironmentState,
    pub age_ms: i64,
    pub idle_ms: Option<i64>,
    pub attached_session_ids: Vec<String>,
    pub tunnel_status: WorkerTunnelStatus,
}

impl WorkerEnvironmentMetadata {
    /// `providerId` non-empty, `leaseId` non-empty when present, `ageMs` and
    /// `idleMs` non-negative, every attached session id non-empty.
    pub open spec fn check(&self) -> Outcome {
        also(non_empty("providerId"@, self.provider_id@),
        also(opt_non_empty("leaseId"@, self.lease_id),
        also(reject(self.age_ms < 0, "ageMs: expected non-negative integer, got "@ + decimal(self.age_ms as int)),
        also(match self.idle_ms {
            Some(idle) => reject(idle < 0, "idleMs: expected non-negative integer, got "@ + decimal(idle as int)),
            None => Ok(()),
        },
        each_non_empty("attachedSessionIds"@, self.attached_session_ids@, 0)))))
    }

    pub fn validate(&self) -> (r: Result<(), String>)
        ensures
            outcome(r) == self.check(),
    {
        let r = require_non_empty("providerId", self.provider_id.as_str());
        if r.is_err() {
            return r;
        }
        let r = require_opt_non_empty("leaseId", &self.lease_id);
        if r.is_err() {
            return r;
        }
        let r = self.state.validate();
        if r.is_err() {
            return r;
        }
        if self.age_ms < 0 {
            let digits = i64_text(self.age_ms);
            let mut m = String::from_str("ageMs: expected non-negative integer, got ");
            m.append(digits.as_str());
            return Err(m);
        }
        if let Some(idle_ms) = self.idle_ms {
            if idle_ms < 0 {
                let digits = i64_text(idle_ms);
                let mut m = String::from_str("idleMs: expected non-negative integer, got ");
                m.append(digits.as_str());
                return Err(m);
            }
        }
        let r = require_each_non_empty("attachedSessionIds", &self.attached_session_ids);
        if r.is_err() {
            return r;
        }
        self.tunnel_status.validate()
    }
}

/// Summary of one execution environment.
#[derive(Debug, Clone)]
pub struct EnvironmentSummary {
    pub id: String,
    pub environment_type: String,
    pub label: Option<String>,
    pub status: EnvironmentStatus,
    pub capabilities: Option<Vec<String>>,
    pub worker: Option<WorkerEnvironmentMetadata>,
}

impl EnvironmentSummary {
    /// `id` and `type` non-empty, `label` and capabilities non-empty when
    /// present, then the worker metadata (its messages unprefixed).
    pub open spec fn check(&self) -> Outcome {
        also(non_empty("id"@, self.id@),
        also(non_empty("type"@, self.environment_type@),
        also(opt_non_empty("label"@, self.label),
        also(opt_each_non_empty("capabilities"@, self.capabilities),
        match self.worker {
            Some(w) => w.check(),
            None => Ok(()),
        }))))
    }

    pub fn validate(&self) -> (r: Result<(), String>)
        ensures
            outcome(r) == self.check(),
    {
        let r = require_non_empty("id", self.id.as_str());
        if r.is_err() {
            return r;
        }
        let r = require_non_empty("type", self.environment_type.as_str());
        if r.is_err() {
            return r;
        }
        let r = require_opt_non_empty("label", &self.label);
        if r.is_err() {
            return r;
        }
        let r = self.status.validate();
        if r.is_err() {
            return r;
        }
        let r = require_opt_each_non_empty("capabilities", &self.capabilities);
        if r.is_err() {
            return r;
        }
        if let Some(worker) = &self.worker {
            return worker.validate();
        }
        Ok(())
    }
}

impl Checked for EnvironmentSummary {
    open spec fn checks(&self) -> Outcome {
        self.check()
    }

    fn run_checks(&self) -> (r: Result<(), String>) {
        self.validate()
    }
}

/// Parameters of `environments.list` (empty object).
#[derive(Debug, Clone, Default)]
pub struct EnvironmentsListParams {}

impl EnvironmentsListParams {
    /// Nothing to check.
    pub fn validate(&self) -> (r: Result<(), String>)
        ensures
            r is Ok,
    {
        Ok(())
    }
}

/// Result of `environments.list`.
#[derive(Debug, Clone)]
pub struct EnvironmentsListResult {
    pub environments: Vec<EnvironmentSummary>,
}

impl EnvironmentsListResult {
    /// Every environment valid, failures reported as `environments[i]: ...`.
    pub open spec fn check(&self) -> Outcome {
        each_checked("environments"@, self.environments@, 0)
    }

    pub fn validate(&self) -> (r: Result<(), String>)
        ensures
            outcome(r) == self.check(),
    {
        validate_each("environments", &self.environments)
    }
}

/// Parameters of `environments.status`.
#[derive(Debug, Clone)]
pub struct EnvironmentsStatusParams {
    pub environment_id: String,
}

impl EnvironmentsStatusParams {
    /// `environmentId` non-empty.
    pub open spec fn check(&self) -> Outcome {
        non_empty("environmentId"@, self.environment_id@)
    }

    pub fn validate(&self) -> (r: Result<(), String>)
        ensures
            outcome(r) == self.check(),
    {
        require_non_empty("environmentId", self.environment_id.as_str())
    }
}

pub type EnvironmentsStatusResult = EnvironmentSummary;

/// Parameters of `environments.create`.
#[derive(Debug, Clone)]
pub struct EnvironmentsCreateParams {
    pub profile_id: String,
    pub idempotency_key: String,
}

impl EnvironmentsCreateParams {
    /// `profileId` and `idempotencyKey` non-empty.
    pub open spec fn check(&self) -> Outcome {
        also(non_empty("profileId"@, self.profile_id@), non_empty("idempotencyKey"@, self.idempotency_key@))
    }

    pub fn validate(&self) -> (r: Result<(), String>)
        ensures
            outcome(r) == self.check(),
    {
        let r = require_non_empty("profileId", self.profile_id.as_str());
        if r.is_err() {
            return r;
        }
        require_non_empty("idempotencyKey", self.idempotency_key.as_str())
    }
}

pub type EnvironmentsCreateResult = EnvironmentSummary;

/// Parameters of `environments.destroy`.
#[derive(Debug, Clone)]
pub struct EnvironmentsDestroyParams {
    pub environment_id: String,
}

impl EnvironmentsDestroyParams {
    /// `environmentId` non-empty.
    pub open spec fn check(&self) -> Outcome {
        non_empty("environmentId"@, self.environment_id@)
    }

    pub fn validate(&self) -> (r: Result<(), String>)
        ensures
            outcome(r) == self.check(),
    {
        require_non_empty("environmentId", self.environment_id.as_str())
    }
}

pub type EnvironmentsDestroyResult = EnvironmentSummary;
pub type EnvironmentStatusType = EnvironmentStatus;
pub type WorkerEnvironmentStateType = WorkerEnvironmentState;
pub type WorkerTunnelStatusType = WorkerTunnelStatus;
pub type WorkerEnvironmentMetadataType = WorkerEnvironmentMetadata;
pub type EnvironmentSummaryType = EnvironmentSummary;
pub type EnvironmentsListParamsType = EnvironmentsListParams;
pub type EnvironmentsListResultType = EnvironmentsListResult;
pub type EnvironmentsStatusParamsType = EnvironmentsStatusParams;
pub type EnvironmentsCreateParamsType = EnvironmentsCreateParams;
pub type EnvironmentsDestroyParamsType = EnvironmentsDestroyParams;

// ---------------------------------------------------------------------------
// What each schema accepts
// ---------------------------------------------------------------------------

/// A `EnvironmentsListResult` passes validation exactly when every condition below holds;
/// a value that breaks one is rejected.
pub proof fn environments_list_result_accepts(x: EnvironmentsListResult)
    ensures
        x.check() is Ok <==> {
            &&& (forall|k: int| 0 <= k < x.environments@.len() ==> (#[trigger] x.environments@[k]).checks() is Ok)
        },
{
    crate::checks::each_checked_first_failure("environments"@, x.environments@, 0);
}

/// A `EnvironmentsStatusParams` passes validation exactly when every condition below holds;
/// a value that breaks one is rejected.
pub proof fn environments_status_params_accepts(x: EnvironmentsStatusParams)
    ensures
        x.check() is Ok <==> {
            &&& x.environment_id@.len() > 0
        },
{
}

/// A `EnvironmentsCreateParams` passes validation exactly when every condition below holds;
/// a value that breaks one is rejected.
pub proof fn environments_create_params_accepts(x: EnvironmentsCreateParams)
    ensures
        x.check() is Ok <==> {
            &&& x.profile_id@.len() > 0
            &&& x.idempotency_key@.len() > 0
        },
{
}

/// A `EnvironmentsDestroyParams` passes validation exactly when every condition below holds;
/// a value that breaks one is rejected.
pub proof fn environments_destroy_params_accepts(x: EnvironmentsDestroyParams)
    ensures
        x.check() is Ok <==> {
            &&& x.environment_id@.len() > 0
        },
{
}

/// A `EnvironmentSummary` passes validation exactly when every condition below holds;
/// a value that breaks one is rejected.
pub proof fn environment_summary_accepts(x: EnvironmentSummary)
    ensures
        x.check() is Ok <==> {
            &&& x.id@.len() > 0
            &&& x.environment_type@.len() > 0
            &&& (x.label matches Some(s) ==> s@.len() > 0)
            &&& (x.capabilities matches Some(v) ==> forall|k: int| 0 <= k < v@.len() ==> (#[trigger] v@[k])@.len() > 0)
            &&& (x.worker matches Some(w) ==> w.check() is Ok)
        },
{
    if let Some(v) = x.capabilities { crate::checks::each_non_empty_all_pass("capabilities"@, v@, 0); }
}

/// A `WorkerEnvironmentMetadata` passes validation exactly when every condition below holds;
/// a value that breaks one is rejected.
pub proof fn worker_environment_metadata_accepts(x: WorkerEnvironmentMetadata)
    ensures
        x.check() is Ok <==> {
            &&& x.provider_id@.len() > 0
            &&& (x.lease_id matches Some(s) ==> s@.len() > 0)
            &&& !(x.age_ms < 0)
            &&& (x.idle_ms matches Some(idle) ==> !(idle < 0))
            &&& (forall|k: int| 0 <= k < x.attached_session_ids@.len() ==> (#[trigger] x.attached_session_ids@[k])@.len() > 0)
        },
{
    crate::checks::each_non_empty_all_pass("attachedSessionIds"@, x.attached_session_ids@, 0);
}

} // verus!
