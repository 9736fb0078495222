//! Task suggestion schemas: suggested follow-up tasks and their lifecycle
//! events.
use vstd::prelude::*;
use crate::checks::{
    also, count_in, each_checked, outcome, reject, require_count_in, validate_each, within, Checked,
    Outcome,
};
use crate::text::{decimal, i64_text, str_eq, usize_text};

verus! {

pub const TASK_ID_MAX_LENGTH: usize = 128;
pub const TASK_TITLE_MAX_LENGTH: usize = 60;
pub const TASK_PROMPT_MAX_LENGTH: usize = 32768;
pub const TASK_TLDR_MAX_LENGTH: usize = 1024;
pub const TASK_CWD_MAX_LENGTH: usize = 4096;
pub const TASK_SESSION_KEY_MAX_LENGTH: usize = 512;
pub const TASK_AGENT_ID_MAX_LENGTH: usize = 128;
pub const TASK_DISMISS_REASON_MAX_LENGTH: usize = 1024;

/// A string of `min..=max` characters:
/// `field: expected length in [min, max], got len`.
pub open spec fn bounded(field: Seq<char>, value: Seq<char>, min: int, max: int) -> Outcome {
    count_in(field, ": expected length in ["@, value.len() as int, min, max, "], got "@)
}

/// An optional `bounded` string.
pub open spec fn opt_bounded(field: Seq<char>, value: Option<String>, min: int, max: int) -> Outcome {
    match value {
        Some(s) => bounded(field, s@, min, max),
        None => Ok(()),
    }
}

fn validate_bounded_string(field: &str, value: &str, min_len: usize, max_len: usize) -> (r: Result<(), String>)
    ensures
        outcome(r) == bounded(field@, value@, min_len as int, max_len as int),
{
    require_count_in(field, ": expected length in [", value.unicode_len(), min_len, max_len, "], got ")
}

fn validate_optional_bounded_string(field: &str, value: &Option<String>, min_len: usize, max_len: usize) -> (r: Result<(), String>)
    ensures
        outcome(r) == opt_bounded(field@, *value, min_len as int, max_len as int),
{
    match value {
        Some(s) => validate_bounded_string(field, s.as_str(), min_len, max_len),
        None => Ok(()),
    }
}

/// `n >= 0`; the message names no field.
pub open spec fn non_negative_value(n: int) -> Outcome {
    reject(n < 0, "expected integer >= 0, got "@ + decimal(n))
}

fn validate_non_negative_integer(n: i64) -> (r: Result<(), String>)
    ensures
        outcome(r) == non_negative_value(n as int),
{
    if n >= 0 {
        Ok(())
    } else {
        let digits = i64_text(n);
        let mut m = String::from_str("expected integer >= 0, got ");
        m.append(digits.as_str());
        Err(m)
    }
}

/// How a task suggestion was resolved.
#[derive(Debug, Clone, Copy, PartialEq, Eq, Hash, Structural)]
pub enum TaskSuggestionResolutionSchema {
    Dismissed,
    Accepted,
    Expired,
}

impl TaskSuggestionResolutionSchema {
    /// The wire text of each variant.
    pub open spec fn spec_as_str(&self) -> Seq<char> {
        match self {
            TaskSuggestionResolutionSchema::Dismissed => "dismissed"@,
            TaskSuggestionResolutionSchema::Accepted => "accepted"@,
            TaskSuggestionResolutionSchema::Expired => "expired"@,
        }
    }

    /// The wire text of this value.
    pub fn as_str(&self) -> (r: &'static str)
        ensures
            r@ == self.spec_as_str(),
    {
        match self {
            TaskSuggestionResolutionSchema::Dismissed => "dismissed",
            TaskSuggestionResolutionSchema::Accepted => "accepted",
            TaskSuggestionResolutionSchema::Expired => "expired",
        }
    }

    /// The value whose wire text is `s`, if any.
    pub open spec fn spec_from_str(s: Seq<char>) -> Option<TaskSuggestionResolutionSchema> {
        if s == "dismissed"@ {
            Some(TaskSuggestionResolutionSchema::Dismissed)
        } else if s == "accepted"@ {
            Some(TaskSuggestionResolutionSchema::Accepted)
        } else if s == "expired"@ {
            Some(TaskSuggestionResolutionSchema::Expired)
        } else {
            None
        }
    }

    /// Parses a wire text; `None` for unknown values.
    pub fn from_str(s: &str) -> (r: Option<TaskSuggestionResolutionSchema>)
        ensures
            r == TaskSuggestionResolutionSchema::spec_from_str(s@),
    {
        if str_eq(s, "dismissed") {
            Some(TaskSuggestionResolutionSchema::Dismissed)
        } else if str_eq(s, "accepted") {
            Some(TaskSuggestionResolutionSchema::Accepted)
        } else if str_eq(s, "expired") {
            Some(TaskSuggestionResolutionSchema::Expired)
        } else {
            None
        }
    }

    /// Every value, in declaration order.
    pub open spec fn spec_all() -> Seq<TaskSuggestionResolutionSchema> {
        seq![TaskSuggestionResolutionSchema::Dismissed, TaskSuggestionResolutionSchema::Accepted, TaskSuggestionResolutionSchema::Expired]
    }

    /// Every value, in declaration order.
    pub fn all() -> (r: &'static [TaskSuggestionResolutionSchema])
        ensures
            r@ == TaskSuggestionResolutionSchema::spec_all(),
    {
        &[TaskSuggestionResolutionSchema::Dismissed, TaskSuggestionResolutionSchema::Accepted, TaskSuggestionResolutionSchema::Expired]
    }
}
/// `TaskSuggestionResolutionSchema::all` lists every value, each once.
pub proof fn task_suggestion_resolution_schema_all_lists_every_value(v: TaskSuggestionResolutionSchema)
    ensures
        TaskSuggestionResolutionSchema::spec_all().contains(v),
        TaskSuggestionResolutionSchema::spec_all().no_duplicates(),
{
    let all = TaskSuggestionResolutionSchema::spec_all();
    match v {
        TaskSuggestionResolutionSchema::Dismissed => assert(all[0] == v),
        TaskSuggestionResolutionSchema::Accepted => assert(all[1] == v),
        TaskSuggestionResolutionSchema::Expired => assert(all[2] == v),
    }
}


/// The wire texts of `TaskSuggestionResolutionSchema` are distinct: parsing the text of a value
/// gives that value back, and a text that parses is the text of what it
/// parses to.
pub proof fn task_suggestion_resolution_schema_text_round_trip(v: TaskSuggestionResolutionSchema, s: Seq<char>)
    ensures
        TaskSuggestionResolutionSchema::spec_from_str(v.spec_as_str()) == Some(v),
        TaskSuggestionResolutionSchema::spec_from_str(s) matches Some(w) ==> w.spec_as_str() == s,
{
    reveal_strlit("dismissed");
    reveal_strlit("accepted");
    reveal_strlit("expired");
    assert("dismissed"@.len() == 9);
    assert("accepted"@.len() == 8);
    assert("expired"@.len() == 7);
}

/// Returns true when `s` is the wire text of a `TaskSuggestionResolutionSchema`.
pub fn is_valid_task_suggestion_resolution(s: &str) -> (r: bool)
    ensures
        r == TaskSuggestionResolutionSchema::spec_from_str(s@) is Some,
{
    TaskSuggestionResolutionSchema::from_str(s).is_some()
}

/// A suggested follow-up task.
#[derive(Debug, Clone)]
pub struct TaskSuggestionSchema {
    pub id: String,
    pub title: String,
    pub prompt: String,
    pub tldr: String,
    pub cwd: String,
    pub session_key: String,
    pub agent_id: Option<String>,
    pub created_at: i64,
}

impl TaskSuggestionSchema {
    /// Every text within its length bounds, `createdAt >= 0`.
    pub open spec fn check(&self) -> Outcome {
        also(bounded("id"@, self.id@, 1, TASK_ID_MAX_LENGTH as int),
        also(bounded("title"@, self.title@, 1, TASK_TITLE_MAX_LENGTH as int),
        also(bounded("prompt"@, self.prompt@, 1, TASK_PROMPT_MAX_LENGTH as int),
        also(bounded("tldr"@, self.tldr@, 1, TASK_TLDR_MAX_LENGTH as int),
        also(bounded("cwd"@, self.cwd@, 1, TASK_CWD_MAX_LENGTH as int),
        also(bounded("sessionKey"@, self.session_key@, 1, TASK_SESSION_KEY_MAX_LENGTH as int),
        also(opt_bounded("agentId"@, self.agent_id, 1, TASK_AGENT_ID_MAX_LENGTH as int),
        within("createdAt: "@, non_negative_value(self.created_at as int)))))))))
    }

    pub fn validate(&self) -> (r: Result<(), String>)
        ensures
            outcome(r) == self.check(),
    {
        let r = validate_bounded_string("id", self.id.as_str(), 1, TASK_ID_MAX_LENGTH);
        if r.is_err() {
            return r;
        }
        let r = validate_bounded_string("title", self.title.as_str(), 1, TASK_TITLE_MAX_LENGTH);
        if r.is_err() {
            return r;
        }
        let r = validate_bounded_string("prompt", self.prompt.as_str(), 1, TASK_PROMPT_MAX_LENGTH);
        if r.is_err() {
            return r;
        }
        let r = validate_bounded_string("tldr", self.tldr.as_str(), 1, TASK_TLDR_MAX_LENGTH);
        if r.is_err() {
            return r;
        }
        let r = validate_bounded_string("cwd", self.cwd.as_str(), 1, TASK_CWD_MAX_LENGTH);
        if r.is_err() {
            return r;
        }
        let r = validate_bounded_string(
            "sessionKey",
            self.session_key.as_str(),
            1,
            TASK_SESSION_KEY_MAX_LENGTH,
        );
        if r.is_err() {
            return r;
        }
        let r = validate_optional_bounded_string("agentId", &self.agent_id, 1, TASK_AGENT_ID_MAX_LENGTH);
        if r.is_err() {
            return r;
        }
        crate::checks::prefixed("createdAt: ", validate_non_negative_integer(self.created_at))
    }
}

impl Checked for TaskSuggestionSchema {
    open spec fn checks(&self) -> Outcome {
        self.check()
    }

    fn run_checks(&self) -> (r: Result<(), String>) {
        self.validate()
    }
}

/// Parameters of `taskSuggestions.list`.
#[derive(Debug, Clone, Default)]
pub struct TaskSuggestionsListParamsSchema {
    pub session_key: Option<String>,
    pub agent_id: Option<String>,
}

impl TaskSuggestionsListParamsSchema {
    /// `sessionKey` and `agentId` within bounds when present.
    pub open spec fn check(&self) -> Outcome {
        also(
            opt_bounded("sessionKey"@, self.session_key, 1, TASK_SESSION_KEY_MAX_LENGTH as int),
            opt_bounded("agentId"@, self.agent_id, 1, TASK_AGENT_ID_MAX_LENGTH as int),
        )
    }

    pub fn validate(&self) -> (r: Result<(), String>)
        ensures
            outcome(r) == self.check(),
    {
        let r = validate_optional_bounded_string("sessionKey", &self.session_key, 1, TASK_SESSION_KEY_MAX_LENGTH);
        if r.is_err() {
            return r;
        }
        validate_optional_bounded_string("agentId", &self.agent_id, 1, TASK_AGENT_ID_MAX_LENGTH)
    }
}

/// Result of `taskSuggestions.list`.
#[derive(Debug, Clone)]
pub struct TaskSuggestionsListResultSchema {
    pub suggestions: Vec<TaskSuggestionSchema>,
}

impl TaskSuggestionsListResultSchema {
    /// Every suggestion valid (`suggestions[i]: ...`).
    pub open spec fn check(&self) -> Outcome {
        each_checked("suggestions"@, self.suggestions@, 0)
    }

    pub fn validate(&self) -> (r: Result<(), String>)
        ensures
            outcome(r) == self.check(),
    {
        validate_each("suggestions", &self.suggestions)
    }
}

/// Parameters of `taskSuggestions.create`.
#[derive(Debug, Clone)]
pub struct TaskSuggestionsCreateParamsSchema {
    pub title: String,
    pub prompt: String,
    pub tldr: String,
    pub cwd: String,
    pub session_key: String,
    pub agent_id: Option<String>,
}

impl TaskSuggestionsCreateParamsSchema {
    /// Every text within its length bounds.
    pub open spec fn check(&self) -> Outcome {
        also(bounded("title"@, self.title@, 1, TASK_TITLE_MAX_LENGTH as int),
        also(bounded("prompt"@, self.prompt@, 1, TASK_PROMPT_MAX_LENGTH as int),
        also(bounded("tldr"@, self.tldr@, 1, TASK_TLDR_MAX_LENGTH as int),
        also(bounded("cwd"@, self.cwd@, 1, TASK_CWD_MAX_LENGTH as int),
        also(bounded("sessionKey"@, self.session_key@, 1, TASK_SESSION_KEY_MAX_LENGTH as int),
        opt_bounded("agentId"@, self.agent_id, 1, TASK_AGENT_ID_MAX_LENGTH as int))))))
    }

    pub fn validate(&self) -> (r: Result<(), String>)
        ensures
            outcome(r) == self.check(),
    {
        let r = validate_bounded_string("title", self.title.as_str(), 1, TASK_TITLE_MAX_LENGTH);
        if r.is_err() {
            return r;
        }
        let r = validate_bounded_string("prompt", self.prompt.as_str(), 1, TASK_PROMPT_MAX_LENGTH);
        if r.is_err() {
            return r;
        }
        let r = validate_bounded_string("tldr", self.tldr.as_str(), 1, TASK_TLDR_MAX_LENGTH);
        if r.is_err() {
            return r;
        }
        let r = validate_bounded_string("cwd", self.cwd.as_str(), 1, TASK_CWD_MAX_LENGTH);
        if r.is_err() {
            return r;
        }
        let r = validate_bounded_string(
            "sessionKey",
            self.session_key.as_str(),
            1,
            TASK_SESSION_KEY_MAX_LENGTH,
        );
        if r.is_err() {
            return r;
        }
        validate_optional_bounded_string("agentId", &self.agent_id, 1, TASK_AGENT_ID_MAX_LENGTH)
    }
}

/// Result of `taskSuggestions.create`.
#[derive(Debug, Clone)]
pub struct TaskSuggestionsCreateResultSchema {
    pub task_id: String,
    pub suggestion: TaskSuggestionSchema,
}

impl TaskSuggestionsCreateResultSchema {
    /// `taskId` within bounds, then the suggestion (messages unprefixed).
    pub open spec fn check(&self) -> Outcome {
        also(bounded("taskId"@, self.task_id@, 1, TASK_ID_MAX_LENGTH as int), self.suggestion.check())
    }

    pub fn validate(&self) -> (r: Result<(), String>)
        ensures
            outcome(r) == self.check(),
    {
        let r = validate_bounded_string("taskId", self.task_id.as_str(), 1, TASK_ID_MAX_LENGTH);
        if r.is_err() {
            return r;
        }
        self.suggestion.validate()
    }
}

/// Parameters of `taskSuggestions.accept`.
#[derive(Debug, Clone)]
pub struct TaskSuggestionsAcceptParamsSchema {
    pub task_id: String,
}

impl TaskSuggestionsAcceptParamsSchema {
    /// `taskId` within bounds.
    pub open spec fn check(&self) -> Outcome {
        bounded("taskId"@, self.task_id@, 1, TASK_ID_MAX_LENGTH as int)
    }

    pub fn validate(&self) -> (r: Result<(), String>)
        ensures
            outcome(r) == self.check(),
    {
        validate_bounded_string("taskId", self.task_id.as_str(), 1, TASK_ID_MAX_LENGTH)
    }
}

/// Result of `taskSuggestions.accept`.
#[derive(Debug, Clone)]
pub struct TaskSuggestionsAcceptResultSchema {
    pub task_id: String,
    pub key: String,
}

impl TaskSuggestionsAcceptResultSchema {
    /// `taskId` and the session `key` within bounds.
    pub open spec fn check(&self) -> Outcome {
        also(
            bounded("taskId"@, self.task_id@, 1, TASK_ID_MAX_LENGTH as int),
            bounded("key"@, self.key@, 1, TASK_SESSION_KEY_MAX_LENGTH as int),
        )
    }

    pub fn validate(&self) -> (r: Result<(), String>)
        ensures
            outcome(r) == self.check(),
    {
        let r = validate_bounded_string("taskId", self.task_id.as_str(), 1, TASK_ID_MAX_LENGTH);
        if r.is_err() {
            return r;
        }
        validate_bounded_string("key", self.key.as_str(), 1, TASK_SESSION_KEY_MAX_LENGTH)
    }
}

/// Parameters of `taskSuggestions.dismiss`.
#[derive(Debug, Clone)]
pub struct TaskSuggestionsDismissParamsSchema {
    pub task_id: String,
    pub reason: Option<String>,
}

impl TaskSuggestionsDismissParamsSchema {
    /// `taskId` within bounds; `reason` at most 1024 characters.
    pub open spec fn check(&self) -> Outcome {
        also(
            bounded("taskId"@, self.task_id@, 1, TASK_ID_MAX_LENGTH as int),
            match self.reason {
                Some(r) => reject(
                    r@.len() > TASK_DISMISS_REASON_MAX_LENGTH,
                    "reason: expected length <= "@ + decimal(TASK_DISMISS_REASON_MAX_LENGTH as int)
                        + ", got "@ + decimal(r@.len() as int),
                ),
                None => Ok(()),
            },
        )
    }

    pub fn validate(&self) -> (r: Result<(), String>)
        ensures
            outcome(r) == self.check(),
    {
        let r = validate_bounded_string("taskId", self.task_id.as_str(), 1, TASK_ID_MAX_LENGTH);
        if r.is_err() {
            return r;
        }
        if let Some(reason) = &self.reason {
            let len = reason.as_str().unicode_len();
            if len > TASK_DISMISS_REASON_MAX_LENGTH {
                let bound = usize_text(TASK_DISMISS_REASON_MAX_LENGTH);
                let got = usize_text(len);
                let mut m = String::from_str("reason: expected length <= ");
                m.append(bound.as_str());
                m.append(", got ");
                m.append(got.as_str());
                return Err(m);
            }
        }
        Ok(())
    }
}

/// Result of `taskSuggestions.dismiss`.
#[derive(Debug, Clone)]
pub struct TaskSuggestionsDismissResultSchema {
    pub task_id: String,
    pub dismissed: bool,
}

impl TaskSuggestionsDismissResultSchema {
    /// `taskId` within bounds.
    pub open spec fn check(&self) -> Outcome {
        bounded("taskId"@, self.task_id@, 1, TASK_ID_MAX_LENGTH as int)
    }

    pub fn validate(&self) -> (r: Result<(), String>)
        ensures
            outcome(r) == self.check(),
    {
        validate_bounded_string("taskId", self.task_id.as_str(), 1, TASK_ID_MAX_LENGTH)
    }
}

/// Lifecycle event of a task suggestion.
#[derive(Debug, Clone)]
pub enum TaskSuggestionEventSchema {
    Created { suggestion: TaskSuggestionSchema },
    Resolved { task_id: String, resolution: TaskSuggestionResolutionSchema },
}

impl TaskSuggestionEventSchema {
    /// A created event carries a valid suggestion; a resolved one a task id
    /// within bounds and a resolution whose wire text parses back.
    pub open spec fn check(&self) -> Outcome {
        match self {
            TaskSuggestionEventSchema::Created { suggestion } => suggestion.check(),
            TaskSuggestionEventSchema::Resolved { task_id, resolution } => also(
                bounded("taskId"@, task_id@, 1, TASK_ID_MAX_LENGTH as int),
                reject(
                    TaskSuggestionResolutionSchema::spec_from_str(resolution.spec_as_str()) is None,
                    "invalid task suggestion resolution: "@ + resolution.spec_as_str(),
                ),
            ),
        }
    }

    pub fn validate(&self) -> (r: Result<(), String>)
        ensures
            outcome(r) == self.check(),
    {
        match self {
            TaskSuggestionEventSchema::Created { suggestion } => suggestion.validate(),
            TaskSuggestionEventSchema::Resolved { task_id, resolution } => {
                let r = validate_bounded_string("taskId", task_id.as_str(), 1, TASK_ID_MAX_LENGTH);
                if r.is_err() {
                    return r;
                }
                if TaskSuggestionResolutionSchema::from_str(resolution.as_str()).is_none() {
                    let mut m = String::from_str("invalid task suggestion resolution: ");
                    m.append(resolution.as_str());
                    return Err(m);
                }
                Ok(())
            },
        }
    }
}

pub type TaskSuggestion = TaskSuggestionSchema;
pub type TaskSuggestionEvent = TaskSuggestionEventSchema;
pub type TaskSuggestionResolution = TaskSuggestionResolutionSchema;
pub type TaskSuggestionsAcceptParams = TaskSuggestionsAcceptParamsSchema;
pub type TaskSuggestionsAcceptResult = TaskSuggestionsAcceptResultSchema;
pub type TaskSuggestionsCreateParams = TaskSuggestionsCreateParamsSchema;
pub type TaskSuggestionsCreateResult = TaskSuggestionsCreateResultSchema;
pub type TaskSuggestionsDismissParams = TaskSuggestionsDismissParamsSchema;
pub type TaskSuggestionsDismissResult = TaskSuggestionsDismissResultSchema;
pub type TaskSuggestionsListParams = TaskSuggestionsListParamsSchema;
pub type TaskSuggestionsListResult = TaskSuggestionsListResultSchema;

// ---------------------------------------------------------------------------
// What each schema accepts
// ---------------------------------------------------------------------------

/// A `TaskSuggestionsListParamsSchema` passes validation exactly when every condition below holds;
/// a value that breaks one is rejected.
pub proof fn task_suggestions_list_params_schema_accepts(x: TaskSuggestionsListParamsSchema)
    ensures
        x.check() is Ok <==> {
            &&& (x.session_key matches Some(s) ==> 1 <= s@.len() <= TASK_SESSION_KEY_MAX_LENGTH as int)
            &&& (x.agent_id matches Some(s) ==> 1 <= s@.len() <= TASK_AGENT_ID_MAX_LENGTH as int)
        },
{
}

/// A `TaskSuggestionsListResultSchema` passes validation exactly when every condition below holds;
/// a value that breaks one is rejected.
pub proof fn task_suggestions_list_result_schema_accepts(x: TaskSuggestionsListResultSchema)
    ensures
        x.check() is Ok <==> {
            &&& (forall|k: int| 0 <= k < x.suggestions@.len() ==> (#[trigger] x.suggestions@[k]).checks() is Ok)
        },
{
    crate::checks::each_checked_first_failure("suggestions"@, x.suggestions@, 0);
}

/// A `TaskSuggestionsCreateParamsSchema` passes validation exactly when every condition below holds;
/// a value that breaks one is rejected.
pub proof fn task_suggestions_create_params_schema_accepts(x: TaskSuggestionsCreateParamsSchema)
    ensures
        x.check() is Ok <==> {
            &&& 1 <= x.title@.len() <= TASK_TITLE_MAX_LENGTH as int
            &&& 1 <= x.prompt@.len() <= TASK_PROMPT_MAX_LENGTH as int
            &&& 1 <= x.tldr@.len() <= TASK_TLDR_MAX_LENGTH as int
            &&& 1 <= x.cwd@.len() <= TASK_CWD_MAX_LENGTH as int
            &&& 1 <= x.session_key@.len() <= TASK_SESSION_KEY_MAX_LENGTH as int
            &&& (x.agent_id matches Some(s) ==> 1 <= s@.len() <= TASK_AGENT_ID_MAX_LENGTH as int)
        },
{
}

/// A `TaskSuggestionsAcceptParamsSchema` passes validation exactly when every condition below holds;
/// a value that breaks one is rejected.
pub proof fn task_suggestions_accept_params_schema_accepts(x: TaskSuggestionsAcceptParamsSchema)
    ensures
        x.check() is Ok <==> {
            &&& 1 <= x.task_id@.len() <= TASK_ID_MAX_LENGTH as int
        },
{
}

/// A `TaskSuggestionsAcceptResultSchema` passes validation exactly when every condition below holds;
/// a value that breaks one is rejected.
pub proof fn task_suggestions_accept_result_schema_accepts(x: TaskSuggestionsAcceptResultSchema)
    ensures
        x.check() is Ok <==> {
            &&& 1 <= x.task_id@.len() <= TASK_ID_MAX_LENGTH as int
            &&& 1 <= x.key@.len() <= TASK_SESSION_KEY_MAX_LENGTH as int
        },
{
}

/// A `TaskSuggestionsDismissResultSchema` passes validation exactly when every condition below holds;
/// a value that breaks one is rejected.
pub proof fn task_suggestions_dismiss_result_schema_accepts(x: TaskSuggestionsDismissResultSchema)
    ensures
        x.check() is Ok <==> {
            &&& 1 <= x.task_id@.len() <= TASK_ID_MAX_LENGTH as int
        },
{
}

/// A `TaskSuggestionsCreateResultSchema` passes validation exactly when every condition below holds;
/// a value that breaks one is rejected.
pub proof fn task_suggestions_create_result_schema_accepts(x: TaskSuggestionsCreateResultSchema)
    ensures
        x.check() is Ok <==> {
            &&& 1 <= x.task_id@.len() <= TASK_ID_MAX_LENGTH as int
            &&& x.suggestion.check() is Ok
        },
{
}

/// A `TaskSuggestionsDismissParamsSchema` passes validation exactly when every condition below holds;
/// a value that breaks one is rejected.
pub proof fn task_suggestions_dismiss_params_schema_accepts(x: TaskSuggestionsDismissParamsSchema)
    ensures
        x.check() is Ok <==> {
            &&& 1 <= x.task_id@.len() <= TASK_ID_MAX_LENGTH as int
            &&& (x.reason matches Some(r) ==> !(r@.len() > TASK_DISMISS_REASON_MAX_LENGTH))
        },
{
}

/// A task suggestion passes validation exactly when every text lies within
/// its bounds (id 1..=128, title 1..=60, prompt 1..=32768, tldr 1..=1024, cwd
/// 1..=4096, session key 1..=512, a set agent id 1..=128 characters) and
/// `createdAt >= 0`.
pub proof fn task_suggestion_schema_accepts(x: TaskSuggestionSchema)
    ensures
        x.check() is Ok <==> {
            &&& 1 <= x.id@.len() <= 128
            &&& 1 <= x.title@.len() <= 60
            &&& 1 <= x.prompt@.len() <= 32768
            &&& 1 <= x.tldr@.len() <= 1024
            &&& 1 <= x.cwd@.len() <= 4096
            &&& 1 <= x.session_key@.len() <= 512
            &&& (x.agent_id matches Some(s) ==> 1 <= s@.len() <= 128)
            &&& x.created_at >= 0
        },
{
}

/// A created event passes validation exactly when its suggestion does; a
/// resolved event exactly when its task id has 1..=128 characters.
pub proof fn task_suggestion_event_schema_accepts(x: TaskSuggestionEventSchema)
    ensures
        x.check() is Ok <==> match x {
            TaskSuggestionEventSchema::Created { suggestion } => suggestion.check() is Ok,
            TaskSuggestionEventSchema::Resolved { task_id, .. } => 1 <= task_id@.len() <= 128,
        },
{
    if let TaskSuggestionEventSchema::Resolved { resolution, .. } = x {
        task_suggestion_resolution_schema_text_round_trip(resolution, resolution.spec_as_str());
    }
}

} // verus!
