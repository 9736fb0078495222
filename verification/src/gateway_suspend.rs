//! Gateway suspension schemas: preparing the gateway for suspension, polling
//! its status and resuming it.
use vstd::prelude::*;
use crate::checks::{
    also, count_in, each_checked, non_empty, non_empty_msg, non_negative_integer, outcome, reject,
    require_count_in, require_non_empty, require_non_negative_integer, validate_each, within,
    Checked, Outcome,
};
use crate::primitives::NonEmptyString;
use crate::text::{debug_text, has_white_space, str_debug, str_eq, str_has_white_space};

verus! {

pub const SUSPENSION_TOKEN_MAX_LENGTH: usize = 128;
pub const SUSPENSION_TOKEN_MIN_LENGTH: usize = 1;

/// A suspension token: 1..=128 characters, none of them white space.
pub open spec fn suspension_token(field: Seq<char>, value: Seq<char>) -> Outcome {
    also(
        count_in(
            field,
            ": expected length in ["@,
            value.len() as int,
            SUSPENSION_TOKEN_MIN_LENGTH as int,
            SUSPENSION_TOKEN_MAX_LENGTH as int,
            "], got "@,
        ),
        reject(
            has_white_space(value),
            field + ": expected non-whitespace token, got "@ + str_debug(value),
        ),
    )
}

fn validate_suspension_token(field: &str, value: &str) -> (r: Result<(), String>)
    ensures
        outcome(r) == suspension_token(field@, value@),
{
    let r = require_count_in(
        field,
        ": expected length in [",
        value.unicode_len(),
        SUSPENSION_TOKEN_MIN_LENGTH,
        SUSPENSION_TOKEN_MAX_LENGTH,
        "], got ",
    );
    if r.is_err() {
        return r;
    }
    if str_has_white_space(value) {
        let shown = debug_text(value);
        let mut m = String::from_str(field);
        m.append(": expected non-whitespace token, got ");
        m.append(shown.as_str());
        return Err(m);
    }
    Ok(())
}

/// Runtime of a task that blocks suspension.
#[derive(Debug, Clone, Copy, PartialEq, Eq, Hash, Structural)]
pub enum GatewaySuspendTaskRuntimeSchema {
    Subagent,
    Acp,
    Cli,
    Cron,
}

impl GatewaySuspendTaskRuntimeSchema {
    /// The wire text of each variant.
    pub open spec fn spec_as_str(&self) -> Seq<char> {
        match self {
            GatewaySuspendTaskRuntimeSchema::Subagent => "subagent"@,
            GatewaySuspendTaskRuntimeSchema::Acp => "acp"@,
            GatewaySuspendTaskRuntimeSchema::Cli => "cli"@,
            GatewaySuspendTaskRuntimeSchema::Cron => "cron"@,
        }
    }

    /// The wire text of this value.
    pub fn as_str(&self) -> (r: &'static str)
        ensures
            r@ == self.spec_as_str(),
    {
        match self {
            GatewaySuspendTaskRuntimeSchema::Subagent => "subagent",
            GatewaySuspendTaskRuntimeSchema::Acp => "acp",
            GatewaySuspendTaskRuntimeSchema::Cli => "cli",
            GatewaySuspendTaskRuntimeSchema::Cron => "cron",
        }
    }

    /// The value whose wire text is `s`, if any.
    pub open spec fn spec_from_str(s: Seq<char>) -> Option<GatewaySuspendTaskRuntimeSchema> {
        if s == "subagent"@ {
            Some(GatewaySuspendTaskRuntimeSchema::Subagent)
        } else if s == "acp"@ {
            Some(GatewaySuspendTaskRuntimeSchema::Acp)
        } else if s == "cli"@ {
            Some(GatewaySuspendTaskRuntimeSchema::Cli)
        } else if s == "cron"@ {
            Some(GatewaySuspendTaskRuntimeSchema::Cron)
        } else {
            None
        }
    }

    /// Parses a wire text; `None` for unknown values.
    pub fn from_str(s: &str) -> (r: Option<GatewaySuspendTaskRuntimeSchema>)
        ensures
            r == GatewaySuspendTaskRuntimeSchema::spec_from_str(s@),
    {
        if str_eq(s, "subagent") {
            Some(GatewaySuspendTaskRuntimeSchema::Subagent)
        } else if str_eq(s, "acp") {
            Some(GatewaySuspendTaskRuntimeSchema::Acp)
        } else if str_eq(s, "cli") {
            Some(GatewaySuspendTaskRuntimeSchema::Cli)
        } else if str_eq(s, "cron") {
            Some(GatewaySuspendTaskRuntimeSchema::Cron)
        } else {
            None
        }
    }

    /// Every value, in declaration order.
    pub open spec fn spec_all() -> Seq<GatewaySuspendTaskRuntimeSchema> {
        seq![GatewaySuspendTaskRuntimeSchema::Subagent, GatewaySuspendTaskRuntimeSchema::Acp, GatewaySuspendTaskRuntimeSchema::Cli, GatewaySuspendTaskRuntimeSchema::Cron]
    }

    /// Every value, in declaration order.
    pub fn all() -> (r: &'static [GatewaySuspendTaskRuntimeSchema])
        ensures
            r@ == GatewaySuspendTaskRuntimeSchema::spec_all(),
    {
        &[GatewaySuspendTaskRuntimeSchema::Subagent, GatewaySuspendTaskRuntimeSchema::Acp, GatewaySuspendTaskRuntimeSchema::Cli, GatewaySuspendTaskRuntimeSchema::Cron]
    }
}
/// `GatewaySuspendTaskRuntimeSchema::all` lists every value, each once.
pub proof fn gateway_suspend_task_runtime_schema_all_lists_every_value(v: GatewaySuspendTaskRuntimeSchema)
    ensures
        GatewaySuspendTaskRuntimeSchema::spec_all().contains(v),
        GatewaySuspendTaskRuntimeSchema::spec_all().no_duplicates(),
{
    let all = GatewaySuspendTaskRuntimeSchema::spec_all();
    match v {
        GatewaySuspendTaskRuntimeSchema::Subagent => assert(all[0] == v),
        GatewaySuspendTaskRuntimeSchema::Acp => assert(all[1] == v),
        GatewaySuspendTaskRuntimeSchema::Cli => assert(all[2] == v),
        GatewaySuspendTaskRuntimeSchema::Cron => assert(all[3] == v),
    }
}


/// The wire texts of `GatewaySuspendTaskRuntimeSchema` are distinct: parsing the text of a value
/// gives that value back, and a text that parses is the text of what it
/// parses to.
pub proof fn gateway_suspend_task_runtime_schema_text_round_trip(v: GatewaySuspendTaskRuntimeSchema, s: Seq<char>)
    ensures
        GatewaySuspendTaskRuntimeSchema::spec_from_str(v.spec_as_str()) == Some(v),
        GatewaySuspendTaskRuntimeSchema::spec_from_str(s) matches Some(w) ==> w.spec_as_str() == s,
{
    reveal_strlit("subagent");
    reveal_strlit("acp");
    reveal_strlit("cli");
    reveal_strlit("cron");
    assert("subagent"@.len() == 8);
    assert("acp"@.len() == 3);
    assert("cli"@.len() == 3);
    assert("cron"@.len() == 4);
    assert("acp"@[0] == 'a');
    assert("cli"@[0] == 'c');
}

/// Returns true when `s` is the wire text of a `GatewaySuspendTaskRuntimeSchema`.
pub fn is_valid_gateway_suspend_task_runtime(s: &str) -> (r: bool)
    ensures
        r == GatewaySuspendTaskRuntimeSchema::spec_from_str(s@) is Some,
{
    GatewaySuspendTaskRuntimeSchema::from_str(s).is_some()
}

/// Kind of work that blocks gateway suspension.
#[derive(Debug, Clone, Copy, PartialEq, Eq, Hash, Structural)]
pub enum GatewaySuspendBlockerKindSchema {
    Queue,
    Reply,
    EmbeddedRun,
    BackgroundExec,
    CronRun,
    Task,
    RootRequest,
    SessionAdmission,
    SessionMutation,
    ChatRun,
    QueuedTurn,
    TerminalPersistence,
    TerminalSession,
}

impl GatewaySuspendBlockerKindSchema {
    /// The wire text of each variant.
    pub open spec fn spec_as_str(&self) -> Seq<char> {
        match self {
            GatewaySuspendBlockerKindSchema::Queue => "queue"@,
            GatewaySuspendBlockerKindSchema::Reply => "reply"@,
            GatewaySuspendBlockerKindSchema::EmbeddedRun => "embedded-run"@,
            GatewaySuspendBlockerKindSchema::BackgroundExec => "background-exec"@,
            GatewaySuspendBlockerKindSchema::CronRun => "cron-run"@,
            GatewaySuspendBlockerKindSchema::Task => "task"@,
            GatewaySuspendBlockerKindSchema::RootRequest => "root-request"@,
            GatewaySuspendBlockerKindSchema::SessionAdmission => "session-admission"@,
            GatewaySuspendBlockerKindSchema::SessionMutation => "session-mutation"@,
            GatewaySuspendBlockerKindSchema::ChatRun => "chat-run"@,
            GatewaySuspendBlockerKindSchema::QueuedTurn => "queued-turn"@,
            GatewaySuspendBlockerKindSchema::TerminalPersistence => "terminal-persistence"@,
            GatewaySuspendBlockerKindSchema::TerminalSession => "terminal-session"@,
        }
    }

    /// The wire text of this value.
    pub fn as_str(&self) -> (r: &'static str)
        ensures
            r@ == self.spec_as_str(),
    {
        match self {
            GatewaySuspendBlockerKindSchema::Queue => "queue",
            GatewaySuspendBlockerKindSchema::Reply => "reply",
            GatewaySuspendBlockerKindSchema::EmbeddedRun => "embedded-run",
            GatewaySuspendBlockerKindSchema::BackgroundExec => "background-exec",
            GatewaySuspendBlockerKindSchema::CronRun => "cron-run",
            GatewaySuspendBlockerKindSchema::Task => "task",
            GatewaySuspendBlockerKindSchema::RootRequest => "root-request",
            GatewaySuspendBlockerKindSchema::SessionAdmission => "session-admission",
            GatewaySuspendBlockerKindSchema::SessionMutation => "session-mutation",
            GatewaySuspendBlockerKindSchema::ChatRun => "chat-run",
            GatewaySuspendBlockerKindSchema::QueuedTurn => "queued-turn",
            GatewaySuspendBlockerKindSchema::TerminalPersistence => "terminal-persistence",
            GatewaySuspendBlockerKindSchema::TerminalSession => "terminal-session",
        }
    }

    /// The value whose wire text is `s`, if any.
    pub open spec fn spec_from_str(s: Seq<char>) -> Option<GatewaySuspendBlockerKindSchema> {
        if s == "queue"@ {
            Some(GatewaySuspendBlockerKindSchema::Queue)
        } else if s == "reply"@ {
            Some(GatewaySuspendBlockerKindSchema::Reply)
        } else if s == "embedded-run"@ {
            Some(GatewaySuspendBlockerKindSchema::EmbeddedRun)
        } else if s == "background-exec"@ {
            Some(GatewaySuspendBlockerKindSchema::BackgroundExec)
        } else if s == "cron-run"@ {
            Some(GatewaySuspendBlockerKindSchema::CronRun)
        } else if s == "task"@ {
            Some(GatewaySuspendBlockerKindSchema::Task)
        } else if s == "root-request"@ {
            Some(GatewaySuspendBlockerKindSchema::RootRequest)
        } else if s == "session-admission"@ {
            Some(GatewaySuspendBlockerKindSchema::SessionAdmission)
        } else if s == "session-mutation"@ {
            Some(GatewaySuspendBlockerKindSchema::SessionMutation)
        } else if s == "chat-run"@ {
            Some(GatewaySuspendBlockerKindSchema::ChatRun)
        } else if s == "queued-turn"@ {
            Some(GatewaySuspendBlockerKindSchema::QueuedTurn)
        } else if s == "terminal-persistence"@ {
            Some(GatewaySuspendBlockerKindSchema::TerminalPersistence)
        } else if s == "terminal-session"@ {
            Some(GatewaySuspendBlockerKindSchema::TerminalSession)
        } else {
            None
        }
    }

    /// Parses a wire text; `None` for unknown values.
    pub fn from_str(s: &str) -> (r: Option<GatewaySuspendBlockerKindSchema>)
        ensures
            r == GatewaySuspendBlockerKindSchema::spec_from_str(s@),
    {
        if str_eq(s, "queue") {
            Some(GatewaySuspendBlockerKindSchema::Queue)
        } else if str_eq(s, "reply") {
            Some(GatewaySuspendBlockerKindSchema::Reply)
        } else if str_eq(s, "embedded-run") {
            Some(GatewaySuspendBlockerKindSchema::EmbeddedRun)
        } else if str_eq(s, "background-exec") {
            Some(GatewaySuspendBlockerKindSchema::BackgroundExec)
        } else if str_eq(s, "cron-run") {
            Some(GatewaySuspendBlockerKindSchema::CronRun)
        } else if str_eq(s, "task") {
            Some(GatewaySuspendBlockerKindSchema::Task)
        } else if str_eq(s, "root-request") {
            Some(GatewaySuspendBlockerKindSchema::RootRequest)
        } else if str_eq(s, "session-admission") {
            Some(GatewaySuspendBlockerKindSchema::SessionAdmission)
        } else if str_eq(s, "session-mutation") {
            Some(GatewaySuspendBlockerKindSchema::SessionMutation)
        } else if str_eq(s, "chat-run") {
            Some(GatewaySuspendBlockerKindSchema::ChatRun)
        } else if str_eq(s, "queued-turn") {
            Some(GatewaySuspendBlockerKindSchema::QueuedTurn)
        } else if str_eq(s, "terminal-persistence") {
            Some(GatewaySuspendBlockerKindSchema::TerminalPersistence)
        } else if str_eq(s, "terminal-session") {
            Some(GatewaySuspendBlockerKindSchema::TerminalSession)
        } else {
            None
        }
    }

    /// Every value, in declaration order.
    pub open spec fn spec_all() -> Seq<GatewaySuspendBlockerKindSchema> {
        seq![GatewaySuspendBlockerKindSchema::Queue, GatewaySuspendBlockerKindSchema::Reply, GatewaySuspendBlockerKindSchema::EmbeddedRun, GatewaySuspendBlockerKindSchema::BackgroundExec, GatewaySuspendBlockerKindSchema::CronRun, GatewaySuspendBlockerKindSchema::Task, GatewaySuspendBlockerKindSchema::RootRequest, GatewaySuspendBlockerKindSchema::SessionAdmission, GatewaySuspendBlockerKindSchema::SessionMutation, GatewaySuspendBlockerKindSchema::ChatRun, GatewaySuspendBlockerKindSchema::QueuedTurn, GatewaySuspendBlockerKindSchema::TerminalPersistence, GatewaySuspendBlockerKindSchema::TerminalSession]
    }

    /// Every value, in declaration order.
    pub fn all() -> (r: &'static [GatewaySuspendBlockerKindSchema])
        ensures
            r@ == GatewaySuspendBlockerKindSchema::spec_all(),
    {
        &[GatewaySuspendBlockerKindSchema::Queue, GatewaySuspendBlockerKindSchema::Reply, GatewaySuspendBlockerKindSchema::EmbeddedRun, GatewaySuspendBlockerKindSchema::BackgroundExec, GatewaySuspendBlockerKindSchema::CronRun, GatewaySuspendBlockerKindSchema::Task, GatewaySuspendBlockerKindSchema::RootRequest, GatewaySuspendBlockerKindSchema::SessionAdmission, GatewaySuspendBlockerKindSchema::SessionMutation, GatewaySuspendBlockerKindSchema::ChatRun, GatewaySuspendBlockerKindSchema::QueuedTurn, GatewaySuspendBlockerKindSchema::TerminalPersistence, GatewaySuspendBlockerKindSchema::TerminalSession]
    }
}
/// `GatewaySuspendBlockerKindSchema::all` lists every value, each once.
pub proof fn gateway_suspend_blocker_kind_schema_all_lists_every_value(v: GatewaySuspendBlockerKindSchema)
    ensures
        GatewaySuspendBlockerKindSchema::spec_all().contains(v),
        GatewaySuspendBlockerKindSchema::spec_all().no_duplicates(),
{
    let all = GatewaySuspendBlockerKindSchema::spec_all();
    match v {
        GatewaySuspendBlockerKindSchema::Queue => assert(all[0] == v),
        GatewaySuspendBlockerKindSchema::Reply => assert(all[1] == v),
        GatewaySuspendBlockerKindSchema::EmbeddedRun => assert(all[2] == v),
        GatewaySuspendBlockerKindSchema::BackgroundExec => assert(all[3] == v),
        GatewaySuspendBlockerKindSchema::CronRun => assert(all[4] == v),
        GatewaySuspendBlockerKindSchema::Task => assert(all[5] == v),
        GatewaySuspendBlockerKindSchema::RootRequest => assert(all[6] == v),
        GatewaySuspendBlockerKindSchema::SessionAdmission => assert(all[7] == v),
        GatewaySuspendBlockerKindSchema::SessionMutation => assert(all[8] == v),
        GatewaySuspendBlockerKindSchema::ChatRun => assert(all[9] == v),
        GatewaySuspendBlockerKindSchema::QueuedTurn => assert(all[10] == v),
        GatewaySuspendBlockerKindSchema::TerminalPersistence => assert(all[11] == v),
        GatewaySuspendBlockerKindSchema::TerminalSession => assert(all[12] == v),
    }
}


/// The wire texts of `GatewaySuspendBlockerKindSchema` are distinct: parsing the text of a value
/// gives that value back, and a text that parses is the text of what it
/// parses to.
pub proof fn gateway_suspend_blocker_kind_schema_text_round_trip(v: GatewaySuspendBlockerKindSchema, s: Seq<char>)
    ensures
        GatewaySuspendBlockerKindSchema::spec_from_str(v.spec_as_str()) == Some(v),
        GatewaySuspendBlockerKindSchema::spec_from_str(s) matches Some(w) ==> w.spec_as_str() == s,
{
    reveal_strlit("queue");
    reveal_strlit("reply");
    reveal_strlit("embedded-run");
    reveal_strlit("background-exec");
    reveal_strlit("cron-run");
    reveal_strlit("task");
    reveal_strlit("root-request");
    reveal_strlit("session-admission");
    reveal_strlit("session-mutation");
    reveal_strlit("chat-run");
    reveal_strlit("queued-turn");
    reveal_strlit("terminal-persistence");
    reveal_strlit("terminal-session");
    assert("queue"@.len() == 5);
    assert("reply"@.len() == 5);
    assert("embedded-run"@.len() == 12);
    assert("background-exec"@.len() == 15);
    assert("cron-run"@.len() == 8);
    assert("task"@.len() == 4);
    assert("root-request"@.len() == 12);
    assert("session-admission"@.len() == 17);
    assert("session-mutation"@.len() == 16);
    assert("chat-run"@.len() == 8);
    assert("queued-turn"@.len() == 11);
    assert("terminal-persistence"@.len() == 20);
    assert("terminal-session"@.len() == 16);
    assert("queue"@[0] == 'q');
    assert("reply"@[0] == 'r');
    assert("embedded-run"@[0] == 'e');
    assert("root-request"@[0] == 'r');
    assert("cron-run"@[1] == 'r');
    assert("chat-run"@[1] == 'h');
    assert("session-mutation"@[0] == 's');
    assert("terminal-session"@[0] == 't');
}

/// Returns true when `s` is the wire text of a `GatewaySuspendBlockerKindSchema`.
pub fn is_valid_gateway_suspend_blocker_kind(s: &str) -> (r: bool)
    ensures
        r == GatewaySuspendBlockerKindSchema::spec_from_str(s@) is Some,
{
    GatewaySuspendBlockerKindSchema::from_str(s).is_some()
}

/// Why the gateway answered busy.
#[derive(Debug, Clone, Copy, PartialEq, Eq, Hash, Structural)]
pub enum GatewaySuspendBusyReasonSchema {
    ActiveWork,
    GatewayDraining,
}

impl GatewaySuspendBusyReasonSchema {
    /// The wire text of each variant.
    pub open spec fn spec_as_str(&self) -> Seq<char> {
        match self {
            GatewaySuspendBusyReasonSchema::ActiveWork => "active-work"@,
            GatewaySuspendBusyReasonSchema::GatewayDraining => "gateway-draining"@,
        }
    }

    /// The wire text of this value.
    pub fn as_str(&self) -> (r: &'static str)
        ensures
            r@ == self.spec_as_str(),
    {
        match self {
            GatewaySuspendBusyReasonSchema::ActiveWork => "active-work",
            GatewaySuspendBusyReasonSchema::GatewayDraining => "gateway-draining",
        }
    }

    /// The value whose wire text is `s`, if any.
    pub open spec fn spec_from_str(s: Seq<char>) -> Option<GatewaySuspendBusyReasonSchema> {
        if s == "active-work"@ {
            Some(GatewaySuspendBusyReasonSchema::ActiveWork)
        } else if s == "gateway-draining"@ {
            Some(GatewaySuspendBusyReasonSchema::GatewayDraining)
        } else {
            None
        }
    }

    /// Parses a wire text; `None` for unknown values.
    pub fn from_str(s: &str) -> (r: Option<GatewaySuspendBusyReasonSchema>)
        ensures
            r == GatewaySuspendBusyReasonSchema::spec_from_str(s@),
    {
        if str_eq(s, "active-work") {
            Some(GatewaySuspendBusyReasonSchema::ActiveWork)
        } else if str_eq(s, "gateway-draining") {
            Some(GatewaySuspendBusyReasonSchema::GatewayDraining)
        } else {
            None
        }
    }
}

/// The wire texts of `GatewaySuspendBusyReasonSchema` are distinct: parsing the text of a value
/// gives that value back, and a text that parses is the text of what it
/// parses to.
pub proof fn gateway_suspend_busy_reason_schema_text_round_trip(v: GatewaySuspendBusyReasonSchema, s: Seq<char>)
    ensures
        GatewaySuspendBusyReasonSchema::spec_from_str(v.spec_as_str()) == Some(v),
        GatewaySuspendBusyReasonSchema::spec_from_str(s) matches Some(w) ==> w.spec_as_str() == s,
{
    reveal_strlit("active-work");
    reveal_strlit("gateway-draining");
    assert("active-work"@.len() == 11);
    assert("gateway-draining"@.len() == 16);
}

/// Returns true when `s` is the wire text of a `GatewaySuspendBusyReasonSchema`.
pub fn is_valid_gateway_suspend_busy_reason(s: &str) -> (r: bool)
    ensures
        r == GatewaySuspendBusyReasonSchema::spec_from_str(s@) is Some,
{
    GatewaySuspendBusyReasonSchema::from_str(s).is_some()
}

/// Literal `"running"` status of a blocking task.
#[derive(Debug, Clone, Copy, PartialEq, Eq, Hash, Structural)]
pub enum GatewaySuspendTaskRunningStatus {
    Running,
}

impl Default for GatewaySuspendTaskRunningStatus {
    fn default() -> (r: Self)
        ensures
            r == GatewaySuspendTaskRunningStatus::Running,
    {
        GatewaySuspendTaskRunningStatus::Running
    }
}

/// A task that blocks suspension.
#[derive(Debug, Clone)]
pub struct GatewaySuspendTaskBlockerSchema {
    pub task_id: String,
    pub status: GatewaySuspendTaskRunningStatus,
    pub runtime: GatewaySuspendTaskRuntimeSchema,
    pub run_id: Option<String>,
    pub label: Option<String>,
    pub title: Option<String>,
}

impl GatewaySuspendTaskBlockerSchema {
    /// `taskId` non-empty and the runtime's wire text parses back.
    pub open spec fn check(&self) -> Outcome {
        also(
            non_empty("taskId"@, self.task_id@),
            reject(
                GatewaySuspendTaskRuntimeSchema::spec_from_str(self.runtime.spec_as_str()) is None,
                "runtime: invalid value: "@ + self.runtime.spec_as_str(),
            ),
        )
    }

    pub fn validate(&self) -> (r: Result<(), String>)
        ensures
            outcome(r) == self.check(),
    {
        let r = require_non_empty("taskId", self.task_id.as_str());
        if r.is_err() {
            return r;
        }
        if GatewaySuspendTaskRuntimeSchema::from_str(self.runtime.as_str()).is_none() {
            let mut m = String::from_str("runtime: invalid value: ");
            m.append(self.runtime.as_str());
            return Err(m);
        }
        Ok(())
    }
}

/// One blocker of suspension.
#[derive(Debug, Clone)]
pub struct GatewaySuspendBlockerSchema {
    pub kind: GatewaySuspendBlockerKindSchema,
    pub count: i64,
    pub message: NonEmptyString,
    pub task: Option<GatewaySuspendTaskBlockerSchema>,
}

impl GatewaySuspendBlockerSchema {
    /// `count >= 0`, `message` non-empty, then the task (`task: ...`).
    pub open spec fn check(&self) -> Outcome {
        also(non_negative_integer("count"@, self.count as int),
        also(non_empty("message"@, self.message@),
        match self.task {
            Some(t) => within("task: "@, t.check()),
            None => Ok(()),
        }))
    }

    pub fn validate(&self) -> (r: Result<(), String>)
        ensures
            outcome(r) == self.check(),
    {
        let r = require_non_negative_integer("count", self.count);
        if r.is_err() {
            return r;
        }
        let r = require_non_empty("message", self.message.as_str());
        if r.is_err() {
            return r;
        }
        if let Some(task) = &self.task {
            return crate::checks::prefixed("task: ", task.validate());
        }
        Ok(())
    }
}

impl Checked for GatewaySuspendBlockerSchema {
    open spec fn checks(&self) -> Outcome {
        self.check()
    }

    fn run_checks(&self) -> (r: Result<(), String>) {
        self.validate()
    }
}

/// Parameters of `gateway.suspend.prepare`.
#[derive(Debug, Clone)]
pub struct GatewaySuspendPrepareParamsSchema {
    pub request_id: String,
}

impl GatewaySuspendPrepareParamsSchema {
    /// `requestId` is a suspension token.
    pub open spec fn check(&self) -> Outcome {
        suspension_token("requestId"@, self.request_id@)
    }

    pub fn validate(&self) -> (r: Result<(), String>)
        ensures
            outcome(r) == self.check(),
    {
        validate_suspension_token("requestId", self.request_id.as_str())
    }
}

/// Literal `"busy"` status.
#[derive(Debug, Clone, Copy, PartialEq, Eq, Hash, Structural)]
pub enum GatewaySuspendBusyStatus {
    Busy,
}

impl Default for GatewaySuspendBusyStatus {
    fn default() -> (r: Self)
        ensures
            r == GatewaySuspendBusyStatus::Busy,
    {
        GatewaySuspendBusyStatus::Busy
    }
}

/// Busy answer to `gateway.suspend.prepare`.
#[derive(Debug, Clone)]
pub struct GatewaySuspendPrepareBusyResultSchema {
    pub status: GatewaySuspendBusyStatus,
    pub reason: GatewaySuspendBusyReasonSchema,
    pub retry_after_ms: i64,
    pub active_count: i64,
    pub blockers: Vec<GatewaySuspendBlockerSchema>,
}

impl GatewaySuspendPrepareBusyResultSchema {
    /// Counters non-negative, every blocker valid (`blockers[i]: ...`).
    pub open spec fn check(&self) -> Outcome {
        also(non_negative_integer("retryAfterMs"@, self.retry_after_ms as int),
        also(non_negative_integer("activeCount"@, self.active_count as int),
        each_checked("blockers"@, self.blockers@, 0)))
    }

    pub fn validate(&self) -> (r: Result<(), String>)
        ensures
            outcome(r) == self.check(),
    {
        let r = require_non_negative_integer("retryAfterMs", self.retry_after_ms);
        if r.is_err() {
            return r;
        }
        let r = require_non_negative_integer("activeCount", self.active_count);
        if r.is_err() {
            return r;
        }
        validate_each("blockers", &self.blockers)
    }
}

/// Literal `"ready"` status of a prepare result.
#[derive(Debug, Clone, Copy, PartialEq, Eq, Hash, Structural)]
pub enum GatewaySuspendPrepareReadyStatus {
    Ready,
}

impl Default for GatewaySuspendPrepareReadyStatus {
    fn default() -> (r: Self)
        ensures
            r == GatewaySuspendPrepareReadyStatus::Ready,
    {
        GatewaySuspendPrepareReadyStatus::Ready
    }
}

/// Ready answer to `gateway.suspend.prepare`.
#[derive(Debug, Clone)]
pub struct GatewaySuspendPrepareReadyResultSchema {
    pub status: GatewaySuspendPrepareReadyStatus,
    pub suspension_id: String,
    pub expires_at_ms: i64,
    pub active_count: i64,
    pub blockers: Vec<GatewaySuspendBlockerSchema>,
}

impl GatewaySuspendPrepareReadyResultSchema {
    /// `suspensionId` a token, counters non-negative, every blocker valid.
    pub open spec fn check(&self) -> Outcome {
        also(suspension_token("suspensionId"@, self.suspension_id@),
        also(non_negative_integer("expiresAtMs"@, self.expires_at_ms as int),
        also(non_negative_integer("activeCount"@, self.active_count as int),
        each_checked("blockers"@, self.blockers@, 0))))
    }

    pub fn validate(&self) -> (r: Result<(), String>)
        ensures
            outcome(r) == self.check(),
    {
        let r = validate_suspension_token("suspensionId", self.suspension_id.as_str());
        if r.is_err() {
            return r;
        }
        let r = require_non_negative_integer("expiresAtMs", self.expires_at_ms);
        if r.is_err() {
            return r;
        }
        let r = require_non_negative_integer("activeCount", self.active_count);
        if r.is_err() {
            return r;
        }
        validate_each("blockers", &self.blockers)
    }
}

/// Result of `gateway.suspend.prepare`.
#[derive(Debug, Clone)]
pub enum GatewaySuspendPrepareResultSchema {
    Busy(GatewaySuspendPrepareBusyResultSchema),
    Ready(GatewaySuspendPrepareReadyResultSchema),
}

impl GatewaySuspendPrepareResultSchema {
    /// The check of the variant held.
    pub open spec fn check(&self) -> Outcome {
        match self {
            GatewaySuspendPrepareResultSchema::Busy(b) => b.check(),
            GatewaySuspendPrepareResultSchema::Ready(r) => r.check(),
        }
    }

    pub fn validate(&self) -> (r: Result<(), String>)
        ensures
            outcome(r) == self.check(),
    {
        match self {
            GatewaySuspendPrepareResultSchema::Busy(b) => b.validate(),
            GatewaySuspendPrepareResultSchema::Ready(r) => r.validate(),
        }
    }
}

/// Parameters of `gateway.suspend.status` (and `.resume`).
#[derive(Debug, Clone)]
pub struct GatewaySuspendStatusParamsSchema {
    pub suspension_id: String,
}

impl GatewaySuspendStatusParamsSchema {
    /// `suspensionId` is a suspension token.
    pub open spec fn check(&self) -> Outcome {
        suspension_token("suspensionId"@, self.suspension_id@)
    }

    pub fn validate(&self) -> (r: Result<(), String>)
        ensures
            outcome(r) == self.check(),
    {
        validate_suspension_token("suspensionId", self.suspension_id.as_str())
    }
}

/// Literal `"running"` status of a status result.
#[derive(Debug, Clone, Copy, PartialEq, Eq, Hash, Structural)]
pub enum GatewaySuspendStatusRunningStatus {
    Running,
}

impl Default for GatewaySuspendStatusRunningStatus {
    fn default() -> (r: Self)
        ensures
            r == GatewaySuspendStatusRunningStatus::Running,
    {
        GatewaySuspendStatusRunningStatus::Running
    }
}

/// Status answer: the gateway is running.
#[derive(Debug, Clone, Default)]
pub struct GatewaySuspendStatusRunningResultSchema {
    pub status: GatewaySuspendStatusRunningStatus,
}

/// Literal `"ready"` status of a status result.
#[derive(Debug, Clone, Copy, PartialEq, Eq, Hash, Structural)]
pub enum GatewaySuspendStatusReadyStatus {
    Ready,
}

impl Default for GatewaySuspendStatusReadyStatus {
    fn default() -> (r: Self)
        ensures
            r == GatewaySuspendStatusReadyStatus::Ready,
    {
        GatewaySuspendStatusReadyStatus::Ready
    }
}

/// Status answer: the gateway is ready to suspend until `expiresAtMs`.
#[derive(Debug, Clone)]
pub struct GatewaySuspendStatusReadyResultSchema {
    pub status: GatewaySuspendStatusReadyStatus,
    pub expires_at_ms: i64,
}

impl GatewaySuspendStatusReadyResultSchema {
    /// `expiresAtMs >= 0`.
    pub open spec fn check(&self) -> Outcome {
        non_negative_integer("expiresAtMs"@, self.expires_at_ms as int)
    }

    pub fn validate(&self) -> (r: Result<(), String>)
        ensures
            outcome(r) == self.check(),
    {
        require_non_negative_integer("expiresAtMs", self.expires_at_ms)
    }
}

/// Result of `gateway.suspend.status`.
#[derive(Debug, Clone)]
pub enum GatewaySuspendStatusResultSchema {
    Running(GatewaySuspendStatusRunningResultSchema),
    Ready(GatewaySuspendStatusReadyResultSchema),
}

impl GatewaySuspendStatusResultSchema {
    /// A running answer is valid; a ready one checks its expiry.
    pub open spec fn check(&self) -> Outcome {
        match self {
            GatewaySuspendStatusResultSchema::Running(_) => Ok(()),
            GatewaySuspendStatusResultSchema::Ready(r) => r.check(),
        }
    }

    pub fn validate(&self) -> (r: Result<(), String>)
        ensures
            outcome(r) == self.check(),
    {
        match self {
            GatewaySuspendStatusResultSchema::Running(_) => Ok(()),
            GatewaySuspendStatusResultSchema::Ready(r) => r.validate(),
        }
    }
}

pub type GatewaySuspendResumeParamsSchema = GatewaySuspendStatusParamsSchema;

/// Literal `"running"` status of a resume result.
#[derive(Debug, Clone, Copy, PartialEq, Eq, Hash, Structural)]
pub enum GatewaySuspendResumeRunningStatus {
    Running,
}

impl Default for GatewaySuspendResumeRunningStatus {
    fn default() -> (r: Self)
        ensures
            r == GatewaySuspendResumeRunningStatus::Running,
    {
        GatewaySuspendResumeRunningStatus::Running
    }
}

/// Result of `gateway.suspend.resume`.
#[derive(Debug, Clone)]
pub struct GatewaySuspendResumeResultSchema {
    pub ok: bool,
    pub status: GatewaySuspendResumeRunningStatus,
    pub resumed: bool,
}

impl GatewaySuspendResumeResultSchema {
    /// `ok` must be the literal `true`.
    pub open spec fn check(&self) -> Outcome {
        reject(!self.ok, "ok: expected literal true, got false"@)
    }

    pub fn validate(&self) -> (r: Result<(), String>)
        ensures
            outcome(r) == self.check(),
    {
        if !self.ok {
            return Err(String::from_str("ok: expected literal true, got false"));
        }
        Ok(())
    }
}

pub type GatewaySuspendTaskBlocker = GatewaySuspendTaskBlockerSchema;
pub type GatewaySuspendBlocker = GatewaySuspendBlockerSchema;
pub type GatewaySuspendPrepareParams = GatewaySuspendPrepareParamsSchema;
pub type GatewaySuspendPrepareResult = GatewaySuspendPrepareResultSchema;
pub type GatewaySuspendStatusParams = GatewaySuspendStatusParamsSchema;
pub type GatewaySuspendStatusResult = GatewaySuspendStatusResultSchema;
pub type GatewaySuspendResumeParams = GatewaySuspendResumeParamsSchema;
pub type GatewaySuspendResumeResult = GatewaySuspendResumeResultSchema;

// ---------------------------------------------------------------------------
// What each schema accepts
// ---------------------------------------------------------------------------

/// A `GatewaySuspendTaskBlockerSchema` passes validation exactly when every condition below holds;
/// a value that breaks one is rejected.
pub proof fn gateway_suspend_task_blocker_schema_accepts(x: GatewaySuspendTaskBlockerSchema)
    ensures
        x.check() is Ok <==> {
            &&& x.task_id@.len() > 0
            &&& !(GatewaySuspendTaskRuntimeSchema::spec_from_str(x.runtime.spec_as_str()) is None)
        },
{
}

/// A `GatewaySuspendBlockerSchema` passes validation exactly when every condition below holds;
/// a value that breaks one is rejected.
pub proof fn gateway_suspend_blocker_schema_accepts(x: GatewaySuspendBlockerSchema)
    ensures
        x.check() is Ok <==> {
            &&& x.count as int >= 0
            &&& x.message@.len() > 0
            &&& (x.task matches Some(t) ==> t.check() is Ok)
        },
{
}

/// A `GatewaySuspendPrepareBusyResultSchema` passes validation exactly when every condition below holds;
/// a value that breaks one is rejected.
pub proof fn gateway_suspend_prepare_busy_result_schema_accepts(x: GatewaySuspendPrepareBusyResultSchema)
    ensures
        x.check() is Ok <==> {
            &&& x.retry_after_ms as int >= 0
            &&& x.active_count as int >= 0
            &&& (forall|k: int| 0 <= k < x.blockers@.len() ==> (#[trigger] x.blockers@[k]).checks() is Ok)
        },
{
    crate::checks::each_checked_first_failure("blockers"@, x.blockers@, 0);
}

/// A `GatewaySuspendStatusReadyResultSchema` passes validation exactly when every condition below holds;
/// a value that breaks one is rejected.
pub proof fn gateway_suspend_status_ready_result_schema_accepts(x: GatewaySuspendStatusReadyResultSchema)
    ensures
        x.check() is Ok <==> {
            &&& x.expires_at_ms as int >= 0
        },
{
}

/// A `GatewaySuspendPrepareParamsSchema` passes validation exactly when every condition below holds;
/// a value that breaks one is rejected.
pub proof fn gateway_suspend_prepare_params_schema_accepts(x: GatewaySuspendPrepareParamsSchema)
    ensures
        x.check() is Ok <==> {
            &&& (1 <= x.request_id@.len() <= 128 && !has_white_space(x.request_id@))
        },
{
}

/// A `GatewaySuspendPrepareReadyResultSchema` passes validation exactly when every condition below holds;
/// a value that breaks one is rejected.
pub proof fn gateway_suspend_prepare_ready_result_schema_accepts(x: GatewaySuspendPrepareReadyResultSchema)
    ensures
        x.check() is Ok <==> {
            &&& (1 <= x.suspension_id@.len() <= 128 && !has_white_space(x.suspension_id@))
            &&& x.expires_at_ms as int >= 0
            &&& x.active_count as int >= 0
            &&& (forall|k: int| 0 <= k < x.blockers@.len() ==> (#[trigger] x.blockers@[k]).checks() is Ok)
        },
{
    crate::checks::each_checked_first_failure("blockers"@, x.blockers@, 0);
}

/// A `GatewaySuspendStatusParamsSchema` passes validation exactly when every condition below holds;
/// a value that breaks one is rejected.
pub proof fn gateway_suspend_status_params_schema_accepts(x: GatewaySuspendStatusParamsSchema)
    ensures
        x.check() is Ok <==> {
            &&& (1 <= x.suspension_id@.len() <= 128 && !has_white_space(x.suspension_id@))
        },
{
}

/// A `GatewaySuspendResumeResultSchema` passes validation exactly when every condition below holds;
/// a value that breaks one is rejected.
pub proof fn gateway_suspend_resume_result_schema_accepts(x: GatewaySuspendResumeResultSchema)
    ensures
        x.check() is Ok <==> {
            &&& !(!x.ok)
        },
{
}

/// A prepare result passes validation exactly when the busy or ready answer it
/// holds passes its own validation.
pub proof fn gateway_suspend_prepare_result_schema_accepts(x: GatewaySuspendPrepareResultSchema)
    ensures
        x.check() is Ok <==> match x {
            GatewaySuspendPrepareResultSchema::Busy(b) => b.check() is Ok,
            GatewaySuspendPrepareResultSchema::Ready(r) => r.check() is Ok,
        },
{
}

/// A status result passes validation exactly when it is a running answer or a
/// ready answer that passes its own validation.
pub proof fn gateway_suspend_status_result_schema_accepts(x: GatewaySuspendStatusResultSchema)
    ensures
        x.check() is Ok <==> (x matches GatewaySuspendStatusResultSchema::Ready(r) ==> r.check() is Ok),
{
}

} // verus!
