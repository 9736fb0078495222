//! Cron scheduler protocol schemas: scheduled agent turns, system events,
//! delivery routing, run history and mutable job state shared by gateway RPC
//! clients.
use vstd::prelude::*;
use crate::checks::{
    also, count_in, each_checked, each_non_empty, int_at_least, int_in, non_empty, opt_int_at_least,
    opt_int_in, opt_non_empty, outcome, prefixed, reject, require_count_in, require_each_non_empty,
    require_non_empty, require_opt_int_at_least, require_opt_int_in, require_opt_non_empty,
    validate_each, within, Checked, Outcome,
};
use crate::json::NumberValue;
use crate::primitives::NonEmptyString;
use crate::text::{
    debug_text, decimal, has_non_white_space, i64_text, starts_with, str_debug, str_eq, str_has_non_white_space,
    str_starts_with,
};

verus! {

// ===========================================================================
// Bounds and patterns
// ===========================================================================

pub const CRON_CONFIG_REVISION_MAX_LENGTH: usize = 128;
pub const CRON_CONFIG_REVISION_MIN_LENGTH: usize = 1;

pub const CRON_DECLARATION_KEY_MAX_LENGTH: usize = 200;
pub const CRON_DECLARATION_KEY_MIN_LENGTH: usize = 1;

pub const CRON_DISPLAY_NAME_MAX_LENGTH: usize = 200;
pub const CRON_DISPLAY_NAME_MIN_LENGTH: usize = 1;

pub const CRON_TRIGGER_SCRIPT_MAX_LENGTH: usize = 65536;
pub const CRON_TRIGGER_SCRIPT_MIN_LENGTH: usize = 1;

pub const CRON_DESCRIPTION_MAX_LENGTH: usize = 1024;

pub const CRON_TEXT_MAX_LENGTH: usize = 2048;

/// NonBlankString: at least one character and a match of `\S`.
pub const NON_BLANK_STRING_PATTERN: &'static str = "\\S";
pub const NON_BLANK_STRING_MIN_LENGTH: usize = 1;

pub const CRON_LIST_LIMIT_MAX: i64 = 200;
pub const CRON_LIST_LIMIT_MIN: i64 = 1;

pub const CRON_LIST_OFFSET_MIN: i64 = 0;

pub const CRON_RUNS_STATUS_FILTER_MAX: usize = 3;
pub const CRON_RUNS_STATUS_FILTER_MIN: usize = 1;

pub const CRON_DELIVERY_STATUS_FILTER_MAX: usize = 4;
pub const CRON_DELIVERY_STATUS_FILTER_MIN: usize = 1;

pub const CRON_REPLACE_PATHS_MAX_ITEMS: usize = 256;

/// Run-log job id: at least one character, none of them `/` or `\`.
pub const CRON_RUN_LOG_JOB_ID_PATTERN: &'static str = "^[^/\\\\]+$";
pub const CRON_RUN_LOG_JOB_ID_MIN_LENGTH: usize = 1;

// ===========================================================================
// Validation primitives
// ===========================================================================

/// An integer must be `>= 0`: `field: expected >= 0, got n`.
pub open spec fn non_negative(field: Seq<char>, n: int) -> Outcome {
    reject(n < 0, field + ": expected >= 0, got "@ + decimal(n))
}

/// An optional integer must be `>= 0` when present.
pub open spec fn opt_non_negative(field: Seq<char>, n: Option<i64>) -> Outcome {
    match n {
        Some(v) => non_negative(field, v as int),
        None => Ok(()),
    }
}

fn validate_non_negative_integer(field: &str, value: i64) -> (r: Result<(), String>)
    ensures
        outcome(r) == non_negative(field@, value as int),
{
    if value < 0 {
        let digits = i64_text(value);
        let mut m = String::from_str(field);
        m.append(": expected >= 0, got ");
        m.append(digits.as_str());
        return Err(m);
    }
    Ok(())
}

fn validate_opt_non_negative_integer(field: &str, value: Option<i64>) -> (r: Result<(), String>)
    ensures
        outcome(r) == opt_non_negative(field@, value),
{
    match value {
        Some(v) => validate_non_negative_integer(field, v),
        None => Ok(()),
    }
}

/// NonBlankString: non-empty, then at least one non-white-space character.
pub open spec fn non_blank(field: Seq<char>, value: Seq<char>) -> Outcome {
    also(
        reject(
            value.len() < 1,
            field + ": expected non-blank string (>= 1 char), got "@ + str_debug(value),
        ),
        reject(
            !has_non_white_space(value),
            field + ": expected string matching "@ + str_debug("\\S"@) + ", got "@ + str_debug(value),
        ),
    )
}

/// An optional NonBlankString.
pub open spec fn opt_non_blank(field: Seq<char>, value: Option<String>) -> Outcome {
    match value {
        Some(s) => non_blank(field, s@),
        None => Ok(()),
    }
}

fn validate_non_blank_string(field: &str, value: &str) -> (r: Result<(), String>)
    ensures
        outcome(r) == non_blank(field@, value@),
{
    if value.is_empty() {
        let shown = debug_text(value);
        let mut m = String::from_str(field);
        m.append(": expected non-blank string (>= 1 char), got ");
        m.append(shown.as_str());
        return Err(m);
    }
    if !str_has_non_white_space(value) {
        let pattern = debug_text(NON_BLANK_STRING_PATTERN);
        let shown = debug_text(value);
        let mut m = String::from_str(field);
        m.append(": expected string matching ");
        m.append(pattern.as_str());
        m.append(", got ");
        m.append(shown.as_str());
        return Err(m);
    }
    Ok(())
}

fn validate_opt_non_blank_string(field: &str, value: &Option<String>) -> (r: Result<(), String>)
    ensures
        outcome(r) == opt_non_blank(field@, *value),
{
    match value {
        Some(s) => validate_non_blank_string(field, s.as_str()),
        None => Ok(()),
    }
}

/// A string whose length in characters lies in `[min, max]`.
pub open spec fn bounded(field: Seq<char>, value: Seq<char>, min: int, max: int) -> Outcome {
    count_in(field, ": expected length ["@, value.len() as int, min, max, "], got "@)
}

fn validate_bounded_string(field: &str, value: &str, min: usize, max: usize) -> (r: Result<(), String>)
    ensures
        outcome(r) == bounded(field@, value@, min as int, max as int),
{
    require_count_in(field, ": expected length [", value.unicode_len(), min, max, "], got ")
}

// ===========================================================================
// Cron grammars
// ===========================================================================

/// Declaration key: 1..=200 characters, at least one not white space.
pub open spec fn is_cron_declaration_key(key: Seq<char>) -> bool {
    CRON_DECLARATION_KEY_MIN_LENGTH <= key.len() <= CRON_DECLARATION_KEY_MAX_LENGTH
        && has_non_white_space(key)
}

/// Returns true when `key` matches the cron declaration-key grammar.
pub fn is_valid_cron_declaration_key(key: &str) -> (r: bool)
    ensures
        r == is_cron_declaration_key(key@),
{
    let len = key.unicode_len();
    if len < CRON_DECLARATION_KEY_MIN_LENGTH || len > CRON_DECLARATION_KEY_MAX_LENGTH {
        return false;
    }
    str_has_non_white_space(key)
}

/// Display name: 1..=200 characters, at least one not white space.
pub open spec fn is_cron_display_name(name: Seq<char>) -> bool {
    CRON_DISPLAY_NAME_MIN_LENGTH <= name.len() <= CRON_DISPLAY_NAME_MAX_LENGTH
        && has_non_white_space(name)
}

/// Returns true when `name` matches the cron display-name grammar.
pub fn is_valid_cron_display_name(name: &str) -> (r: bool)
    ensures
        r == is_cron_display_name(name@),
{
    let len = name.unicode_len();
    if len < CRON_DISPLAY_NAME_MIN_LENGTH || len > CRON_DISPLAY_NAME_MAX_LENGTH {
        return false;
    }
    str_has_non_white_space(name)
}

/// Run-log job id: at least one character and no `/` or `\`.
pub open spec fn is_cron_run_log_job_id(id: Seq<char>) -> bool {
    id.len() >= CRON_RUN_LOG_JOB_ID_MIN_LENGTH
        && forall|i: int| 0 <= i < id.len() ==> #[trigger] id[i] != '/' && id[i] != '\\'
}

/// Returns true when `id` matches the cron run-log job id grammar.
pub fn is_valid_cron_run_log_job_id(id: &str) -> (r: bool)
    ensures
        r == is_cron_run_log_job_id(id@),
{
    let n = id.unicode_len();
    if n < CRON_RUN_LOG_JOB_ID_MIN_LENGTH {
        return false;
    }
    let mut i: usize = 0;
    while i < n
        invariant
            n == id@.len(),
            i <= n,
            forall|j: int| 0 <= j < i ==> #[trigger] id@[j] != '/' && id@[j] != '\\',
        decreases n - i,
    {
        let c = id.get_char(i);
        if c == '/' || c == '\\' {
            return false;
        }
        i = i + 1;
    }
    true
}

/// Config revision: 1..=128 characters.
pub open spec fn is_cron_config_revision(rev: Seq<char>) -> bool {
    CRON_CONFIG_REVISION_MIN_LENGTH <= rev.len() <= CRON_CONFIG_REVISION_MAX_LENGTH
}

/// Returns true when `rev` fits the cron config-revision bounds.
pub fn is_valid_cron_config_revision(rev: &str) -> (r: bool)
    ensures
        r == is_cron_config_revision(rev@),
{
    let len = rev.unicode_len();
    len >= CRON_CONFIG_REVISION_MIN_LENGTH && len <= CRON_CONFIG_REVISION_MAX_LENGTH
}

// ===========================================================================
// CronSessionTargetSchema: "main" | "isolated" | "current" | "session:<anything>"
// ===========================================================================

/// Session target accepted by cron jobs.
#[derive(Debug, Clone)]
pub enum CronSessionTargetSchema {
    Main,
    Isolated,
    Current,
    /// Matches the `session:<anything>` pattern.
    Other(String),
}

impl CronSessionTargetSchema {
    /// The wire text of this target.
    pub open spec fn spec_as_str(&self) -> Seq<char> {
        match self {
            CronSessionTargetSchema::Main => "main"@,
            CronSessionTargetSchema::Isolated => "isolated"@,
            CronSessionTargetSchema::Current => "current"@,
            CronSessionTargetSchema::Other(s) => s@,
        }
    }

    /// The wire text of this target.
    pub fn as_str(&self) -> (r: &str)
        ensures
            r@ == self.spec_as_str(),
    {
        match self {
            CronSessionTargetSchema::Main => "main",
            CronSessionTargetSchema::Isolated => "isolated",
            CronSessionTargetSchema::Current => "current",
            CronSessionTargetSchema::Other(s) => s.as_str(),
        }
    }
}

/// A line terminator, which `.` in a schema pattern does not match.
pub open spec fn is_line_terminator(c: char) -> bool {
    c == '\n' || c == '\r' || c == '\u{2028}' || c == '\u{2029}'
}

/// `^session:.+`: the text `session:` followed by at least one character
/// that is not a line terminator.
pub open spec fn is_session_target_text(s: Seq<char>) -> bool {
    starts_with(s, "session:"@) && s.len() > 8 && !is_line_terminator(s[8])
}

impl CronSessionTargetSchema {
    /// The literal targets pass; any other text must match `^session:.+`.
    pub open spec fn check(&self) -> Outcome {
        match self {
            CronSessionTargetSchema::Other(s) => reject(
                !is_session_target_text(s@),
                "expected string matching ^session:.+, got "@ + str_debug(s@),
            ),
            _ => Ok(()),
        }
    }
}

fn validate_session_target(target: &CronSessionTargetSchema) -> (r: Result<(), String>)
    ensures
        outcome(r) == target.check(),
{
    match target {
        CronSessionTargetSchema::Other(s) => {
            let text = s.as_str();
            proof {
                reveal_strlit("session:");
            }
            let ok = str_starts_with(text, "session:") && text.unicode_len() > 8 && {
                let c = text.get_char(8);
                !(c == '\n' || c == '\r' || c == '\u{2028}' || c == '\u{2029}')
            };
            if ok {
                Ok(())
            } else {
                let shown = debug_text(text);
                let mut m = String::from_str("expected string matching ^session:.+, got ");
                m.append(shown.as_str());
                Err(m)
            }
        },
        _ => Ok(()),
    }
}

/// Deprecated `lastRunStatus` alias; identical at runtime.
pub type DeprecatedCronRunStatusSchema = CronRunStatusSchema;

/// Closed enumeration for `statuses[]` element values.
pub type CronRunsStatusValueSchema = CronRunStatusSchema;

/// NonBlankString alias.
pub type NonBlankString = String;

/// Declaration key alias.
pub type CronDeclarationKeySchema = String;

/// Display name alias.
pub type CronDisplayNameSchema = String;

/// Config revision alias.
pub type CronConfigRevisionSchema = String;

/// Run-log job id alias.
pub type CronRunLogJobIdSchema = String;

/// Whether a cron job waits for heartbeat processing or wakes immediately.
#[derive(Debug, Clone, Copy, PartialEq, Eq, Hash, Structural)]
pub enum CronWakeModeSchema {
    NextHeartbeat,
    Now,
}

impl CronWakeModeSchema {
    /// The wire text of each variant.
    pub open spec fn spec_as_str(&self) -> Seq<char> {
        match self {
            CronWakeModeSchema::NextHeartbeat => "next-heartbeat"@,
            CronWakeModeSchema::Now => "now"@,
        }
    }

    /// The wire text of this value.
    pub fn as_str(&self) -> (r: &'static str)
        ensures
            r@ == self.spec_as_str(),
    {
        match self {
            CronWakeModeSchema::NextHeartbeat => "next-heartbeat",
            CronWakeModeSchema::Now => "now",
        }
    }

    /// The value whose wire text is `s`, if any.
    pub open spec fn spec_from_str(s: Seq<char>) -> Option<CronWakeModeSchema> {
        if s == "next-heartbeat"@ {
            Some(CronWakeModeSchema::NextHeartbeat)
        } else if s == "now"@ {
            Some(CronWakeModeSchema::Now)
        } else {
            None
        }
    }

    /// Parses a wire text; `None` for unknown values.
    pub fn from_str(s: &str) -> (r: Option<CronWakeModeSchema>)
        ensures
            r == CronWakeModeSchema::spec_from_str(s@),
    {
        if str_eq(s, "next-heartbeat") {
            Some(CronWakeModeSchema::NextHeartbeat)
        } else if str_eq(s, "now") {
            Some(CronWakeModeSchema::Now)
        } else {
            None
        }
    }
}

/// The wire texts of `CronWakeModeSchema` are distinct: parsing the text of a value
/// gives that value back, and a text that parses is the text of what it
/// parses to.
pub proof fn cron_wake_mode_schema_text_round_trip(v: CronWakeModeSchema, s: Seq<char>)
    ensures
        CronWakeModeSchema::spec_from_str(v.spec_as_str()) == Some(v),
        CronWakeModeSchema::spec_from_str(s) matches Some(w) ==> w.spec_as_str() == s,
{
    reveal_strlit("next-heartbeat");
    reveal_strlit("now");
    assert("next-heartbeat"@.len() == 14);
    assert("now"@.len() == 3);
}

/// Returns true when `s` is the wire text of a `CronWakeModeSchema`.
pub fn is_valid_cron_wake_mode(s: &str) -> (r: bool)
    ensures
        r == CronWakeModeSchema::spec_from_str(s@) is Some,
{
    CronWakeModeSchema::from_str(s).is_some()
}

/// Outcome of one cron run.
#[derive(Debug, Clone, Copy, PartialEq, Eq, Hash, Structural)]
pub enum CronRunStatusSchema {
    Succeeded,
    Error,
    Skipped,
}

impl CronRunStatusSchema {
    /// The wire text of each variant.
    pub open spec fn spec_as_str(&self) -> Seq<char> {
        match self {
            CronRunStatusSchema::Succeeded => "ok"@,
            CronRunStatusSchema::Error => "error"@,
            CronRunStatusSchema::Skipped => "skipped"@,
        }
    }

    /// The wire text of this value.
    pub fn as_str(&self) -> (r: &'static str)
        ensures
            r@ == self.spec_as_str(),
    {
        match self {
            CronRunStatusSchema::Succeeded => "ok",
            CronRunStatusSchema::Error => "error",
            CronRunStatusSchema::Skipped => "skipped",
        }
    }

    /// The value whose wire text is `s`, if any.
    pub open spec fn spec_from_str(s: Seq<char>) -> Option<CronRunStatusSchema> {
        if s == "ok"@ {
            Some(CronRunStatusSchema::Succeeded)
        } else if s == "error"@ {
            Some(CronRunStatusSchema::Error)
        } else if s == "skipped"@ {
            Some(CronRunStatusSchema::Skipped)
        } else {
            None
        }
    }

    /// Parses a wire text; `None` for unknown values.
    pub fn from_str(s: &str) -> (r: Option<CronRunStatusSchema>)
        ensures
            r == CronRunStatusSchema::spec_from_str(s@),
    {
        if str_eq(s, "ok") {
            Some(CronRunStatusSchema::Succeeded)
        } else if str_eq(s, "error") {
            Some(CronRunStatusSchema::Error)
        } else if str_eq(s, "skipped") {
            Some(CronRunStatusSchema::Skipped)
        } else {
            None
        }
    }
}

/// The wire texts of `CronRunStatusSchema` are distinct: parsing the text of a value
/// gives that value back, and a text that parses is the text of what it
/// parses to.
pub proof fn cron_run_status_schema_text_round_trip(v: CronRunStatusSchema, s: Seq<char>)
    ensures
        CronRunStatusSchema::spec_from_str(v.spec_as_str()) == Some(v),
        CronRunStatusSchema::spec_from_str(s) matches Some(w) ==> w.spec_as_str() == s,
{
    reveal_strlit("ok");
    reveal_strlit("error");
    reveal_strlit("skipped");
    assert("ok"@.len() == 2);
    assert("error"@.len() == 5);
    assert("skipped"@.len() == 7);
}

/// Returns true when `s` is the wire text of a `CronRunStatusSchema`.
pub fn is_valid_cron_run_status(s: &str) -> (r: bool)
    ensures
        r == CronRunStatusSchema::spec_from_str(s@) is Some,
{
    CronRunStatusSchema::from_str(s).is_some()
}

/// Sort direction of cron listings.
#[derive(Debug, Clone, Copy, PartialEq, Eq, Hash, Structural)]
pub enum CronSortDirSchema {
    Asc,
    Desc,
}

impl CronSortDirSchema {
    /// The wire text of each variant.
    pub open spec fn spec_as_str(&self) -> Seq<char> {
        match self {
            CronSortDirSchema::Asc => "asc"@,
            CronSortDirSchema::Desc => "desc"@,
        }
    }

    /// The wire text of this value.
    pub fn as_str(&self) -> (r: &'static str)
        ensures
            r@ == self.spec_as_str(),
    {
        match self {
            CronSortDirSchema::Asc => "asc",
            CronSortDirSchema::Desc => "desc",
        }
    }

    /// The value whose wire text is `s`, if any.
    pub open spec fn spec_from_str(s: Seq<char>) -> Option<CronSortDirSchema> {
        if s == "asc"@ {
            Some(CronSortDirSchema::Asc)
        } else if s == "desc"@ {
            Some(CronSortDirSchema::Desc)
        } else {
            None
        }
    }

    /// Parses a wire text; `None` for unknown values.
    pub fn from_str(s: &str) -> (r: Option<CronSortDirSchema>)
        ensures
            r == CronSortDirSchema::spec_from_str(s@),
    {
        if str_eq(s, "asc") {
            Some(CronSortDirSchema::Asc)
        } else if str_eq(s, "desc") {
            Some(CronSortDirSchema::Desc)
        } else {
            None
        }
    }
}

/// The wire texts of `CronSortDirSchema` are distinct: parsing the text of a value
/// gives that value back, and a text that parses is the text of what it
/// parses to.
pub proof fn cron_sort_dir_schema_text_round_trip(v: CronSortDirSchema, s: Seq<char>)
    ensures
        CronSortDirSchema::spec_from_str(v.spec_as_str()) == Some(v),
        CronSortDirSchema::spec_from_str(s) matches Some(w) ==> w.spec_as_str() == s,
{
    reveal_strlit("asc");
    reveal_strlit("desc");
    assert("asc"@.len() == 3);
    assert("desc"@.len() == 4);
}

/// Returns true when `s` is the wire text of a `CronSortDirSchema`.
pub fn is_valid_cron_sort_dir(s: &str) -> (r: bool)
    ensures
        r == CronSortDirSchema::spec_from_str(s@) is Some,
{
    CronSortDirSchema::from_str(s).is_some()
}

/// Filter of cron job listings by enabled state.
#[derive(Debug, Clone, Copy, PartialEq, Eq, Hash, Structural)]
pub enum CronJobsEnabledFilterSchema {
    All,
    Enabled,
    Disabled,
}

impl CronJobsEnabledFilterSchema {
    /// The wire text of each variant.
    pub open spec fn spec_as_str(&self) -> Seq<char> {
        match self {
            CronJobsEnabledFilterSchema::All => "all"@,
            CronJobsEnabledFilterSchema::Enabled => "enabled"@,
            CronJobsEnabledFilterSchema::Disabled => "disabled"@,
        }
    }

    /// The wire text of this value.
    pub fn as_str(&self) -> (r: &'static str)
        ensures
            r@ == self.spec_as_str(),
    {
        match self {
            CronJobsEnabledFilterSchema::All => "all",
            CronJobsEnabledFilterSchema::Enabled => "enabled",
            CronJobsEnabledFilterSchema::Disabled => "disabled",
        }
    }

    /// The value whose wire text is `s`, if any.
    pub open spec fn spec_from_str(s: Seq<char>) -> Option<CronJobsEnabledFilterSchema> {
        if s == "all"@ {
            Some(CronJobsEnabledFilterSchema::All)
        } else if s == "enabled"@ {
            Some(CronJobsEnabledFilterSchema::Enabled)
        } else if s == "disabled"@ {
            Some(CronJobsEnabledFilterSchema::Disabled)
        } else {
            None
        }
    }

    /// Parses a wire text; `None` for unknown values.
    pub fn from_str(s: &str) -> (r: Option<CronJobsEnabledFilterSchema>)
        ensures
            r == CronJobsEnabledFilterSchema::spec_from_str(s@),
    {
        if str_eq(s, "all") {
            Some(CronJobsEnabledFilterSchema::All)
        } else if str_eq(s, "enabled") {
            Some(CronJobsEnabledFilterSchema::Enabled)
        } else if str_eq(s, "disabled") {
            Some(CronJobsEnabledFilterSchema::Disabled)
        } else {
            None
        }
    }
}

/// The wire texts of `CronJobsEnabledFilterSchema` are distinct: parsing the text of a value
/// gives that value back, and a text that parses is the text of what it
/// parses to.
pub proof fn cron_jobs_enabled_filter_schema_text_round_trip(v: CronJobsEnabledFilterSchema, s: Seq<char>)
    ensures
        CronJobsEnabledFilterSchema::spec_from_str(v.spec_as_str()) == Some(v),
        CronJobsEnabledFilterSchema::spec_from_str(s) matches Some(w) ==> w.spec_as_str() == s,
{
    reveal_strlit("all");
    reveal_strlit("enabled");
    reveal_strlit("disabled");
    assert("all"@.len() == 3);
    assert("enabled"@.len() == 7);
    assert("disabled"@.len() == 8);
}

/// Returns true when `s` is the wire text of a `CronJobsEnabledFilterSchema`.
pub fn is_valid_cron_jobs_enabled_filter(s: &str) -> (r: bool)
    ensures
        r == CronJobsEnabledFilterSchema::spec_from_str(s@) is Some,
{
    CronJobsEnabledFilterSchema::from_str(s).is_some()
}

/// Filter of cron job listings by schedule kind.
#[derive(Debug, Clone, Copy, PartialEq, Eq, Hash, Structural)]
pub enum CronJobsScheduleKindFilterSchema {
    All,
    At,
    Every,
    Cron,
    OnExit,
}

impl CronJobsScheduleKindFilterSchema {
    /// The wire text of each variant.
    pub open spec fn spec_as_str(&self) -> Seq<char> {
        match self {
            CronJobsScheduleKindFilterSchema::All => "all"@,
            CronJobsScheduleKindFilterSchema::At => "at"@,
            CronJobsScheduleKindFilterSchema::Every => "every"@,
            CronJobsScheduleKindFilterSchema::Cron => "cron"@,
            CronJobsScheduleKindFilterSchema::OnExit => "on-exit"@,
        }
    }

    /// The wire text of this value.
    pub fn as_str(&self) -> (r: &'static str)
        ensures
            r@ == self.spec_as_str(),
    {
        match self {
            CronJobsScheduleKindFilterSchema::All => "all",
            CronJobsScheduleKindFilterSchema::At => "at",
            CronJobsScheduleKindFilterSchema::Every => "every",
            CronJobsScheduleKindFilterSchema::Cron => "cron",
            CronJobsScheduleKindFilterSchema::OnExit => "on-exit",
        }
    }

    /// The value whose wire text is `s`, if any.
    pub open spec fn spec_from_str(s: Seq<char>) -> Option<CronJobsScheduleKindFilterSchema> {
        if s == "all"@ {
            Some(CronJobsScheduleKindFilterSchema::All)
        } else if s == "at"@ {
            Some(CronJobsScheduleKindFilterSchema::At)
        } else if s == "every"@ {
            Some(CronJobsScheduleKindFilterSchema::Every)
        } else if s == "cron"@ {
            Some(CronJobsScheduleKindFilterSchema::Cron)
        } else if s == "on-exit"@ {
            Some(CronJobsScheduleKindFilterSchema::OnExit)
        } else {
            None
        }
    }

    /// Parses a wire text; `None` for unknown values.
    pub fn from_str(s: &str) -> (r: Option<CronJobsScheduleKindFilterSchema>)
        ensures
            r == CronJobsScheduleKindFilterSchema::spec_from_str(s@),
    {
        if str_eq(s, "all") {
            Some(CronJobsScheduleKindFilterSchema::All)
        } else if str_eq(s, "at") {
            Some(CronJobsScheduleKindFilterSchema::At)
        } else if str_eq(s, "every") {
            Some(CronJobsScheduleKindFilterSchema::Every)
        } else if str_eq(s, "cron") {
            Some(CronJobsScheduleKindFilterSchema::Cron)
        } else if str_eq(s, "on-exit") {
            Some(CronJobsScheduleKindFilterSchema::OnExit)
        } else {
            None
        }
    }
}

/// The wire texts of `CronJobsScheduleKindFilterSchema` are distinct: parsing the text of a value
/// gives that value back, and a text that parses is the text of what it
/// parses to.
pub proof fn cron_jobs_schedule_kind_filter_schema_text_round_trip(v: CronJobsScheduleKindFilterSchema, s: Seq<char>)
    ensures
        CronJobsScheduleKindFilterSchema::spec_from_str(v.spec_as_str()) == Some(v),
        CronJobsScheduleKindFilterSchema::spec_from_str(s) matches Some(w) ==> w.spec_as_str() == s,
{
    reveal_strlit("all");
    reveal_strlit("at");
    reveal_strlit("every");
    reveal_strlit("cron");
    reveal_strlit("on-exit");
    assert("all"@.len() == 3);
    assert("at"@.len() == 2);
    assert("every"@.len() == 5);
    assert("cron"@.len() == 4);
    assert("on-exit"@.len() == 7);
}

/// Returns true when `s` is the wire text of a `CronJobsScheduleKindFilterSchema`.
pub fn is_valid_cron_jobs_schedule_kind_filter(s: &str) -> (r: bool)
    ensures
        r == CronJobsScheduleKindFilterSchema::spec_from_str(s@) is Some,
{
    CronJobsScheduleKindFilterSchema::from_str(s).is_some()
}

/// Filter of cron job listings by last run status.
#[derive(Debug, Clone, Copy, PartialEq, Eq, Hash, Structural)]
pub enum CronJobsLastRunStatusFilterSchema {
    All,
    Succeeded,
    Error,
    Skipped,
    Unknown,
}

impl CronJobsLastRunStatusFilterSchema {
    /// The wire text of each variant.
    pub open spec fn spec_as_str(&self) -> Seq<char> {
        match self {
            CronJobsLastRunStatusFilterSchema::All => "all"@,
            CronJobsLastRunStatusFilterSchema::Succeeded => "ok"@,
            CronJobsLastRunStatusFilterSchema::Error => "error"@,
            CronJobsLastRunStatusFilterSchema::Skipped => "skipped"@,
            CronJobsLastRunStatusFilterSchema::Unknown => "unknown"@,
        }
    }

    /// The wire text of this value.
    pub fn as_str(&self) -> (r: &'static str)
        ensures
            r@ == self.spec_as_str(),
    {
        match self {
            CronJobsLastRunStatusFilterSchema::All => "all",
            CronJobsLastRunStatusFilterSchema::Succeeded => "ok",
            CronJobsLastRunStatusFilterSchema::Error => "error",
            CronJobsLastRunStatusFilterSchema::Skipped => "skipped",
            CronJobsLastRunStatusFilterSchema::Unknown => "unknown",
        }
    }

    /// The value whose wire text is `s`, if any.
    pub open spec fn spec_from_str(s: Seq<char>) -> Option<CronJobsLastRunStatusFilterSchema> {
        if s == "all"@ {
            Some(CronJobsLastRunStatusFilterSchema::All)
        } else if s == "ok"@ {
            Some(CronJobsLastRunStatusFilterSchema::Succeeded)
        } else if s == "error"@ {
            Some(CronJobsLastRunStatusFilterSchema::Error)
        } else if s == "skipped"@ {
            Some(CronJobsLastRunStatusFilterSchema::Skipped)
        } else if s == "unknown"@ {
            Some(CronJobsLastRunStatusFilterSchema::Unknown)
        } else {
            None
        }
    }

    /// Parses a wire text; `None` for unknown values.
    pub fn from_str(s: &str) -> (r: Option<CronJobsLastRunStatusFilterSchema>)
        ensures
            r == CronJobsLastRunStatusFilterSchema::spec_from_str(s@),
    {
        if str_eq(s, "all") {
            Some(CronJobsLastRunStatusFilterSchema::All)
        } else if str_eq(s, "ok") {
            Some(CronJobsLastRunStatusFilterSchema::Succeeded)
        } else if str_eq(s, "error") {
            Some(CronJobsLastRunStatusFilterSchema::Error)
        } else if str_eq(s, "skipped") {
            Some(CronJobsLastRunStatusFilterSchema::Skipped)
        } else if str_eq(s, "unknown") {
            Some(CronJobsLastRunStatusFilterSchema::Unknown)
        } else {
            None
        }
    }
}

/// The wire texts of `CronJobsLastRunStatusFilterSchema` are distinct: parsing the text of a value
/// gives that value back, and a text that parses is the text of what it
/// parses to.
pub proof fn cron_jobs_last_run_status_filter_schema_text_round_trip(v: CronJobsLastRunStatusFilterSchema, s: Seq<char>)
    ensures
        CronJobsLastRunStatusFilterSchema::spec_from_str(v.spec_as_str()) == Some(v),
        CronJobsLastRunStatusFilterSchema::spec_from_str(s) matches Some(w) ==> w.spec_as_str() == s,
{
    reveal_strlit("all");
    reveal_strlit("ok");
    reveal_strlit("error");
    reveal_strlit("skipped");
    reveal_strlit("unknown");
    assert("all"@.len() == 3);
    assert("ok"@.len() == 2);
    assert("error"@.len() == 5);
    assert("skipped"@.len() == 7);
    assert("unknown"@.len() == 7);
    assert("skipped"@[0] == 's');
    assert("unknown"@[0] == 'u');
}

/// Returns true when `s` is the wire text of a `CronJobsLastRunStatusFilterSchema`.
pub fn is_valid_cron_jobs_last_run_status_filter(s: &str) -> (r: bool)
    ensures
        r == CronJobsLastRunStatusFilterSchema::spec_from_str(s@) is Some,
{
    CronJobsLastRunStatusFilterSchema::from_str(s).is_some()
}

/// Sort key of cron job listings.
#[derive(Debug, Clone, Copy, PartialEq, Eq, Hash, Structural)]
pub enum CronJobsSortBySchema {
    NextRunAtMs,
    UpdatedAtMs,
    Name,
}

impl CronJobsSortBySchema {
    /// The wire text of each variant.
    pub open spec fn spec_as_str(&self) -> Seq<char> {
        match self {
            CronJobsSortBySchema::NextRunAtMs => "nextRunAtMs"@,
            CronJobsSortBySchema::UpdatedAtMs => "updatedAtMs"@,
            CronJobsSortBySchema::Name => "name"@,
        }
    }

    /// The wire text of this value.
    pub fn as_str(&self) -> (r: &'static str)
        ensures
            r@ == self.spec_as_str(),
    {
        match self {
            CronJobsSortBySchema::NextRunAtMs => "nextRunAtMs",
            CronJobsSortBySchema::UpdatedAtMs => "updatedAtMs",
            CronJobsSortBySchema::Name => "name",
        }
    }

    /// The value whose wire text is `s`, if any.
    pub open spec fn spec_from_str(s: Seq<char>) -> Option<CronJobsSortBySchema> {
        if s == "nextRunAtMs"@ {
            Some(CronJobsSortBySchema::NextRunAtMs)
        } else if s == "updatedAtMs"@ {
            Some(CronJobsSortBySchema::UpdatedAtMs)
        } else if s == "name"@ {
            Some(CronJobsSortBySchema::Name)
        } else {
            None
        }
    }

    /// Parses a wire text; `None` for unknown values.
    pub fn from_str(s: &str) -> (r: Option<CronJobsSortBySchema>)
        ensures
            r == CronJobsSortBySchema::spec_from_str(s@),
    {
        if str_eq(s, "nextRunAtMs") {
            Some(CronJobsSortBySchema::NextRunAtMs)
        } else if str_eq(s, "updatedAtMs") {
            Some(CronJobsSortBySchema::UpdatedAtMs)
        } else if str_eq(s, "name") {
            Some(CronJobsSortBySchema::Name)
        } else {
            None
        }
    }
}

/// The wire texts of `CronJobsSortBySchema` are distinct: parsing the text of a value
/// gives that value back, and a text that parses is the text of what it
/// parses to.
pub proof fn cron_jobs_sort_by_schema_text_round_trip(v: CronJobsSortBySchema, s: Seq<char>)
    ensures
        CronJobsSortBySchema::spec_from_str(v.spec_as_str()) == Some(v),
        CronJobsSortBySchema::spec_from_str(s) matches Some(w) ==> w.spec_as_str() == s,
{
    reveal_strlit("nextRunAtMs");
    reveal_strlit("updatedAtMs");
    reveal_strlit("name");
    assert("nextRunAtMs"@.len() == 11);
    assert("updatedAtMs"@.len() == 11);
    assert("name"@.len() == 4);
    assert("nextRunAtMs"@[0] == 'n');
    assert("updatedAtMs"@[0] == 'u');
}

/// Returns true when `s` is the wire text of a `CronJobsSortBySchema`.
pub fn is_valid_cron_jobs_sort_by(s: &str) -> (r: bool)
    ensures
        r == CronJobsSortBySchema::spec_from_str(s@) is Some,
{
    CronJobsSortBySchema::from_str(s).is_some()
}

/// Filter of cron run listings by status.
#[derive(Debug, Clone, Copy, PartialEq, Eq, Hash, Structural)]
pub enum CronRunsStatusFilterSchema {
    All,
    Succeeded,
    Error,
    Skipped,
}

impl CronRunsStatusFilterSchema {
    /// The wire text of each variant.
    pub open spec fn spec_as_str(&self) -> Seq<char> {
        match self {
            CronRunsStatusFilterSchema::All => "all"@,
            CronRunsStatusFilterSchema::Succeeded => "ok"@,
            CronRunsStatusFilterSchema::Error => "error"@,
            CronRunsStatusFilterSchema::Skipped => "skipped"@,
        }
    }

    /// The wire text of this value.
    pub fn as_str(&self) -> (r: &'static str)
        ensures
            r@ == self.spec_as_str(),
    {
        match self {
            CronRunsStatusFilterSchema::All => "all",
            CronRunsStatusFilterSchema::Succeeded => "ok",
            CronRunsStatusFilterSchema::Error => "error",
            CronRunsStatusFilterSchema::Skipped => "skipped",
        }
    }

    /// The value whose wire text is `s`, if any.
    pub open spec fn spec_from_str(s: Seq<char>) -> Option<CronRunsStatusFilterSchema> {
        if s == "all"@ {
            Some(CronRunsStatusFilterSchema::All)
        } else if s == "ok"@ {
            Some(CronRunsStatusFilterSchema::Succeeded)
        } else if s == "error"@ {
            Some(CronRunsStatusFilterSchema::Error)
        } else if s == "skipped"@ {
            Some(CronRunsStatusFilterSchema::Skipped)
        } else {
            None
        }
    }

    /// Parses a wire text; `None` for unknown values.
    pub fn from_str(s: &str) -> (r: Option<CronRunsStatusFilterSchema>)
        ensures
            r == CronRunsStatusFilterSchema::spec_from_str(s@),
    {
        if str_eq(s, "all") {
            Some(CronRunsStatusFilterSchema::All)
        } else if str_eq(s, "ok") {
            Some(CronRunsStatusFilterSchema::Succeeded)
        } else if str_eq(s, "error") {
            Some(CronRunsStatusFilterSchema::Error)
        } else if str_eq(s, "skipped") {
            Some(CronRunsStatusFilterSchema::Skipped)
        } else {
            None
        }
    }
}

/// The wire texts of `CronRunsStatusFilterSchema` are distinct: parsing the text of a value
/// gives that value back, and a text that parses is the text of what it
/// parses to.
pub proof fn cron_runs_status_filter_schema_text_round_trip(v: CronRunsStatusFilterSchema, s: Seq<char>)
    ensures
        CronRunsStatusFilterSchema::spec_from_str(v.spec_as_str()) == Some(v),
        CronRunsStatusFilterSchema::spec_from_str(s) matches Some(w) ==> w.spec_as_str() == s,
{
    reveal_strlit("all");
    reveal_strlit("ok");
    reveal_strlit("error");
    reveal_strlit("skipped");
    assert("all"@.len() == 3);
    assert("ok"@.len() == 2);
    assert("error"@.len() == 5);
    assert("skipped"@.len() == 7);
}

/// Returns true when `s` is the wire text of a `CronRunsStatusFilterSchema`.
pub fn is_valid_cron_runs_status_filter(s: &str) -> (r: bool)
    ensures
        r == CronRunsStatusFilterSchema::spec_from_str(s@) is Some,
{
    CronRunsStatusFilterSchema::from_str(s).is_some()
}

/// Delivery state of a cron run's output.
#[derive(Debug, Clone, Copy, PartialEq, Eq, Hash, Structural)]
pub enum CronDeliveryStatusSchema {
    Delivered,
    NotDelivered,
    Unknown,
    NotRequested,
}

impl CronDeliveryStatusSchema {
    /// The wire text of each variant.
    pub open spec fn spec_as_str(&self) -> Seq<char> {
        match self {
            CronDeliveryStatusSchema::Delivered => "delivered"@,
            CronDeliveryStatusSchema::NotDelivered => "not-delivered"@,
            CronDeliveryStatusSchema::Unknown => "unknown"@,
            CronDeliveryStatusSchema::NotRequested => "not-requested"@,
        }
    }

    /// The wire text of this value.
    pub fn as_str(&self) -> (r: &'static str)
        ensures
            r@ == self.spec_as_str(),
    {
        match self {
            CronDeliveryStatusSchema::Delivered => "delivered",
            CronDeliveryStatusSchema::NotDelivered => "not-delivered",
            CronDeliveryStatusSchema::Unknown => "unknown",
            CronDeliveryStatusSchema::NotRequested => "not-requested",
        }
    }

    /// The value whose wire text is `s`, if any.
    pub open spec fn spec_from_str(s: Seq<char>) -> Option<CronDeliveryStatusSchema> {
        if s == "delivered"@ {
            Some(CronDeliveryStatusSchema::Delivered)
        } else if s == "not-delivered"@ {
            Some(CronDeliveryStatusSchema::NotDelivered)
        } else if s == "unknown"@ {
            Some(CronDeliveryStatusSchema::Unknown)
        } else if s == "not-requested"@ {
            Some(CronDeliveryStatusSchema::NotRequested)
        } else {
            None
        }
    }

    /// Parses a wire text; `None` for unknown values.
    pub fn from_str(s: &str) -> (r: Option<CronDeliveryStatusSchema>)
        ensures
            r == CronDeliveryStatusSchema::spec_from_str(s@),
    {
        if str_eq(s, "delivered") {
            Some(CronDeliveryStatusSchema::Delivered)
        } else if str_eq(s, "not-delivered") {
            Some(CronDeliveryStatusSchema::NotDelivered)
        } else if str_eq(s, "unknown") {
            Some(CronDeliveryStatusSchema::Unknown)
        } else if str_eq(s, "not-requested") {
            Some(CronDeliveryStatusSchema::NotRequested)
        } else {
            None
        }
    }
}

/// The wire texts of `CronDeliveryStatusSchema` are distinct: parsing the text of a value
/// gives that value back, and a text that parses is the text of what it
/// parses to.
pub proof fn cron_delivery_status_schema_text_round_trip(v: CronDeliveryStatusSchema, s: Seq<char>)
    ensures
        CronDeliveryStatusSchema::spec_from_str(v.spec_as_str()) == Some(v),
        CronDeliveryStatusSchema::spec_from_str(s) matches Some(w) ==> w.spec_as_str() == s,
{
    reveal_strlit("delivered");
    reveal_strlit("not-delivered");
    reveal_strlit("unknown");
    reveal_strlit("not-requested");
    assert("delivered"@.len() == 9);
    assert("not-delivered"@.len() == 13);
    assert("unknown"@.len() == 7);
    assert("not-requested"@.len() == 13);
    assert("not-delivered"@[4] == 'd');
    assert("not-requested"@[4] == 'r');
}

/// Returns true when `s` is the wire text of a `CronDeliveryStatusSchema`.
pub fn is_valid_cron_delivery_status(s: &str) -> (r: bool)
    ensures
        r == CronDeliveryStatusSchema::spec_from_str(s@) is Some,
{
    CronDeliveryStatusSchema::from_str(s).is_some()
}

/// Classified reason of a failed model call.
#[derive(Debug, Clone, Copy, PartialEq, Eq, Hash, Structural)]
pub enum CronFailoverReasonSchema {
    Auth,
    AuthPermanent,
    Format,
    RateLimit,
    Overloaded,
    Billing,
    ServerError,
    Timeout,
    ContextOverflow,
    ModelNotFound,
    SessionExpired,
    EmptyResponse,
    NoErrorDetails,
    Unclassified,
    Unknown,
}

impl CronFailoverReasonSchema {
    /// The wire text of each variant.
    pub open spec fn spec_as_str(&self) -> Seq<char> {
        match self {
            CronFailoverReasonSchema::Auth => "auth"@,
            CronFailoverReasonSchema::AuthPermanent => "auth_permanent"@,
            CronFailoverReasonSchema::Format => "format"@,
            CronFailoverReasonSchema::RateLimit => "rate_limit"@,
            CronFailoverReasonSchema::Overloaded => "overloaded"@,
            CronFailoverReasonSchema::Billing => "billing"@,
            CronFailoverReasonSchema::ServerError => "server_error"@,
            CronFailoverReasonSchema::Timeout => "timeout"@,
            CronFailoverReasonSchema::ContextOverflow => "context_overflow"@,
            CronFailoverReasonSchema::ModelNotFound => "model_not_found"@,
            CronFailoverReasonSchema::SessionExpired => "session_expired"@,
            CronFailoverReasonSchema::EmptyResponse => "empty_response"@,
            CronFailoverReasonSchema::NoErrorDetails => "no_error_details"@,
            CronFailoverReasonSchema::Unclassified => "unclassified"@,
            CronFailoverReasonSchema::Unknown => "unknown"@,
        }
    }

    /// The wire text of this value.
    pub fn as_str(&self) -> (r: &'static str)
        ensures
            r@ == self.spec_as_str(),
    {
        match self {
            CronFailoverReasonSchema::Auth => "auth",
            CronFailoverReasonSchema::AuthPermanent => "auth_permanent",
            CronFailoverReasonSchema::Format => "format",
            CronFailoverReasonSchema::RateLimit => "rate_limit",
            CronFailoverReasonSchema::Overloaded => "overloaded",
            CronFailoverReasonSchema::Billing => "billing",
            CronFailoverReasonSchema::ServerError => "server_error",
            CronFailoverReasonSchema::Timeout => "timeout",
            CronFailoverReasonSchema::ContextOverflow => "context_overflow",
            CronFailoverReasonSchema::ModelNotFound => "model_not_found",
            CronFailoverReasonSchema::SessionExpired => "session_expired",
            CronFailoverReasonSchema::EmptyResponse => "empty_response",
            CronFailoverReasonSchema::NoErrorDetails => "no_error_details",
            CronFailoverReasonSchema::Unclassified => "unclassified",
            CronFailoverReasonSchema::Unknown => "unknown",
        }
    }

    /// The value whose wire text is `s`, if any.
    pub open spec fn spec_from_str(s: Seq<char>) -> Option<CronFailoverReasonSchema> {
        if s == "auth"@ {
            Some(CronFailoverReasonSchema::Auth)
        } else if s == "auth_permanent"@ {
            Some(CronFailoverReasonSchema::AuthPermanent)
        } else if s == "format"@ {
            Some(CronFailoverReasonSchema::Format)
        } else if s == "rate_limit"@ {
            Some(CronFailoverReasonSchema::RateLimit)
        } else if s == "overloaded"@ {
            Some(CronFailoverReasonSchema::Overloaded)
        } else if s == "billing"@ {
            Some(CronFailoverReasonSchema::Billing)
        } else if s == "server_error"@ {
            Some(CronFailoverReasonSchema::ServerError)
        } else if s == "timeout"@ {
            Some(CronFailoverReasonSchema::Timeout)
        } else if s == "context_overflow"@ {
            Some(CronFailoverReasonSchema::ContextOverflow)
        } else if s == "model_not_found"@ {
            Some(CronFailoverReasonSchema::ModelNotFound)
        } else if s == "session_expired"@ {
            Some(CronFailoverReasonSchema::SessionExpired)
        } else if s == "empty_response"@ {
            Some(CronFailoverReasonSchema::EmptyResponse)
        } else if s == "no_error_details"@ {
            Some(CronFailoverReasonSchema::NoErrorDetails)
        } else if s == "unclassified"@ {
            Some(CronFailoverReasonSchema::Unclassified)
        } else if s == "unknown"@ {
            Some(CronFailoverReasonSchema::Unknown)
        } else {
            None
        }
    }

    /// Parses a wire text; `None` for unknown values.
    pub fn from_str(s: &str) -> (r: Option<CronFailoverReasonSchema>)
        ensures
            r == CronFailoverReasonSchema::spec_from_str(s@),
    {
        if str_eq(s, "auth") {
            Some(CronFailoverReasonSchema::Auth)
        } else if str_eq(s, "auth_permanent") {
            Some(CronFailoverReasonSchema::AuthPermanent)
        } else if str_eq(s, "format") {
            Some(CronFailoverReasonSchema::Format)
        } else if str_eq(s, "rate_limit") {
            Some(CronFailoverReasonSchema::RateLimit)
        } else if str_eq(s, "overloaded") {
            Some(CronFailoverReasonSchema::Overloaded)
        } else if str_eq(s, "billing") {
            Some(CronFailoverReasonSchema::Billing)
        } else if str_eq(s, "server_error") {
            Some(CronFailoverReasonSchema::ServerError)
        } else if str_eq(s, "timeout") {
            Some(CronFailoverReasonSchema::Timeout)
        } else if str_eq(s, "context_overflow") {
            Some(CronFailoverReasonSchema::ContextOverflow)
        } else if str_eq(s, "model_not_found") {
            Some(CronFailoverReasonSchema::ModelNotFound)
        } else if str_eq(s, "session_expired") {
            Some(CronFailoverReasonSchema::SessionExpired)
        } else if str_eq(s, "empty_response") {
            Some(CronFailoverReasonSchema::EmptyResponse)
        } else if str_eq(s, "no_error_details") {
            Some(CronFailoverReasonSchema::NoErrorDetails)
        } else if str_eq(s, "unclassified") {
            Some(CronFailoverReasonSchema::Unclassified)
        } else if str_eq(s, "unknown") {
            Some(CronFailoverReasonSchema::Unknown)
        } else {
            None
        }
    }
}

/// The wire texts of `CronFailoverReasonSchema` are distinct: parsing the text of a value
/// gives that value back, and a text that parses is the text of what it
/// parses to.
pub proof fn cron_failover_reason_schema_text_round_trip(v: CronFailoverReasonSchema, s: Seq<char>)
    ensures
        CronFailoverReasonSchema::spec_from_str(v.spec_as_str()) == Some(v),
        CronFailoverReasonSchema::spec_from_str(s) matches Some(w) ==> w.spec_as_str() == s,
{
    reveal_strlit("auth");
    reveal_strlit("auth_permanent");
    reveal_strlit("format");
    reveal_strlit("rate_limit");
    reveal_strlit("overloaded");
    reveal_strlit("billing");
    reveal_strlit("server_error");
    reveal_strlit("timeout");
    reveal_strlit("context_overflow");
    reveal_strlit("model_not_found");
    reveal_strlit("session_expired");
    reveal_strlit("empty_response");
    reveal_strlit("no_error_details");
    reveal_strlit("unclassified");
    reveal_strlit("unknown");
    assert("auth"@.len() == 4);
    assert("auth_permanent"@.len() == 14);
    assert("format"@.len() == 6);
    assert("rate_limit"@.len() == 10);
    assert("overloaded"@.len() == 10);
    assert("billing"@.len() == 7);
    assert("server_error"@.len() == 12);
    assert("timeout"@.len() == 7);
    assert("context_overflow"@.len() == 16);
    assert("model_not_found"@.len() == 15);
    assert("session_expired"@.len() == 15);
    assert("empty_response"@.len() == 14);
    assert("no_error_details"@.len() == 16);
    assert("unclassified"@.len() == 12);
    assert("unknown"@.len() == 7);
    assert("auth_permanent"@[0] == 'a');
    assert("empty_response"@[0] == 'e');
    assert("rate_limit"@[0] == 'r');
    assert("overloaded"@[0] == 'o');
    assert("billing"@[0] == 'b');
    assert("timeout"@[0] == 't');
    assert("unknown"@[0] == 'u');
    assert("server_error"@[0] == 's');
    assert("unclassified"@[0] == 'u');
    assert("context_overflow"@[0] == 'c');
    assert("no_error_details"@[0] == 'n');
    assert("model_not_found"@[0] == 'm');
    assert("session_expired"@[0] == 's');
}

/// Returns true when `s` is the wire text of a `CronFailoverReasonSchema`.
pub fn is_valid_cron_failover_reason(s: &str) -> (r: bool)
    ensures
        r == CronFailoverReasonSchema::spec_from_str(s@) is Some,
{
    CronFailoverReasonSchema::from_str(s).is_some()
}

/// Severity of a cron run diagnostic.
#[derive(Debug, Clone, Copy, PartialEq, Eq, Hash, Structural)]
pub enum CronRunDiagnosticSeveritySchema {
    Info,
    Warn,
    Error,
}

impl CronRunDiagnosticSeveritySchema {
    /// The wire text of each variant.
    pub open spec fn spec_as_str(&self) -> Seq<char> {
        match self {
            CronRunDiagnosticSeveritySchema::Info => "info"@,
            CronRunDiagnosticSeveritySchema::Warn => "warn"@,
            CronRunDiagnosticSeveritySchema::Error => "error"@,
        }
    }

    /// The wire text of this value.
    pub fn as_str(&self) -> (r: &'static str)
        ensures
            r@ == self.spec_as_str(),
    {
        match self {
            CronRunDiagnosticSeveritySchema::Info => "info",
            CronRunDiagnosticSeveritySchema::Warn => "warn",
            CronRunDiagnosticSeveritySchema::Error => "error",
        }
    }

    /// The value whose wire text is `s`, if any.
    pub open spec fn spec_from_str(s: Seq<char>) -> Option<CronRunDiagnosticSeveritySchema> {
        if s == "info"@ {
            Some(CronRunDiagnosticSeveritySchema::Info)
        } else if s == "warn"@ {
            Some(CronRunDiagnosticSeveritySchema::Warn)
        } else if s == "error"@ {
            Some(CronRunDiagnosticSeveritySchema::Error)
        } else {
            None
        }
    }

    /// Parses a wire text; `None` for unknown values.
    pub fn from_str(s: &str) -> (r: Option<CronRunDiagnosticSeveritySchema>)
        ensures
            r == CronRunDiagnosticSeveritySchema::spec_from_str(s@),
    {
        if str_eq(s, "info") {
            Some(CronRunDiagnosticSeveritySchema::Info)
        } else if str_eq(s, "warn") {
            Some(CronRunDiagnosticSeveritySchema::Warn)
        } else if str_eq(s, "error") {
            Some(CronRunDiagnosticSeveritySchema::Error)
        } else {
            None
        }
    }
}

/// The wire texts of `CronRunDiagnosticSeveritySchema` are distinct: parsing the text of a value
/// gives that value back, and a text that parses is the text of what it
/// parses to.
pub proof fn cron_run_diagnostic_severity_schema_text_round_trip(v: CronRunDiagnosticSeveritySchema, s: Seq<char>)
    ensures
        CronRunDiagnosticSeveritySchema::spec_from_str(v.spec_as_str()) == Some(v),
        CronRunDiagnosticSeveritySchema::spec_from_str(s) matches Some(w) ==> w.spec_as_str() == s,
{
    reveal_strlit("info");
    reveal_strlit("warn");
    reveal_strlit("error");
    assert("info"@.len() == 4);
    assert("warn"@.len() == 4);
    assert("error"@.len() == 5);
    assert("info"@[0] == 'i');
    assert("warn"@[0] == 'w');
}

/// Returns true when `s` is the wire text of a `CronRunDiagnosticSeveritySchema`.
pub fn is_valid_cron_run_diagnostic_severity(s: &str) -> (r: bool)
    ensures
        r == CronRunDiagnosticSeveritySchema::spec_from_str(s@) is Some,
{
    CronRunDiagnosticSeveritySchema::from_str(s).is_some()
}

/// Stage of a cron run that produced a diagnostic.
#[derive(Debug, Clone, Copy, PartialEq, Eq, Hash, Structural)]
pub enum CronRunDiagnosticSourceSchema {
    CronPreflight,
    CronSetup,
    ModelPreflight,
    AgentRun,
    Tool,
    Exec,
    Delivery,
}

impl CronRunDiagnosticSourceSchema {
    /// The wire text of each variant.
    pub open spec fn spec_as_str(&self) -> Seq<char> {
        match self {
            CronRunDiagnosticSourceSchema::CronPreflight => "cron-preflight"@,
            CronRunDiagnosticSourceSchema::CronSetup => "cron-setup"@,
            CronRunDiagnosticSourceSchema::ModelPreflight => "model-preflight"@,
            CronRunDiagnosticSourceSchema::AgentRun => "agent-run"@,
            CronRunDiagnosticSourceSchema::Tool => "tool"@,
            CronRunDiagnosticSourceSchema::Exec => "exec"@,
            CronRunDiagnosticSourceSchema::Delivery => "delivery"@,
        }
    }

    /// The wire text of this value.
    pub fn as_str(&self) -> (r: &'static str)
        ensures
            r@ == self.spec_as_str(),
    {
        match self {
            CronRunDiagnosticSourceSchema::CronPreflight => "cron-preflight",
            CronRunDiagnosticSourceSchema::CronSetup => "cron-setup",
            CronRunDiagnosticSourceSchema::ModelPreflight => "model-preflight",
            CronRunDiagnosticSourceSchema::AgentRun => "agent-run",
            CronRunDiagnosticSourceSchema::Tool => "tool",
            CronRunDiagnosticSourceSchema::Exec => "exec",
            CronRunDiagnosticSourceSchema::Delivery => "delivery",
        }
    }

    /// The value whose wire text is `s`, if any.
    pub open spec fn spec_from_str(s: Seq<char>) -> Option<CronRunDiagnosticSourceSchema> {
        if s == "cron-preflight"@ {
            Some(CronRunDiagnosticSourceSchema::CronPreflight)
        } else if s == "cron-setup"@ {
            Some(CronRunDiagnosticSourceSchema::CronSetup)
        } else if s == "model-preflight"@ {
            Some(CronRunDiagnosticSourceSchema::ModelPreflight)
        } else if s == "agent-run"@ {
            Some(CronRunDiagnosticSourceSchema::AgentRun)
        } else if s == "tool"@ {
            Some(CronRunDiagnosticSourceSchema::Tool)
        } else if s == "exec"@ {
            Some(CronRunDiagnosticSourceSchema::Exec)
        } else if s == "delivery"@ {
            Some(CronRunDiagnosticSourceSchema::Delivery)
        } else {
            None
        }
    }

    /// Parses a wire text; `None` for unknown values.
    pub fn from_str(s: &str) -> (r: Option<CronRunDiagnosticSourceSchema>)
        ensures
            r == CronRunDiagnosticSourceSchema::spec_from_str(s@),
    {
        if str_eq(s, "cron-preflight") {
            Some(CronRunDiagnosticSourceSchema::CronPreflight)
        } else if str_eq(s, "cron-setup") {
            Some(CronRunDiagnosticSourceSchema::CronSetup)
        } else if str_eq(s, "model-preflight") {
            Some(CronRunDiagnosticSourceSchema::ModelPreflight)
        } else if str_eq(s, "agent-run") {
            Some(CronRunDiagnosticSourceSchema::AgentRun)
        } else if str_eq(s, "tool") {
            Some(CronRunDiagnosticSourceSchema::Tool)
        } else if str_eq(s, "exec") {
            Some(CronRunDiagnosticSourceSchema::Exec)
        } else if str_eq(s, "delivery") {
            Some(CronRunDiagnosticSourceSchema::Delivery)
        } else {
            None
        }
    }
}

/// The wire texts of `CronRunDiagnosticSourceSchema` are distinct: parsing the text of a value
/// gives that value back, and a text that parses is the text of what it
/// parses to.
pub proof fn cron_run_diagnostic_source_schema_text_round_trip(v: CronRunDiagnosticSourceSchema, s: Seq<char>)
    ensures
        CronRunDiagnosticSourceSchema::spec_from_str(v.spec_as_str()) == Some(v),
        CronRunDiagnosticSourceSchema::spec_from_str(s) matches Some(w) ==> w.spec_as_str() == s,
{
    reveal_strlit("cron-preflight");
    reveal_strlit("cron-setup");
    reveal_strlit("model-preflight");
    reveal_strlit("agent-run");
    reveal_strlit("tool");
    reveal_strlit("exec");
    reveal_strlit("delivery");
    assert("cron-preflight"@.len() == 14);
    assert("cron-setup"@.len() == 10);
    assert("model-preflight"@.len() == 15);
    assert("agent-run"@.len() == 9);
    assert("tool"@.len() == 4);
    assert("exec"@.len() == 4);
    assert("delivery"@.len() == 8);
    assert("tool"@[0] == 't');
    assert("exec"@[0] == 'e');
}

/// Returns true when `s` is the wire text of a `CronRunDiagnosticSourceSchema`.
pub fn is_valid_cron_run_diagnostic_source(s: &str) -> (r: bool)
    ensures
        r == CronRunDiagnosticSourceSchema::spec_from_str(s@) is Some,
{
    CronRunDiagnosticSourceSchema::from_str(s).is_some()
}

/// Failure alert mode: `announce` or `webhook`.
#[derive(Debug, Clone, Copy, PartialEq, Eq, Hash, Structural)]
pub enum CronFailureAlertMode {
    Announce,
    Webhook,
}

impl CronFailureAlertMode {
    /// The wire text of each variant.
    pub open spec fn spec_as_str(&self) -> Seq<char> {
        match self {
            CronFailureAlertMode::Announce => "announce"@,
            CronFailureAlertMode::Webhook => "webhook"@,
        }
    }

    /// The wire text of this value.
    pub fn as_str(&self) -> (r: &'static str)
        ensures
            r@ == self.spec_as_str(),
    {
        match self {
            CronFailureAlertMode::Announce => "announce",
            CronFailureAlertMode::Webhook => "webhook",
        }
    }

    /// The value whose wire text is `s`, if any.
    pub open spec fn spec_from_str(s: Seq<char>) -> Option<CronFailureAlertMode> {
        if s == "announce"@ {
            Some(CronFailureAlertMode::Announce)
        } else if s == "webhook"@ {
            Some(CronFailureAlertMode::Webhook)
        } else {
            None
        }
    }
}

/// The wire texts of `CronFailureAlertMode` are distinct: parsing the text of a value
/// gives that value back, and a text that parses is the text of what it
/// parses to.
pub proof fn cron_failure_alert_mode_text_round_trip(v: CronFailureAlertMode, s: Seq<char>)
    ensures
        CronFailureAlertMode::spec_from_str(v.spec_as_str()) == Some(v),
        CronFailureAlertMode::spec_from_str(s) matches Some(w) ==> w.spec_as_str() == s,
{
    reveal_strlit("announce");
    reveal_strlit("webhook");
    assert("announce"@.len() == 8);
    assert("webhook"@.len() == 7);
}

// ===========================================================================
// CronOwnerSchema
// ===========================================================================

/// Owner of a cron job: optional agent and session.
#[derive(Debug, Clone, Default)]
pub struct CronOwnerSchema {
    pub agent_id: Option<NonEmptyString>,
    pub session_key: Option<NonEmptyString>,
}

impl CronOwnerSchema {
    /// Both ids must be non-empty when present.
    pub open spec fn check(&self) -> Outcome {
        also(opt_non_empty("agentId"@, self.agent_id), opt_non_empty("sessionKey"@, self.session_key))
    }

    pub fn validate(&self) -> (r: Result<(), String>)
        ensures
            outcome(r) == self.check(),
    {
        let r = require_opt_non_empty("agentId", &self.agent_id);
        if r.is_err() {
            return r;
        }
        require_opt_non_empty("sessionKey", &self.session_key)
    }
}

// ===========================================================================
// CronAnnounceChannelSchema: "last" | NonBlankString
// ===========================================================================

/// Announcement channel for cron delivery: `last` or any non-blank string.
#[derive(Debug, Clone)]
pub enum CronAnnounceChannelSchema {
    Last,
    Other(String),
}

impl CronAnnounceChannelSchema {
    /// The wire text of this channel.
    pub open spec fn spec_as_str(&self) -> Seq<char> {
        match self {
            CronAnnounceChannelSchema::Last => "last"@,
            CronAnnounceChannelSchema::Other(s) => s@,
        }
    }

    /// The wire text of this channel.
    pub fn as_str(&self) -> (r: &str)
        ensures
            r@ == self.spec_as_str(),
    {
        match self {
            CronAnnounceChannelSchema::Last => "last",
            CronAnnounceChannelSchema::Other(s) => s.as_str(),
        }
    }
}

// ===========================================================================
// CronScheduleSchema (discriminated on `kind`)
// ===========================================================================

/// Schedule expression for one-time, interval, cron-expression or on-exit jobs.
#[derive(Debug, Clone)]
pub enum CronScheduleSchema {
    At { at: NonEmptyString },
    Every { every_ms: i64, anchor_ms: Option<i64> },
    Cron { expr: NonEmptyString, tz: Option<String>, stagger_ms: Option<i64> },
    /// Fires once when the gateway-owned watcher running `command` exits.
    OnExit { command: NonEmptyString, cwd: Option<NonEmptyString> },
}

impl CronScheduleSchema {
    /// `at`, `expr` and `command` non-empty; `everyMs >= 1`; anchors and
    /// staggers `>= 0`; `cwd` non-empty when present.
    pub open spec fn check(&self) -> Outcome {
        match self {
            CronScheduleSchema::At { at } => non_empty("at"@, at@),
            CronScheduleSchema::Every { every_ms, anchor_ms } => also(
                reject(*every_ms < 1, "everyMs: expected >= 1, got "@ + decimal(*every_ms as int)),
                opt_non_negative("anchorMs"@, *anchor_ms),
            ),
            CronScheduleSchema::Cron { expr, stagger_ms, .. } => also(
                non_empty("expr"@, expr@),
                opt_non_negative("staggerMs"@, *stagger_ms),
            ),
            CronScheduleSchema::OnExit { command, cwd } => also(
                non_empty("command"@, command@),
                opt_non_empty("cwd"@, *cwd),
            ),
        }
    }

    pub fn validate(&self) -> (r: Result<(), String>)
        ensures
            outcome(r) == self.check(),
    {
        match self {
            CronScheduleSchema::At { at } => require_non_empty("at", at.as_str()),
            CronScheduleSchema::Every { every_ms, anchor_ms } => {
                if *every_ms < 1 {
                    let digits = i64_text(*every_ms);
                    let mut m = String::from_str("everyMs: expected >= 1, got ");
                    m.append(digits.as_str());
                    return Err(m);
                }
                validate_opt_non_negative_integer("anchorMs", *anchor_ms)
            },
            CronScheduleSchema::Cron { expr, stagger_ms, .. } => {
                let r = require_non_empty("expr", expr.as_str());
                if r.is_err() {
                    return r;
                }
                validate_opt_non_negative_integer("staggerMs", *stagger_ms)
            },
            CronScheduleSchema::OnExit { command, cwd } => {
                let r = require_non_empty("command", command.as_str());
                if r.is_err() {
                    return r;
                }
                require_opt_non_empty("cwd", cwd)
            },
        }
    }
}

// ===========================================================================
// CronTriggerSchema
// ===========================================================================

/// Headless condition script evaluated before a recurring cron payload runs.
#[derive(Debug, Clone)]
pub struct CronTriggerSchema {
    pub script: String,
    pub once: Option<bool>,
}

impl CronTriggerSchema {
    /// `script` holds 1..=65536 characters.
    pub open spec fn check(&self) -> Outcome {
        bounded(
            "script"@,
            self.script@,
            CRON_TRIGGER_SCRIPT_MIN_LENGTH as int,
            CRON_TRIGGER_SCRIPT_MAX_LENGTH as int,
        )
    }

    pub fn validate(&self) -> (r: Result<(), String>)
        ensures
            outcome(r) == self.check(),
    {
        validate_bounded_string(
            "script",
            self.script.as_str(),
            CRON_TRIGGER_SCRIPT_MIN_LENGTH,
            CRON_TRIGGER_SCRIPT_MAX_LENGTH,
        )
    }
}

// ===========================================================================
// Payload discriminators and the system-event payload
// ===========================================================================

/// Literal `"agentTurn"` discriminator.
#[derive(Debug, Clone, Copy, PartialEq, Eq, Hash, Structural)]
pub enum CronPayloadAgentTurnKind {
    AgentTurn,
}

/// Literal `"command"` discriminator.
#[derive(Debug, Clone, Copy, PartialEq, Eq, Hash, Structural)]
pub enum CronPayloadCommandKind {
    Command,
}

/// Literal `"systemEvent"` discriminator.
#[derive(Debug, Clone, Copy, PartialEq, Eq, Hash, Structural)]
pub enum CronPayloadSystemEventKind {
    SystemEvent,
}

/// `systemEvent` payload variant.
#[derive(Debug, Clone)]
pub struct CronSystemEventPayloadSchema {
    pub kind_value: CronPayloadSystemEventKind,
    pub text: NonEmptyString,
}

/// Patch variant of the `systemEvent` payload (text becomes optional).
#[derive(Debug, Clone)]
pub struct CronSystemEventPayloadPatchSchema {
    pub kind_value: CronPayloadSystemEventKind,
    pub text: Option<NonEmptyString>,
}

/// `T | null` used by patch variants to allow clearing a field.
#[derive(Debug, Clone)]
pub enum CronPayloadPatchNullable<T> {
    Value(T),
    Null,
}

// ===========================================================================
// Failure alerts and destinations
// ===========================================================================

/// Failure alert policy for repeated cron run failures.
#[derive(Debug, Clone, Default)]
pub struct CronFailureAlertSchema {
    pub after: Option<i64>,
    pub channel: Option<CronAnnounceChannelSchema>,
    pub to: Option<NonBlankString>,
    pub cooldown_ms: Option<i64>,
    pub include_skipped: Option<bool>,
    pub mode: Option<CronFailureAlertMode>,
    pub account_id: Option<NonEmptyString>,
}

impl CronFailureAlertSchema {
    /// `after >= 1`, `to` non-blank, `cooldownMs >= 0`, `accountId` non-empty,
    /// each when present.
    pub open spec fn check(&self) -> Outcome {
        also(
            match self.after {
                Some(a) => reject(a < 1, "after: expected >= 1, got "@ + decimal(a as int)),
                None => Ok(()),
            },
            also(
                opt_channel(self.channel),
                also(
                    opt_non_blank("to"@, self.to),
                    also(
                        opt_non_negative("cooldownMs"@, self.cooldown_ms),
                        opt_non_empty("accountId"@, self.account_id),
                    ),
                ),
            ),
        )
    }

    pub fn validate(&self) -> (r: Result<(), String>)
        ensures
            outcome(r) == self.check(),
    {
        if let Some(a) = self.after {
            if a < 1 {
                let digits = i64_text(a);
                let mut m = String::from_str("after: expected >= 1, got ");
                m.append(digits.as_str());
                return Err(m);
            }
        }
        let r = validate_opt_channel(&self.channel);
        if r.is_err() {
            return r;
        }
        let r = validate_opt_non_blank_string("to", &self.to);
        if r.is_err() {
            return r;
        }
        let r = validate_opt_non_negative_integer("cooldownMs", self.cooldown_ms);
        if r.is_err() {
            return r;
        }
        require_opt_non_empty("accountId", &self.account_id)
    }
}

/// A channel other than `last` is a NonBlankString.
pub open spec fn opt_channel(channel: Option<CronAnnounceChannelSchema>) -> Outcome {
    match channel {
        Some(CronAnnounceChannelSchema::Other(c)) => non_blank("channel"@, c@),
        _ => Ok(()),
    }
}

fn validate_opt_channel(channel: &Option<CronAnnounceChannelSchema>) -> (r: Result<(), String>)
    ensures
        outcome(r) == opt_channel(*channel),
{
    match channel {
        Some(CronAnnounceChannelSchema::Other(c)) => validate_non_blank_string("channel", c.as_str()),
        _ => Ok(()),
    }
}

/// Delivery destination used when failure alerts need a separate target.
#[derive(Debug, Clone, Default)]
pub struct CronFailureDestinationSchema {
    pub channel: Option<CronAnnounceChannelSchema>,
    pub to: Option<NonBlankString>,
    pub account_id: Option<NonEmptyString>,
    pub mode: Option<CronFailureAlertMode>,
}

impl CronFailureDestinationSchema {
    /// A channel other than `last` and `to` non-blank, `accountId` non-empty,
    /// each when present.
    pub open spec fn check(&self) -> Outcome {
        also(opt_channel(self.channel), also(opt_non_blank("to"@, self.to), opt_non_empty("accountId"@, self.account_id)))
    }

    pub fn validate(&self) -> (r: Result<(), String>)
        ensures
            outcome(r) == self.check(),
    {
        let r = validate_opt_channel(&self.channel);
        if r.is_err() {
            return r;
        }
        let r = validate_opt_non_blank_string("to", &self.to);
        if r.is_err() {
            return r;
        }
        require_opt_non_empty("accountId", &self.account_id)
    }
}

/// Patch of a failure destination; every field accepts `null` to clear.
#[derive(Debug, Clone, Default)]
pub struct CronFailureDestinationPatchSchema {
    pub channel: Option<CronNullableChannel>,
    pub to: Option<CronPayloadPatchNullable<String>>,
    pub account_id: Option<CronPayloadPatchNullable<String>>,
    pub mode: Option<CronNullableFailureMode>,
}

/// An announce channel or `null`.
#[derive(Debug, Clone)]
pub enum CronNullableChannel {
    Value(CronAnnounceChannelSchema),
    Null,
}

/// A failure alert mode or `null`.
#[derive(Debug, Clone)]
pub enum CronNullableFailureMode {
    Value(CronFailureAlertMode),
    Null,
}

// ===========================================================================
// CronCompletionDestinationSchema
// ===========================================================================

/// Literal `"webhook"` discriminator for completion destinations.
#[derive(Debug, Clone, Copy, PartialEq, Eq, Hash, Structural)]
pub enum CronCompletionDestinationMode {
    Webhook,
}

/// Successful completion destination (webhook).
#[derive(Debug, Clone)]
pub struct CronCompletionDestinationSchema {
    pub mode: CronCompletionDestinationMode,
    pub to: NonBlankString,
}

impl CronCompletionDestinationSchema {
    /// `to` must be a NonBlankString.
    pub open spec fn check(&self) -> Outcome {
        non_blank("to"@, self.to@)
    }

    pub fn validate(&self) -> (r: Result<(), String>)
        ensures
            outcome(r) == self.check(),
    {
        validate_non_blank_string("to", self.to.as_str())
    }
}

// ===========================================================================
// Delivery modes
// ===========================================================================

/// Delivery mode literal `"none"`.
#[derive(Debug, Clone, Copy, PartialEq, Eq, Hash, Structural)]
pub enum CronDeliveryModeNone {
    NoDelivery,
}

/// Delivery mode literal `"announce"`.
#[derive(Debug, Clone, Copy, PartialEq, Eq, Hash, Structural)]
pub enum CronDeliveryModeAnnounce {
    Announce,
}

/// Delivery mode literal `"webhook"`.
#[derive(Debug, Clone, Copy, PartialEq, Eq, Hash, Structural)]
pub enum CronDeliveryModeWebhook {
    Webhook,
}

/// Delivery mode of a delivery patch.
#[derive(Debug, Clone)]
pub enum CronDeliveryPatchMode {
    NoDelivery(CronDeliveryModeNone),
    Announce(CronDeliveryModeAnnounce),
    Webhook(CronDeliveryModeWebhook),
}

/// A completion destination or `null`.
#[derive(Debug, Clone)]
pub enum CronNullableCompletionDestination {
    Value(CronCompletionDestinationSchema),
    Null,
}

/// Delivery record of a failure notification.
#[derive(Debug, Clone)]
pub struct CronFailureNotificationDeliverySchema {
    pub delivered: Option<bool>,
    pub status: CronDeliveryStatusSchema,
    pub error: Option<String>,
}

/// `failureAlert`: `false` to disable, or an alert policy.
#[derive(Debug, Clone)]
pub enum CronFailureAlertOption {
    Disabled(bool),
    Alert(CronFailureAlertSchema),
}

// ===========================================================================
// Run diagnostics
// ===========================================================================

/// `exitCode` of a diagnostic: a number or `null`.
#[derive(Debug, Clone)]
pub enum CronRunDiagnosticExitCode {
    Number(NumberValue),
    Null,
}

/// One diagnostic recorded during a cron run.
#[derive(Debug, Clone)]
pub struct CronRunDiagnosticSchema {
    pub ts: i64,
    pub source: CronRunDiagnosticSourceSchema,
    pub severity: CronRunDiagnosticSeveritySchema,
    pub message: String,
    pub tool_name: Option<String>,
    pub exit_code: Option<CronRunDiagnosticExitCode>,
    pub truncated: Option<bool>,
}

impl CronRunDiagnosticSchema {
    /// The checks of this schema, in field order.
    pub open spec fn check(&self) -> Outcome {
        non_negative("ts"@, self.ts as int)
    }

    pub fn validate(&self) -> (r: Result<(), String>)
        ensures
            outcome(r) == self.check(),
    {
        validate_non_negative_integer("ts", self.ts)
    }
}

impl Checked for CronRunDiagnosticSchema {
    open spec fn checks(&self) -> Outcome {
        self.check()
    }

    fn run_checks(&self) -> (r: Result<(), String>) {
        self.validate()
    }
}

/// Diagnostics of a cron run: an optional summary and the entries.
#[derive(Debug, Clone, Default)]
pub struct CronRunDiagnosticsSchema {
    pub summary: Option<String>,
    pub entries: Vec<CronRunDiagnosticSchema>,
}

impl CronRunDiagnosticsSchema {
    /// The checks of this schema, in field order.
    pub open spec fn check(&self) -> Outcome {
        each_checked("entries"@, self.entries@, 0)
    }

    pub fn validate(&self) -> (r: Result<(), String>)
        ensures
            outcome(r) == self.check(),
    {
        validate_each("entries", &self.entries)
    }
}

// ===========================================================================
// Payloads
// ===========================================================================

/// `agentTurn` payload: a message handed to an agent.
#[derive(Debug, Clone)]
pub struct CronAgentTurnPayloadSchema {
    pub kind_value: CronPayloadAgentTurnKind,
    pub message: NonEmptyString,
    pub model: Option<String>,
    pub fallbacks: Option<Vec<String>>,
    pub thinking: Option<String>,
    pub timeout_seconds: Option<NumberValue>,
    pub allow_unsafe_external_content: Option<bool>,
    pub light_context: Option<bool>,
    pub tools_allow: Option<Vec<String>>,
    pub tools_allow_is_default: Option<bool>,
}


/// `command` payload: a command line run by the scheduler.
#[derive(Debug, Clone)]
pub struct CronCommandPayloadSchema {
    pub kind_value: CronPayloadCommandKind,
    pub argv: Vec<NonEmptyString>,
    pub cwd: Option<String>,
    pub env: Option<std::collections::BTreeMap<String, String>>,
    pub input: Option<String>,
    pub timeout_seconds: Option<NumberValue>,
    pub no_output_timeout_seconds: Option<NumberValue>,
    pub output_max_bytes: Option<i64>,
}


/// Every argument of a command payload: at least one
/// (`argv: minItems 1, got 0`), each non-empty.
pub open spec fn command_argv(argv: Seq<String>) -> Outcome {
    also(reject(argv.len() == 0, "argv: minItems 1, got 0"@), each_non_empty("argv"@, argv, 0))
}

fn validate_command_argv(argv: &Vec<String>) -> (r: Result<(), String>)
    ensures
        outcome(r) == command_argv(argv@),
{
    if argv.len() == 0 {
        return Err(String::from_str("argv: minItems 1, got 0"));
    }
    require_each_non_empty("argv", argv)
}

/// Full cron payload of a new job.
#[derive(Debug, Clone)]
pub enum CronPayloadSchema {
    SystemEvent(CronSystemEventPayloadSchema),
    AgentTurn(CronAgentTurnPayloadSchema),
    Command(CronCommandPayloadSchema),
}

impl CronPayloadSchema {
    /// System events need text, agent turns a message, commands their
    /// arguments.
    pub open spec fn check(&self) -> Outcome {
        match self {
            CronPayloadSchema::SystemEvent(p) => non_empty("text"@, p.text@),
            CronPayloadSchema::AgentTurn(p) => non_empty("message"@, p.message@),
            CronPayloadSchema::Command(p) => command_argv(p.argv@),
        }
    }

    pub fn validate(&self) -> (r: Result<(), String>)
        ensures
            outcome(r) == self.check(),
    {
        match self {
            CronPayloadSchema::SystemEvent(p) => require_non_empty("text", p.text.as_str()),
            CronPayloadSchema::AgentTurn(p) => require_non_empty("message", p.message.as_str()),
            CronPayloadSchema::Command(p) => validate_command_argv(&p.argv),
        }
    }
}

/// Patch of an `agentTurn` payload; clearable fields accept `null`.
#[derive(Debug, Clone)]
pub struct CronAgentTurnPayloadPatchSchema {
    pub kind_value: CronPayloadAgentTurnKind,
    pub message: Option<NonEmptyString>,
    pub model: Option<CronPayloadPatchNullable<String>>,
    pub fallbacks: Option<CronPayloadPatchNullable<Vec<String>>>,
    pub thinking: Option<CronPayloadPatchNullable<String>>,
    pub timeout_seconds: Option<NumberValue>,
    pub allow_unsafe_external_content: Option<bool>,
    pub light_context: Option<bool>,
    pub tools_allow: Option<CronPayloadPatchNullable<Vec<String>>>,
    pub tools_allow_is_default: Option<bool>,
}


/// Patch of a `command` payload; the arguments become optional.
#[derive(Debug, Clone)]
pub struct CronCommandPayloadPatchSchema {
    pub kind_value: CronPayloadCommandKind,
    pub argv: Option<Vec<NonEmptyString>>,
    pub cwd: Option<String>,
    pub env: Option<std::collections::BTreeMap<String, String>>,
    pub input: Option<String>,
    pub timeout_seconds: Option<NumberValue>,
    pub no_output_timeout_seconds: Option<NumberValue>,
    pub output_max_bytes: Option<i64>,
}


/// Partial cron payload of a job update.
#[derive(Debug, Clone)]
pub enum CronPayloadPatchSchema {
    SystemEvent(CronSystemEventPayloadPatchSchema),
    AgentTurn(CronAgentTurnPayloadPatchSchema),
    Command(CronCommandPayloadPatchSchema),
}

impl CronPayloadPatchSchema {
    /// The fields present are checked as in a full payload.
    pub open spec fn check(&self) -> Outcome {
        match self {
            CronPayloadPatchSchema::SystemEvent(p) => opt_non_empty("text"@, p.text),
            CronPayloadPatchSchema::AgentTurn(p) => opt_non_empty("message"@, p.message),
            CronPayloadPatchSchema::Command(p) => match p.argv {
                Some(argv) => command_argv(argv@),
                None => Ok(()),
            },
        }
    }

    pub fn validate(&self) -> (r: Result<(), String>)
        ensures
            outcome(r) == self.check(),
    {
        match self {
            CronPayloadPatchSchema::SystemEvent(p) => require_opt_non_empty("text", &p.text),
            CronPayloadPatchSchema::AgentTurn(p) => require_opt_non_empty("message", &p.message),
            CronPayloadPatchSchema::Command(p) => match &p.argv {
                Some(argv) => validate_command_argv(argv),
                None => Ok(()),
            },
        }
    }
}

// ===========================================================================
// Delivery
// ===========================================================================

/// `threadId` of a delivery: a string or a number.
#[derive(Debug, Clone)]
pub enum CronDeliveryThreadId {
    Text(String),
    Number(NumberValue),
}

/// A delivery thread id or `null`.
#[derive(Debug, Clone)]
pub enum CronNullableThreadId {
    Value(CronDeliveryThreadId),
    Null,
}

/// Fields shared by the delivery variants.
#[derive(Debug, Clone, Default)]
pub struct CronDeliverySharedProperties {
    pub channel: Option<CronAnnounceChannelSchema>,
    pub thread_id: Option<CronDeliveryThreadId>,
    pub account_id: Option<NonEmptyString>,
    pub best_effort: Option<bool>,
    pub failure_destination: Option<CronFailureDestinationSchema>,
}

impl CronDeliverySharedProperties {
    /// The checks of this schema, in field order.
    pub open spec fn check(&self) -> Outcome {
        also(opt_channel(self.channel),
        also(opt_non_empty("accountId"@, self.account_id),
        match self.failure_destination { Some(x) => within("failureDestination: "@, x.check()), None => Ok(()) }))
    }

    pub fn validate(&self) -> (r: Result<(), String>)
        ensures
            outcome(r) == self.check(),
    {
        let r = validate_opt_channel(&self.channel);
        if r.is_err() {
            return r;
        }
        let r = require_opt_non_empty("accountId", &self.account_id);
        if r.is_err() {
            return r;
        }
        if let Some(x) = &self.failure_destination {
            let r = prefixed("failureDestination: ", x.validate());
            if r.is_err() {
                return r;
            }
        }
        Ok(())
    }
}

/// Fields shared by delivery patches; each accepts `null` to clear.
#[derive(Debug, Clone, Default)]
pub struct CronDeliveryPatchSharedProperties {
    pub channel: Option<CronNullableChannel>,
    pub thread_id: Option<CronNullableThreadId>,
    pub account_id: Option<CronPayloadPatchNullable<String>>,
    pub best_effort: Option<bool>,
    pub failure_destination: Option<CronPayloadPatchNullable<CronFailureDestinationPatchSchema>>,
}


/// Delivery policy of a job, discriminated by `mode`.
#[derive(Debug, Clone)]
pub enum CronDeliverySchema {
    /// Mode `none`.
    NoDelivery { shared: CronDeliverySharedProperties, to: Option<NonBlankString> },
    /// Mode `announce`.
    Announce {
        shared: CronDeliverySharedProperties,
        completion_destination: Option<CronCompletionDestinationSchema>,
        to: Option<NonBlankString>,
    },
    /// Mode `webhook`.
    Webhook { shared: CronDeliverySharedProperties, to: NonBlankString },
}

impl CronDeliverySchema {
    /// The shared fields (prefixed `shared: `), the completion destination
    /// (prefixed `completionDestination: `), then `to` non-blank.
    pub open spec fn check(&self) -> Outcome {
        match self {
            CronDeliverySchema::NoDelivery { shared, to } => also(
                within("shared: "@, shared.check()),
                opt_non_blank("to"@, *to),
            ),
            CronDeliverySchema::Announce { shared, completion_destination, to } => also(
                within("shared: "@, shared.check()),
                also(
                    match completion_destination {
                        Some(cd) => within("completionDestination: "@, cd.check()),
                        None => Ok(()),
                    },
                    opt_non_blank("to"@, *to),
                ),
            ),
            CronDeliverySchema::Webhook { shared, to } => also(
                within("shared: "@, shared.check()),
                non_blank("to"@, to@),
            ),
        }
    }

    pub fn validate(&self) -> (r: Result<(), String>)
        ensures
            outcome(r) == self.check(),
    {
        match self {
            CronDeliverySchema::NoDelivery { shared, to } => {
                let r = prefixed("shared: ", shared.validate());
                if r.is_err() {
                    return r;
                }
                validate_opt_non_blank_string("to", to)
            },
            CronDeliverySchema::Announce { shared, completion_destination, to } => {
                let r = prefixed("shared: ", shared.validate());
                if r.is_err() {
                    return r;
                }
                if let Some(cd) = completion_destination {
                    let r = prefixed("completionDestination: ", cd.validate());
                    if r.is_err() {
                        return r;
                    }
                }
                validate_opt_non_blank_string("to", to)
            },
            CronDeliverySchema::Webhook { shared, to } => {
                let r = prefixed("shared: ", shared.validate());
                if r.is_err() {
                    return r;
                }
                validate_non_blank_string("to", to.as_str())
            },
        }
    }
}

/// Patch of a job's delivery policy.
#[derive(Debug, Clone, Default)]
pub struct CronDeliveryPatchSchema {
    pub mode: Option<CronDeliveryPatchMode>,
    pub shared: CronDeliveryPatchSharedProperties,
    pub completion_destination: Option<CronNullableCompletionDestination>,
    pub to: Option<CronPayloadPatchNullable<String>>,
}


// ===========================================================================
// Job state
// ===========================================================================

/// Scheduler-maintained state of the latest run and delivery outcome.
#[derive(Debug, Clone, Default)]
pub struct CronJobStateSchema {
    pub next_run_at_ms: Option<i64>,
    pub running_at_ms: Option<i64>,
    pub last_run_at_ms: Option<i64>,
    pub last_run_status: Option<CronRunStatusSchema>,
    pub last_status: Option<DeprecatedCronRunStatusSchema>,
    pub last_error: Option<String>,
    pub last_diagnostics: Option<CronRunDiagnosticsSchema>,
    pub last_diagnostic_summary: Option<String>,
    pub last_error_reason: Option<CronFailoverReasonSchema>,
    pub last_duration_ms: Option<i64>,
    pub consecutive_errors: Option<i64>,
    pub consecutive_skipped: Option<i64>,
    pub last_delivered: Option<bool>,
    pub last_delivery_status: Option<CronDeliveryStatusSchema>,
    pub last_delivery_error: Option<String>,
    pub last_failure_notification_delivered: Option<bool>,
    pub last_failure_notification_delivery_status: Option<CronDeliveryStatusSchema>,
    pub last_failure_notification_delivery_error: Option<String>,
    pub last_failure_alert_at_ms: Option<i64>,
    pub last_trigger_eval_at_ms: Option<i64>,
    pub trigger_eval_count: Option<i64>,
    pub last_trigger_fire_at_ms: Option<i64>,
    pub trigger_state: Option<serde_json::Value>,
}

impl CronJobStateSchema {
    /// Every timestamp and counter present is `>= 0`, then the diagnostics
    /// (prefixed `lastDiagnostics: `).
    pub open spec fn check(&self) -> Outcome {
        also(opt_non_negative("nextRunAtMs"@, self.next_run_at_ms),
        also(opt_non_negative("runningAtMs"@, self.running_at_ms),
        also(opt_non_negative("lastRunAtMs"@, self.last_run_at_ms),
        also(opt_non_negative("lastDurationMs"@, self.last_duration_ms),
        also(opt_non_negative("consecutiveErrors"@, self.consecutive_errors),
        also(opt_non_negative("consecutiveSkipped"@, self.consecutive_skipped),
        also(opt_non_negative("lastFailureAlertAtMs"@, self.last_failure_alert_at_ms),
        also(opt_non_negative("lastTriggerEvalAtMs"@, self.last_trigger_eval_at_ms),
        also(opt_non_negative("triggerEvalCount"@, self.trigger_eval_count),
        also(opt_non_negative("lastTriggerFireAtMs"@, self.last_trigger_fire_at_ms),
        match self.last_diagnostics { Some(x) => within("lastDiagnostics: "@, x.check()), None => Ok(()) }))))))))))
    }

    pub fn validate(&self) -> (r: Result<(), String>)
        ensures
            outcome(r) == self.check(),
    {
        let r = validate_opt_non_negative_integer("nextRunAtMs", self.next_run_at_ms);
        if r.is_err() {
            return r;
        }
        let r = validate_opt_non_negative_integer("runningAtMs", self.running_at_ms);
        if r.is_err() {
            return r;
        }
        let r = validate_opt_non_negative_integer("lastRunAtMs", self.last_run_at_ms);
        if r.is_err() {
            return r;
        }
        let r = validate_opt_non_negative_integer("lastDurationMs", self.last_duration_ms);
        if r.is_err() {
            return r;
        }
        let r = validate_opt_non_negative_integer("consecutiveErrors", self.consecutive_errors);
        if r.is_err() {
            return r;
        }
        let r = validate_opt_non_negative_integer("consecutiveSkipped", self.consecutive_skipped);
        if r.is_err() {
            return r;
        }
        let r = validate_opt_non_negative_integer("lastFailureAlertAtMs", self.last_failure_alert_at_ms);
        if r.is_err() {
            return r;
        }
        let r = validate_opt_non_negative_integer("lastTriggerEvalAtMs", self.last_trigger_eval_at_ms);
        if r.is_err() {
            return r;
        }
        let r = validate_opt_non_negative_integer("triggerEvalCount", self.trigger_eval_count);
        if r.is_err() {
            return r;
        }
        let r = validate_opt_non_negative_integer("lastTriggerFireAtMs", self.last_trigger_fire_at_ms);
        if r.is_err() {
            return r;
        }
        if let Some(x) = &self.last_diagnostics {
            let r = prefixed("lastDiagnostics: ", x.validate());
            if r.is_err() {
                return r;
            }
        }
        Ok(())
    }
}

/// Patch of the scheduler state (no diagnostics fields).
#[derive(Debug, Clone, Default)]
pub struct CronJobStatePatchSchema {
    pub next_run_at_ms: Option<i64>,
    pub running_at_ms: Option<i64>,
    pub last_run_at_ms: Option<i64>,
    pub last_run_status: Option<CronRunStatusSchema>,
    pub last_status: Option<DeprecatedCronRunStatusSchema>,
    pub last_error: Option<String>,
    pub last_error_reason: Option<CronFailoverReasonSchema>,
    pub last_duration_ms: Option<i64>,
    pub consecutive_errors: Option<i64>,
    pub consecutive_skipped: Option<i64>,
    pub last_delivered: Option<bool>,
    pub last_delivery_status: Option<CronDeliveryStatusSchema>,
    pub last_delivery_error: Option<String>,
    pub last_failure_notification_delivered: Option<bool>,
    pub last_failure_notification_delivery_status: Option<CronDeliveryStatusSchema>,
    pub last_failure_notification_delivery_error: Option<String>,
    pub last_failure_alert_at_ms: Option<i64>,
    pub last_trigger_eval_at_ms: Option<i64>,
    pub trigger_eval_count: Option<i64>,
    pub last_trigger_fire_at_ms: Option<i64>,
    pub trigger_state: Option<serde_json::Value>,
}

impl CronJobStatePatchSchema {
    /// `nextRunAtMs`, `lastDurationMs`, `consecutiveErrors` and
    /// `consecutiveSkipped`, when present, are `>= 0`.
    pub open spec fn check(&self) -> Outcome {
        also(opt_non_negative("nextRunAtMs"@, self.next_run_at_ms),
        also(opt_non_negative("lastDurationMs"@, self.last_duration_ms),
        also(opt_non_negative("consecutiveErrors"@, self.consecutive_errors),
        opt_non_negative("consecutiveSkipped"@, self.consecutive_skipped))))
    }

    pub fn validate(&self) -> (r: Result<(), String>)
        ensures
            outcome(r) == self.check(),
    {
        let r = validate_opt_non_negative_integer("nextRunAtMs", self.next_run_at_ms);
        if r.is_err() {
            return r;
        }
        let r = validate_opt_non_negative_integer("lastDurationMs", self.last_duration_ms);
        if r.is_err() {
            return r;
        }
        let r = validate_opt_non_negative_integer("consecutiveErrors", self.consecutive_errors);
        if r.is_err() {
            return r;
        }
        validate_opt_non_negative_integer("consecutiveSkipped", self.consecutive_skipped)
    }
}

// ===========================================================================
// CronListParamsSchema
// ===========================================================================

/// Parameters of `cron.list`.
#[derive(Debug, Clone, Default)]
pub struct CronListParamsSchema {
    pub include_disabled: Option<bool>,
    pub limit: Option<i64>,
    pub offset: Option<i64>,
    pub query: Option<String>,
    pub enabled: Option<CronJobsEnabledFilterSchema>,
    pub schedule_kind: Option<CronJobsScheduleKindFilterSchema>,
    pub last_run_status: Option<CronJobsLastRunStatusFilterSchema>,
    pub sort_by: Option<CronJobsSortBySchema>,
    pub sort_dir: Option<CronSortDirSchema>,
    pub agent_id: Option<NonEmptyString>,
    pub compact: Option<bool>,
}

/// `limit` in `[1, 200]`, reported as `limit: expected [1, 200], got n`.
pub open spec fn list_limit(limit: Option<i64>) -> Outcome {
    opt_int_in("limit"@, ": expected ["@, limit, CRON_LIST_LIMIT_MIN as int, CRON_LIST_LIMIT_MAX as int, "], got "@)
}

/// `offset >= 0`, reported as `offset: expected >= 0, got n`.
pub open spec fn list_offset(offset: Option<i64>) -> Outcome {
    opt_int_at_least("offset"@, ": expected >= "@, offset, CRON_LIST_OFFSET_MIN as int, ", got "@)
}

impl CronListParamsSchema {
    /// `limit` in `[1, 200]`, `offset >= 0`, `agentId` non-empty.
    pub open spec fn check(&self) -> Outcome {
        also(list_limit(self.limit), also(list_offset(self.offset), opt_non_empty("agentId"@, self.agent_id)))
    }

    pub fn validate(&self) -> (r: Result<(), String>)
        ensures
            outcome(r) == self.check(),
    {
        let r = require_opt_int_in("limit", ": expected [", self.limit, CRON_LIST_LIMIT_MIN, CRON_LIST_LIMIT_MAX, "], got ");
        if r.is_err() {
            return r;
        }
        let r = require_opt_int_at_least("offset", ": expected >= ", self.offset, CRON_LIST_OFFSET_MIN, ", got ");
        if r.is_err() {
            return r;
        }
        require_opt_non_empty("agentId", &self.agent_id)
    }
}

// ===========================================================================
// CronStatusParamsSchema / id-or-jobId params
// ===========================================================================

/// Parameters of `cron.status` (empty object).
#[derive(Debug, Clone, Default)]
pub struct CronStatusParamsSchema {}

impl CronStatusParamsSchema {
    /// Nothing to check.
    pub fn validate(&self) -> (r: Result<(), String>)
        ensures
            r is Ok,
    {
        Ok(())
    }
}

/// A job addressed by `id` or by `jobId`.
#[derive(Debug, Clone)]
pub enum CronIdOrJobIdParamsSchema {
    Id { id_value: NonEmptyString },
    JobId { job_id_value: NonEmptyString },
}

pub type CronGetParamsSchema = CronIdOrJobIdParamsSchema;
pub type CronRemoveParamsSchema = CronIdOrJobIdParamsSchema;

/// Fields shared by add and patch requests.
#[derive(Debug, Clone, Default)]
pub struct CronCommonOptionalFields {
    pub agent_id: Option<CronPayloadPatchNullable<String>>,
    pub session_key: Option<CronPayloadPatchNullable<String>>,
    pub description: Option<String>,
    pub enabled: Option<bool>,
    pub delete_after_run: Option<bool>,
}

/// A display name or `null`.
#[derive(Debug, Clone)]
pub enum CronNullableDisplayName {
    Value(CronDisplayNameSchema),
    Null,
}

/// A trigger or `null`.
#[derive(Debug, Clone)]
pub enum CronNullableTrigger {
    Value(CronTriggerSchema),
    Null,
}

/// Run mode of `cron.run`.
#[derive(Debug, Clone, Copy, PartialEq, Eq, Structural)]
pub enum CronRunMode {
    Due,
    Force,
}

/// Parameters of `cron.run`.
#[derive(Debug, Clone)]
pub enum CronRunParamsSchema {
    Id { id_value: NonEmptyString, mode: Option<CronRunMode> },
    JobId { job_id_value: NonEmptyString, mode: Option<CronRunMode> },
}

// ===========================================================================
// CronRunsParamsSchema
// ===========================================================================

/// Scope of `cron.runs`.
#[derive(Debug, Clone, Copy, PartialEq, Eq, Structural)]
pub enum CronRunsScope {
    Job,
    All,
}

/// Parameters of `cron.runs`.
#[derive(Debug, Clone, Default)]
pub struct CronRunsParamsSchema {
    pub scope: Option<CronRunsScope>,
    pub id: Option<CronRunLogJobIdSchema>,
    pub job_id: Option<CronRunLogJobIdSchema>,
    pub run_id: Option<NonEmptyString>,
    pub limit: Option<i64>,
    pub offset: Option<i64>,
    pub statuses: Option<Vec<CronRunsStatusValueSchema>>,
    pub status: Option<CronRunsStatusFilterSchema>,
    pub delivery_statuses: Option<Vec<CronDeliveryStatusSchema>>,
    pub delivery_status: Option<CronDeliveryStatusSchema>,
    pub query: Option<String>,
    pub sort_dir: Option<CronSortDirSchema>,
}

/// An optional run-log job id matching the run-log job id grammar.
pub open spec fn opt_run_log_job_id(field: Seq<char>, id: Option<String>) -> Outcome {
    match id {
        Some(v) => reject(
            !is_cron_run_log_job_id(v@),
            field + ": invalid cron run-log job id: "@ + str_debug(v@),
        ),
        None => Ok(()),
    }
}

fn validate_opt_run_log_job_id(field: &str, id: &Option<String>) -> (r: Result<(), String>)
    ensures
        outcome(r) == opt_run_log_job_id(field@, *id),
{
    if let Some(v) = id {
        if !is_valid_cron_run_log_job_id(v.as_str()) {
            let shown = debug_text(v.as_str());
            let mut m = String::from_str(field);
            m.append(": invalid cron run-log job id: ");
            m.append(shown.as_str());
            return Err(m);
        }
    }
    Ok(())
}

impl CronRunsParamsSchema {
    /// `id` and `jobId` match the run-log job id grammar and `runId` is
    /// non-empty, each when present; then `limit` in `[1, 200]`,
    /// `offset >= 0`, 1..=3 `statuses` and 1..=4 `deliveryStatuses` when
    /// present.
    pub open spec fn check(&self) -> Outcome {
        also(opt_run_log_job_id("id"@, self.id),
        also(opt_run_log_job_id("jobId"@, self.job_id),
        also(opt_non_empty("runId"@, self.run_id),
        also(
            list_limit(self.limit),
            also(
                list_offset(self.offset),
                also(
                    match self.statuses {
                        Some(s) => count_in(
                            "statuses"@,
                            ": expected ["@,
                            s.len() as int,
                            CRON_RUNS_STATUS_FILTER_MIN as int,
                            CRON_RUNS_STATUS_FILTER_MAX as int,
                            "] items, got "@,
                        ),
                        None => Ok(()),
                    },
                    match self.delivery_statuses {
                        Some(s) => count_in(
                            "deliveryStatuses"@,
                            ": expected ["@,
                            s.len() as int,
                            CRON_DELIVERY_STATUS_FILTER_MIN as int,
                            CRON_DELIVERY_STATUS_FILTER_MAX as int,
                            "] items, got "@,
                        ),
                        None => Ok(()),
                    },
                ),
            ),
        ))))
    }

    pub fn validate(&self) -> (r: Result<(), String>)
        ensures
            outcome(r) == self.check(),
    {
        let r = validate_opt_run_log_job_id("id", &self.id);
        if r.is_err() {
            return r;
        }
        let r = validate_opt_run_log_job_id("jobId", &self.job_id);
        if r.is_err() {
            return r;
        }
        let r = require_opt_non_empty("runId", &self.run_id);
        if r.is_err() {
            return r;
        }
        let r = require_opt_int_in("limit", ": expected [", self.limit, CRON_LIST_LIMIT_MIN, CRON_LIST_LIMIT_MAX, "], got ");
        if r.is_err() {
            return r;
        }
        let r = require_opt_int_at_least("offset", ": expected >= ", self.offset, CRON_LIST_OFFSET_MIN, ", got ");
        if r.is_err() {
            return r;
        }
        if let Some(s) = &self.statuses {
            let r = require_count_in(
                "statuses",
                ": expected [",
                s.len(),
                CRON_RUNS_STATUS_FILTER_MIN,
                CRON_RUNS_STATUS_FILTER_MAX,
                "] items, got ",
            );
            if r.is_err() {
                return r;
            }
        }
        if let Some(s) = &self.delivery_statuses {
            let r = require_count_in(
                "deliveryStatuses",
                ": expected [",
                s.len(),
                CRON_DELIVERY_STATUS_FILTER_MIN,
                CRON_DELIVERY_STATUS_FILTER_MAX,
                "] items, got ",
            );
            if r.is_err() {
                return r;
            }
        }
        Ok(())
    }
}

/// Literal `"finished"` run-log action.
#[derive(Debug, Clone, Copy, PartialEq, Eq, Hash, Structural)]
pub enum CronRunLogAction {
    Finished,
}

pub type CronListParams = CronListParamsSchema;
pub type CronStatusParams = CronStatusParamsSchema;
pub type CronGetParams = CronGetParamsSchema;
pub type CronRemoveParams = CronRemoveParamsSchema;
pub type CronRunParams = CronRunParamsSchema;
pub type CronRunsParams = CronRunsParamsSchema;

// ===========================================================================
// Jobs
// ===========================================================================

/// An optional declaration key matching the declaration-key grammar.
pub open spec fn opt_declaration_key(key: Option<String>) -> Outcome {
    match key {
        Some(k) => reject(
            !is_cron_declaration_key(k@),
            "declarationKey: invalid cron declaration key: "@ + str_debug(k@),
        ),
        None => Ok(()),
    }
}

fn validate_opt_declaration_key(key: &Option<String>) -> (r: Result<(), String>)
    ensures
        outcome(r) == opt_declaration_key(*key),
{
    if let Some(k) = key {
        if !is_valid_cron_declaration_key(k.as_str()) {
            let shown = debug_text(k.as_str());
            let mut m = String::from_str("declarationKey: invalid cron declaration key: ");
            m.append(shown.as_str());
            return Err(m);
        }
    }
    Ok(())
}

/// An optional display name matching the display-name grammar.
pub open spec fn opt_display_name(name: Option<String>) -> Outcome {
    match name {
        Some(n) => reject(
            !is_cron_display_name(n@),
            "displayName: invalid cron display name: "@ + str_debug(n@),
        ),
        None => Ok(()),
    }
}

fn validate_opt_display_name(name: &Option<String>) -> (r: Result<(), String>)
    ensures
        outcome(r) == opt_display_name(*name),
{
    if let Some(n) = name {
        if !is_valid_cron_display_name(n.as_str()) {
            let shown = debug_text(n.as_str());
            let mut m = String::from_str("displayName: invalid cron display name: ");
            m.append(shown.as_str());
            return Err(m);
        }
    }
    Ok(())
}

/// An optional config revision matching the config-revision grammar.
pub open spec fn opt_config_revision(rev: Option<String>) -> Outcome {
    match rev {
        Some(r) => reject(
            !is_cron_config_revision(r@),
            "configRevision: invalid cron config revision: "@ + str_debug(r@),
        ),
        None => Ok(()),
    }
}

fn validate_opt_config_revision(rev: &Option<String>) -> (r: Result<(), String>)
    ensures
        outcome(r) == opt_config_revision(*rev),
{
    if let Some(c) = rev {
        if !is_valid_cron_config_revision(c.as_str()) {
            let shown = debug_text(c.as_str());
            let mut m = String::from_str("configRevision: invalid cron config revision: ");
            m.append(shown.as_str());
            return Err(m);
        }
    }
    Ok(())
}

/// An optional owner, its message prefixed `owner: `.
pub open spec fn opt_owner(owner: Option<CronOwnerSchema>) -> Outcome {
    match owner {
        Some(o) => within("owner: "@, o.check()),
        None => Ok(()),
    }
}

fn validate_opt_owner(owner: &Option<CronOwnerSchema>) -> (r: Result<(), String>)
    ensures
        outcome(r) == opt_owner(*owner),
{
    match owner {
        Some(o) => prefixed("owner: ", o.validate()),
        None => Ok(()),
    }
}

/// The schedule, trigger, session target, payload and delivery of a job,
/// each prefixed with its field name.
pub open spec fn plan_check(
    schedule: CronScheduleSchema,
    trigger: Option<CronTriggerSchema>,
    session_target: CronSessionTargetSchema,
    payload: CronPayloadSchema,
    delivery: Option<CronDeliverySchema>,
) -> Outcome {
    also(within("schedule: "@, schedule.check()),
    also(match trigger {
        Some(t) => within("trigger: "@, t.check()),
        None => Ok(()),
    },
    also(within("sessionTarget: "@, session_target.check()),
    also(within("payload: "@, payload.check()),
    match delivery {
        Some(d) => within("delivery: "@, d.check()),
        None => Ok(()),
    }))))
}

fn validate_plan(
    schedule: &CronScheduleSchema,
    trigger: &Option<CronTriggerSchema>,
    session_target: &CronSessionTargetSchema,
    payload: &CronPayloadSchema,
    delivery: &Option<CronDeliverySchema>,
) -> (r: Result<(), String>)
    ensures
        outcome(r) == plan_check(*schedule, *trigger, *session_target, *payload, *delivery),
{
    let r = prefixed("schedule: ", schedule.validate());
    if r.is_err() {
        return r;
    }
    if let Some(t) = trigger {
        let r = prefixed("trigger: ", t.validate());
        if r.is_err() {
            return r;
        }
    }
    let r = prefixed("sessionTarget: ", validate_session_target(session_target));
    if r.is_err() {
        return r;
    }
    let r = prefixed("payload: ", payload.validate());
    if r.is_err() {
        return r;
    }
    match delivery {
        Some(d) => prefixed("delivery: ", d.validate()),
        None => Ok(()),
    }
}

/// An enabled failure alert, its message prefixed `failureAlert: `.
pub open spec fn opt_failure_alert(alert: Option<CronFailureAlertOption>) -> Outcome {
    match alert {
        Some(CronFailureAlertOption::Alert(a)) => within("failureAlert: "@, a.check()),
        _ => Ok(()),
    }
}

fn validate_opt_failure_alert(alert: &Option<CronFailureAlertOption>) -> (r: Result<(), String>)
    ensures
        outcome(r) == opt_failure_alert(*alert),
{
    match alert {
        Some(CronFailureAlertOption::Alert(a)) => prefixed("failureAlert: ", a.validate()),
        _ => Ok(()),
    }
}

/// Persisted cron job definition returned by the scheduler's list and get APIs.
#[derive(Debug, Clone)]
pub struct CronJobSchema {
    pub id: NonEmptyString,
    pub declaration_key: Option<CronDeclarationKeySchema>,
    pub display_name: Option<CronDisplayNameSchema>,
    pub owner: Option<CronOwnerSchema>,
    pub agent_id: Option<NonEmptyString>,
    pub session_key: Option<NonEmptyString>,
    pub name: NonEmptyString,
    pub description: Option<String>,
    pub enabled: bool,
    pub delete_after_run: Option<bool>,
    pub created_at_ms: i64,
    pub updated_at_ms: i64,
    pub config_revision: Option<CronConfigRevisionSchema>,
    pub schedule: CronScheduleSchema,
    pub trigger: Option<CronTriggerSchema>,
    pub session_target: CronSessionTargetSchema,
    pub wake_mode: CronWakeModeSchema,
    pub payload: CronPayloadSchema,
    pub delivery: Option<CronDeliverySchema>,
    pub failure_alert: Option<CronFailureAlertOption>,
    pub state: CronJobStateSchema,
    pub next_run_at_ms_flat: Option<i64>,
    pub last_run_at_ms_flat: Option<i64>,
    pub last_run_status_flat: Option<CronRunStatusSchema>,
    pub last_run_error: Option<String>,
    pub last_delivered_flat: Option<bool>,
    pub last_delivery_status_flat: Option<CronDeliveryStatusSchema>,
    pub last_delivery_error_flat: Option<String>,
    pub last_failure_notification_delivered_flat: Option<bool>,
    pub last_failure_notification_delivery_status_flat: Option<CronDeliveryStatusSchema>,
    pub last_failure_notification_delivery_error_flat: Option<String>,
}

impl CronJobSchema {
    /// The identity of the job: id, declaration key, display name, owner,
    /// agent id, session key, name, creation and update times, and config
    /// revision.
    pub open spec fn identity_check(&self) -> Outcome {
        also(non_empty("id"@, self.id@),
        also(opt_declaration_key(self.declaration_key),
        also(opt_display_name(self.display_name),
        also(opt_owner(self.owner),
        also(opt_non_empty("agentId"@, self.agent_id),
        also(opt_non_empty("sessionKey"@, self.session_key),
        also(non_empty("name"@, self.name@),
        also(non_negative("createdAtMs"@, self.created_at_ms as int),
        also(non_negative("updatedAtMs"@, self.updated_at_ms as int),
        opt_config_revision(self.config_revision))))))))))
    }

    /// The identity, then schedule, trigger, payload, delivery, state and
    /// failure alert, each nested message prefixed with its field name.
    pub open spec fn check(&self) -> Outcome {
        also(self.identity_check(),
        also(plan_check(self.schedule, self.trigger, self.session_target, self.payload, self.delivery),
        also(within("state: "@, self.state.check()),
        opt_failure_alert(self.failure_alert))))
    }

    pub fn validate(&self) -> (r: Result<(), String>)
        ensures
            outcome(r) == self.check(),
    {
        let r = require_non_empty("id", self.id.as_str());
        if r.is_err() {
            return r;
        }
        let r = validate_opt_declaration_key(&self.declaration_key);
        if r.is_err() {
            return r;
        }
        let r = validate_opt_display_name(&self.display_name);
        if r.is_err() {
            return r;
        }
        let r = validate_opt_owner(&self.owner);
        if r.is_err() {
            return r;
        }
        let r = require_opt_non_empty("agentId", &self.agent_id);
        if r.is_err() {
            return r;
        }
        let r = require_opt_non_empty("sessionKey", &self.session_key);
        if r.is_err() {
            return r;
        }
        let r = require_non_empty("name", self.name.as_str());
        if r.is_err() {
            return r;
        }
        let r = validate_non_negative_integer("createdAtMs", self.created_at_ms);
        if r.is_err() {
            return r;
        }
        let r = validate_non_negative_integer("updatedAtMs", self.updated_at_ms);
        if r.is_err() {
            return r;
        }
        let r = validate_opt_config_revision(&self.config_revision);
        if r.is_err() {
            return r;
        }
        let r = validate_plan(&self.schedule, &self.trigger, &self.session_target, &self.payload, &self.delivery);
        if r.is_err() {
            return r;
        }
        let r = prefixed("state: ", self.state.validate());
        if r.is_err() {
            return r;
        }
        validate_opt_failure_alert(&self.failure_alert)
    }
}

/// Creates a scheduled job with its schedule, target, payload and delivery
/// policy.
#[derive(Debug, Clone)]
pub struct CronAddParamsSchema {
    pub name: NonEmptyString,
    pub declaration_key: Option<CronDeclarationKeySchema>,
    pub display_name: Option<CronDisplayNameSchema>,
    pub owner: Option<CronOwnerSchema>,
    pub common: CronCommonOptionalFields,
    pub schedule: CronScheduleSchema,
    pub trigger: Option<CronTriggerSchema>,
    pub session_target: CronSessionTargetSchema,
    pub wake_mode: CronWakeModeSchema,
    pub payload: CronPayloadSchema,
    pub delivery: Option<CronDeliverySchema>,
    pub failure_alert: Option<CronFailureAlertOption>,
}

impl CronAddParamsSchema {
    /// Name, declaration key, display name, owner, then schedule, trigger,
    /// payload, delivery and failure alert, each nested message prefixed with
    /// its field name.
    pub open spec fn check(&self) -> Outcome {
        also(non_empty("name"@, self.name@),
        also(opt_declaration_key(self.declaration_key),
        also(opt_display_name(self.display_name),
        also(opt_owner(self.owner),
        also(plan_check(self.schedule, self.trigger, self.session_target, self.payload, self.delivery),
        opt_failure_alert(self.failure_alert))))))
    }

    pub fn validate(&self) -> (r: Result<(), String>)
        ensures
            outcome(r) == self.check(),
    {
        let r = require_non_empty("name", self.name.as_str());
        if r.is_err() {
            return r;
        }
        let r = validate_opt_declaration_key(&self.declaration_key);
        if r.is_err() {
            return r;
        }
        let r = validate_opt_display_name(&self.display_name);
        if r.is_err() {
            return r;
        }
        let r = validate_opt_owner(&self.owner);
        if r.is_err() {
            return r;
        }
        let r = validate_plan(&self.schedule, &self.trigger, &self.session_target, &self.payload, &self.delivery);
        if r.is_err() {
            return r;
        }
        validate_opt_failure_alert(&self.failure_alert)
    }
}

/// Result of converging on a declaration key.
#[derive(Debug, Clone)]
pub struct CronDeclarativeAddResultSchema {
    pub created: bool,
    pub updated: Option<bool>,
    pub job: CronJobSchema,
}

/// Result of an imperative create or of a declaration-key convergence.
#[derive(Debug, Clone)]
pub enum CronAddResultSchema {
    Job(CronJobSchema),
    Declarative(CronDeclarativeAddResultSchema),
}

/// Mutable job fields accepted by the update APIs.
#[derive(Debug, Clone, Default)]
pub struct CronJobPatchSchema {
    pub name: Option<NonEmptyString>,
    pub display_name: Option<CronNullableDisplayName>,
    pub common: CronCommonOptionalFields,
    pub schedule: Option<CronScheduleSchema>,
    pub trigger: Option<CronNullableTrigger>,
    pub session_target: Option<CronSessionTargetSchema>,
    pub wake_mode: Option<CronWakeModeSchema>,
    pub payload: Option<CronPayloadPatchSchema>,
    pub delivery: Option<CronDeliveryPatchSchema>,
    pub failure_alert: Option<CronFailureAlertOption>,
    pub state: Option<CronJobStatePatchSchema>,
}

/// Updates a job by `id` or by the legacy `jobId` alias.
#[derive(Debug, Clone)]
pub enum CronUpdateParamsSchema {
    Id { id_value: NonEmptyString, patch: CronJobPatchSchema, expected_config_revision: Option<CronConfigRevisionSchema> },
    JobId {
        job_id_value: NonEmptyString,
        patch: CronJobPatchSchema,
        expected_config_revision: Option<CronConfigRevisionSchema>,
    },
}

// ===========================================================================
// Run log
// ===========================================================================

/// Model usage attached to a run log entry.
#[derive(Debug, Clone, Default)]
pub struct CronRunUsageSchema {
    pub input_tokens: Option<NumberValue>,
    pub output_tokens: Option<NumberValue>,
    pub total_tokens: Option<NumberValue>,
    pub cache_read_tokens: Option<NumberValue>,
    pub cache_write_tokens: Option<NumberValue>,
}

/// One persisted cron run history entry.
#[derive(Debug, Clone)]
pub struct CronRunLogEntrySchema {
    pub ts: i64,
    pub job_id: NonEmptyString,
    /// Always `finished`.
    pub action: CronRunLogAction,
    pub status: Option<CronRunStatusSchema>,
    pub error: Option<String>,
    pub error_reason: Option<CronFailoverReasonSchema>,
    pub summary: Option<String>,
    pub diagnostics: Option<CronRunDiagnosticsSchema>,
    pub delivered: Option<bool>,
    pub delivery_status: Option<CronDeliveryStatusSchema>,
    pub delivery_error: Option<String>,
    pub failure_notification_delivery: Option<CronFailureNotificationDeliverySchema>,
    pub session_id: Option<NonEmptyString>,
    pub session_key: Option<NonEmptyString>,
    pub run_id: Option<NonEmptyString>,
    pub run_at_ms: Option<i64>,
    pub duration_ms: Option<i64>,
    pub next_run_at_ms: Option<i64>,
    pub trigger_fired: Option<bool>,
    pub model: Option<String>,
    pub provider: Option<String>,
    pub usage: Option<CronRunUsageSchema>,
    pub job_name: Option<String>,
}

impl CronRunLogEntrySchema {
    /// `ts >= 0`, `jobId` non-empty, the diagnostics (prefixed
    /// `diagnostics: `), then `sessionId`, `sessionKey` and `runId` non-empty
    /// when present.
    pub open spec fn check(&self) -> Outcome {
        also(non_negative("ts"@, self.ts as int),
        also(non_empty("jobId"@, self.job_id@),
        also(match self.diagnostics {
            Some(d) => within("diagnostics: "@, d.check()),
            None => Ok(()),
        },
        also(opt_non_empty("sessionId"@, self.session_id),
        also(opt_non_empty("sessionKey"@, self.session_key),
        opt_non_empty("runId"@, self.run_id))))))
    }

    pub fn validate(&self) -> (r: Result<(), String>)
        ensures
            outcome(r) == self.check(),
    {
        let r = validate_non_negative_integer("ts", self.ts);
        if r.is_err() {
            return r;
        }
        let r = require_non_empty("jobId", self.job_id.as_str());
        if r.is_err() {
            return r;
        }
        if let Some(d) = &self.diagnostics {
            let r = prefixed("diagnostics: ", d.validate());
            if r.is_err() {
                return r;
            }
        }
        let r = require_opt_non_empty("sessionId", &self.session_id);
        if r.is_err() {
            return r;
        }
        let r = require_opt_non_empty("sessionKey", &self.session_key);
        if r.is_err() {
            return r;
        }
        require_opt_non_empty("runId", &self.run_id)
    }
}

/// A `cron.add` request is checked together with its delivery block: one that
/// passes carries a delivery that passes on its own (so a webhook delivery has
/// a target with a character that is not white space), and when the request
/// without its delivery passes but the delivery fails with message `m`, the
/// request fails with `delivery: m`.
pub proof fn add_params_check_their_delivery(p: CronAddParamsSchema)
    ensures
        p.check() is Ok ==> (p.delivery matches Some(d) ==> d.check() is Ok),
        p.check() is Ok ==> (p.delivery matches Some(CronDeliverySchema::Webhook { to, .. }) ==> to@.len() >= 1
            && has_non_white_space(to@)),
        (CronAddParamsSchema { delivery: None, ..p }).check() is Ok ==> match p.delivery {
            Some(d) => match d.check() {
                Err(m) => p.check() == Err::<(), Seq<char>>("delivery: "@ + m),
                Ok(()) => p.check() is Ok,
            },
            None => p.check() is Ok,
        },
{
}

pub type CronJob = CronJobSchema;
pub type CronAddParams = CronAddParamsSchema;
pub type CronAddResult = CronAddResultSchema;
pub type CronDeclarativeAddResult = CronDeclarativeAddResultSchema;
pub type CronUpdateParams = CronUpdateParamsSchema;

// ---------------------------------------------------------------------------
// What each schema accepts
// ---------------------------------------------------------------------------

/// A `CronOwnerSchema` passes validation exactly when every condition below holds;
/// a value that breaks one is rejected.
pub proof fn cron_owner_schema_accepts(x: CronOwnerSchema)
    ensures
        x.check() is Ok <==> {
            &&& (x.agent_id matches Some(s) ==> s@.len() > 0)
            &&& (x.session_key matches Some(s) ==> s@.len() > 0)
        },
{
}

/// A `CronTriggerSchema` passes validation exactly when every condition below holds;
/// a value that breaks one is rejected.
pub proof fn cron_trigger_schema_accepts(x: CronTriggerSchema)
    ensures
        x.check() is Ok <==> {
            &&& CRON_TRIGGER_SCRIPT_MIN_LENGTH as int <= x.script@.len() <= CRON_TRIGGER_SCRIPT_MAX_LENGTH as int
        },
{
}

/// A `CronCompletionDestinationSchema` passes validation exactly when every condition below holds;
/// a value that breaks one is rejected.
pub proof fn cron_completion_destination_schema_accepts(x: CronCompletionDestinationSchema)
    ensures
        x.check() is Ok <==> {
            &&& (x.to@.len() >= 1 && has_non_white_space(x.to@))
        },
{
}

/// A `CronRunDiagnosticSchema` passes validation exactly when every condition below holds;
/// a value that breaks one is rejected.
pub proof fn cron_run_diagnostic_schema_accepts(x: CronRunDiagnosticSchema)
    ensures
        x.check() is Ok <==> {
            &&& x.ts as int >= 0
        },
{
}

/// A `CronRunDiagnosticsSchema` passes validation exactly when every condition below holds;
/// a value that breaks one is rejected.
pub proof fn cron_run_diagnostics_schema_accepts(x: CronRunDiagnosticsSchema)
    ensures
        x.check() is Ok <==> {
            &&& (forall|k: int| 0 <= k < x.entries@.len() ==> (#[trigger] x.entries@[k]).checks() is Ok)
        },
{
    crate::checks::each_checked_first_failure("entries"@, x.entries@, 0);
}

/// A `CronJobStateSchema` passes validation exactly when every condition below holds;
/// a value that breaks one is rejected.
pub proof fn cron_job_state_schema_accepts(x: CronJobStateSchema)
    ensures
        x.check() is Ok <==> {
            &&& (x.next_run_at_ms matches Some(n) ==> n >= 0)
            &&& (x.running_at_ms matches Some(n) ==> n >= 0)
            &&& (x.last_run_at_ms matches Some(n) ==> n >= 0)
            &&& (x.last_duration_ms matches Some(n) ==> n >= 0)
            &&& (x.consecutive_errors matches Some(n) ==> n >= 0)
            &&& (x.consecutive_skipped matches Some(n) ==> n >= 0)
            &&& (x.last_failure_alert_at_ms matches Some(n) ==> n >= 0)
            &&& (x.last_trigger_eval_at_ms matches Some(n) ==> n >= 0)
            &&& (x.trigger_eval_count matches Some(n) ==> n >= 0)
            &&& (x.last_trigger_fire_at_ms matches Some(n) ==> n >= 0)
            &&& (x.last_diagnostics matches Some(x) ==> x.check() is Ok)
        },
{
}

/// A `CronJobStatePatchSchema` passes validation exactly when every condition below holds;
/// a value that breaks one is rejected.
pub proof fn cron_job_state_patch_schema_accepts(x: CronJobStatePatchSchema)
    ensures
        x.check() is Ok <==> {
            &&& (x.next_run_at_ms matches Some(n) ==> n >= 0)
            &&& (x.last_duration_ms matches Some(n) ==> n >= 0)
            &&& (x.consecutive_errors matches Some(n) ==> n >= 0)
            &&& (x.consecutive_skipped matches Some(n) ==> n >= 0)
        },
{
}

/// A `CronRunLogEntrySchema` passes validation exactly when every condition below holds;
/// a value that breaks one is rejected.
pub proof fn cron_run_log_entry_schema_accepts(x: CronRunLogEntrySchema)
    ensures
        x.check() is Ok <==> {
            &&& x.ts as int >= 0
            &&& x.job_id@.len() > 0
            &&& (x.diagnostics matches Some(d) ==> d.check() is Ok)
            &&& (x.session_id matches Some(s) ==> s@.len() > 0)
            &&& (x.session_key matches Some(s) ==> s@.len() > 0)
            &&& (x.run_id matches Some(s) ==> s@.len() > 0)
        },
{
}

/// A `CronFailureDestinationSchema` passes validation exactly when every condition below holds;
/// a value that breaks one is rejected.
pub proof fn cron_failure_destination_schema_accepts(x: CronFailureDestinationSchema)
    ensures
        x.check() is Ok <==> {
            &&& (x.channel matches Some(CronAnnounceChannelSchema::Other(c)) ==> c@.len() >= 1 && has_non_white_space(c@))
            &&& (x.to matches Some(s) ==> s@.len() >= 1 && has_non_white_space(s@))
            &&& (x.account_id matches Some(s) ==> s@.len() > 0)
        },
{
}

/// A `CronDeliverySharedProperties` passes validation exactly when every condition below holds;
/// a value that breaks one is rejected.
pub proof fn cron_delivery_shared_properties_accepts(x: CronDeliverySharedProperties)
    ensures
        x.check() is Ok <==> {
            &&& (x.channel matches Some(CronAnnounceChannelSchema::Other(c)) ==> c@.len() >= 1 && has_non_white_space(c@))
            &&& (x.account_id matches Some(s) ==> s@.len() > 0)
            &&& (x.failure_destination matches Some(x) ==> x.check() is Ok)
        },
{
}

/// A `CronListParamsSchema` passes validation exactly when every condition below holds;
/// a value that breaks one is rejected.
pub proof fn cron_list_params_schema_accepts(x: CronListParamsSchema)
    ensures
        x.check() is Ok <==> {
            &&& (x.limit matches Some(n) ==> 1 <= n <= 200)
            &&& (x.offset matches Some(n) ==> n >= 0)
            &&& (x.agent_id matches Some(s) ==> s@.len() > 0)
        },
{
}

/// A `CronFailureAlertSchema` passes validation exactly when every condition below holds;
/// a value that breaks one is rejected.
pub proof fn cron_failure_alert_schema_accepts(x: CronFailureAlertSchema)
    ensures
        x.check() is Ok <==> {
            &&& (x.after matches Some(a) ==> !(a < 1))
            &&& (x.channel matches Some(CronAnnounceChannelSchema::Other(c)) ==> c@.len() >= 1 && has_non_white_space(c@))
            &&& (x.to matches Some(s) ==> s@.len() >= 1 && has_non_white_space(s@))
            &&& (x.cooldown_ms matches Some(n) ==> n >= 0)
            &&& (x.account_id matches Some(s) ==> s@.len() > 0)
        },
{
}

/// A `CronRunsParamsSchema` passes validation exactly when every condition below holds;
/// a value that breaks one is rejected.
pub proof fn cron_runs_params_schema_accepts(x: CronRunsParamsSchema)
    ensures
        x.check() is Ok <==> {
            &&& (x.id matches Some(v) ==> is_cron_run_log_job_id(v@))
            &&& (x.job_id matches Some(v) ==> is_cron_run_log_job_id(v@))
            &&& (x.run_id matches Some(s) ==> s@.len() > 0)
            &&& (x.limit matches Some(n) ==> 1 <= n <= 200)
            &&& (x.offset matches Some(n) ==> n >= 0)
            &&& (x.statuses matches Some(s) ==> CRON_RUNS_STATUS_FILTER_MIN as int <= s.len() as int <= CRON_RUNS_STATUS_FILTER_MAX as int)
            &&& (x.delivery_statuses matches Some(s) ==> CRON_DELIVERY_STATUS_FILTER_MIN as int <= s.len() as int <= CRON_DELIVERY_STATUS_FILTER_MAX as int)
        },
{
}

/// A session target passes validation exactly when it is one of the literal
/// targets or text of the form `session:` followed by a character that is no
/// line terminator.
pub proof fn cron_session_target_schema_accepts(x: CronSessionTargetSchema)
    ensures
        x.check() is Ok <==> (x matches CronSessionTargetSchema::Other(s) ==> is_session_target_text(s@)),
{
}

/// A schedule passes validation exactly when the conditions of its kind hold:
/// `at` non-empty; `everyMs >= 1` and the anchor `>= 0`; `expr` non-empty and
/// the stagger `>= 0`; `command` non-empty and `cwd` non-empty when present.
pub proof fn cron_schedule_schema_accepts(x: CronScheduleSchema)
    ensures
        x.check() is Ok <==> match x {
            CronScheduleSchema::At { at } => at@.len() > 0,
            CronScheduleSchema::Every { every_ms, anchor_ms } =>
                every_ms >= 1 && (anchor_ms matches Some(a) ==> a >= 0),
            CronScheduleSchema::Cron { expr, stagger_ms, .. } =>
                expr@.len() > 0 && (stagger_ms matches Some(n) ==> n >= 0),
            CronScheduleSchema::OnExit { command, cwd } =>
                command@.len() > 0 && (cwd matches Some(c) ==> c@.len() > 0),
        },
{
}

/// A payload passes validation exactly when a system event has text, an agent
/// turn a message, and a command at least one argument, none of them empty.
pub proof fn cron_payload_schema_accepts(x: CronPayloadSchema)
    ensures
        x.check() is Ok <==> match x {
            CronPayloadSchema::SystemEvent(p) => p.text@.len() > 0,
            CronPayloadSchema::AgentTurn(p) => p.message@.len() > 0,
            CronPayloadSchema::Command(p) => p.argv@.len() > 0
                && forall|k: int| 0 <= k < p.argv@.len() ==> (#[trigger] p.argv@[k]@).len() > 0,
        },
{
    if let CronPayloadSchema::Command(p) = x {
        crate::checks::each_non_empty_all_pass("argv"@, p.argv@, 0);
    }
}

/// A payload patch passes validation exactly when the fields it sets would
/// pass in a full payload.
pub proof fn cron_payload_patch_schema_accepts(x: CronPayloadPatchSchema)
    ensures
        x.check() is Ok <==> match x {
            CronPayloadPatchSchema::SystemEvent(p) => p.text matches Some(t) ==> t@.len() > 0,
            CronPayloadPatchSchema::AgentTurn(p) => p.message matches Some(m) ==> m@.len() > 0,
            CronPayloadPatchSchema::Command(p) => p.argv matches Some(argv) ==> (argv@.len() > 0
                && forall|k: int| 0 <= k < argv@.len() ==> (#[trigger] argv@[k]@).len() > 0),
        },
{
    if let CronPayloadPatchSchema::Command(p) = x {
        if let Some(argv) = p.argv {
            crate::checks::each_non_empty_all_pass("argv"@, argv@, 0);
        }
    }
}

/// A delivery passes validation exactly when its shared fields pass, an
/// announce's completion destination passes, and `to` is non-blank: always
/// for a webhook, when present otherwise.
pub proof fn cron_delivery_schema_accepts(x: CronDeliverySchema)
    ensures
        x.check() is Ok <==> match x {
            CronDeliverySchema::NoDelivery { shared, to } => shared.check() is Ok
                && (to matches Some(t) ==> t@.len() >= 1 && has_non_white_space(t@)),
            CronDeliverySchema::Announce { shared, completion_destination, to } => shared.check() is Ok
                && (completion_destination matches Some(cd) ==> cd.check() is Ok)
                && (to matches Some(t) ==> t@.len() >= 1 && has_non_white_space(t@)),
            CronDeliverySchema::Webhook { shared, to } => shared.check() is Ok
                && to@.len() >= 1 && has_non_white_space(to@),
        },
{
}

/// A cron.add request passes validation exactly when its name is non-empty,
/// its declaration key and display name are well formed when present, and
/// each nested block (owner, schedule, trigger, session target, payload,
/// delivery, failure alert) passes its own validation.
pub proof fn cron_add_params_schema_accepts(x: CronAddParamsSchema)
    ensures
        x.check() is Ok <==> {
            &&& x.name@.len() > 0
            &&& (x.declaration_key matches Some(k) ==> is_cron_declaration_key(k@))
            &&& (x.display_name matches Some(n) ==> is_cron_display_name(n@))
            &&& (x.owner matches Some(o) ==> o.check() is Ok)
            &&& x.schedule.check() is Ok
            &&& (x.trigger matches Some(t) ==> t.check() is Ok)
            &&& x.session_target.check() is Ok
            &&& x.payload.check() is Ok
            &&& (x.delivery matches Some(d) ==> d.check() is Ok)
            &&& (x.failure_alert matches Some(CronFailureAlertOption::Alert(a)) ==> a.check() is Ok)
        },
{
}

/// A stored cron job passes validation exactly when its identity fields are
/// well formed (id and name non-empty, agent id and session key non-empty when
/// present, times `>= 0`) and each nested block passes its own validation.
pub proof fn cron_job_schema_accepts(x: CronJobSchema)
    ensures
        x.check() is Ok <==> {
            &&& x.id@.len() > 0
            &&& (x.declaration_key matches Some(k) ==> is_cron_declaration_key(k@))
            &&& (x.display_name matches Some(n) ==> is_cron_display_name(n@))
            &&& (x.owner matches Some(o) ==> o.check() is Ok)
            &&& (x.agent_id matches Some(a) ==> a@.len() > 0)
            &&& (x.session_key matches Some(k) ==> k@.len() > 0)
            &&& x.name@.len() > 0
            &&& x.created_at_ms >= 0
            &&& x.updated_at_ms >= 0
            &&& (x.config_revision matches Some(r) ==> is_cron_config_revision(r@))
            &&& x.schedule.check() is Ok
            &&& (x.trigger matches Some(t) ==> t.check() is Ok)
            &&& x.session_target.check() is Ok
            &&& x.payload.check() is Ok
            &&& (x.delivery matches Some(d) ==> d.check() is Ok)
            &&& x.state.check() is Ok
            &&& (x.failure_alert matches Some(CronFailureAlertOption::Alert(a)) ==> a.check() is Ok)
        },
{
}

} // verus!
