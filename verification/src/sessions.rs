//! Session protocol schemas.
//!
//! These requests and results cover transcript discovery, lifecycle control,
//! compaction checkpoints, per-session plugin state, file browsing, diffs and
//! usage reporting. They are shared by dashboard, CLI, ACP and gateway RPC
//! callers.
use vstd::prelude::*;
use crate::checks::{
    also, at_least, bound_msg, index_label, index_label_text, non_empty_msg, count_bound_msg_text, count_in, each_checked, each_non_empty,
    in_inclusive, non_empty, non_negative_integer, opt_non_empty, opt_non_negative_integer,
    opt_positive_integer, outcome, positive_integer, prefixed, reject, require_at_least,
    require_count_in, require_each_non_empty, require_in_inclusive, require_non_empty,
    require_non_negative_integer, require_opt_non_empty, require_opt_non_negative_integer,
    require_opt_positive_integer, require_positive_integer, validate_each, within, Checked,
    Outcome,
};
use crate::frames::ErrorShape;
use crate::json::NumberValue;
use crate::primitives::{is_valid_session_label, SessionLabelString, SESSION_LABEL_MAX_LENGTH};
use crate::text::{debug_text, decimal, is_digit, is_lower, str_debug, str_eq, usize_text};

verus! {

/// An arbitrary plugin-owned JSON payload carried opaquely through the gateway.
pub type PluginJsonValueSchema = serde_json::Value;

/// A 64-character lower-case hex hash.
pub const SESSION_FILE_HASH_PATTERN: &'static str = "^[a-f0-9]{64}$";

/// A worktree name: a lower-case letter or digit, then up to 63 more or hyphens.
pub const WORKTREE_NAME_PATTERN: &'static str = "^[a-z0-9][a-z0-9-]{0,63}$";

/// An ISO date `YYYY-MM-DD`.
pub const SESSIONS_USAGE_DATE_PATTERN: &'static str = "^\\d{4}-\\d{2}-\\d{2}$";

/// A UTC offset `UTC+H`, `UTC-HH` or `UTC+H:MM`.
pub const SESSIONS_USAGE_UTC_OFFSET_PATTERN: &'static str = "^UTC[+-]\\d{1,2}(?::[0-5]\\d)?$";

/// Longest search query, in characters.
pub const SESSIONS_SEARCH_QUERY_MAX_LENGTH: usize = 4096;
/// Most session keys one search may name.
pub const SESSIONS_SEARCH_SESSION_KEYS_MAX_ITEMS: usize = 200;
/// Largest search `limit`.
pub const SESSIONS_SEARCH_LIMIT_MAX: i64 = 25;
/// Smallest excerpt `maxChars`.
pub const SESSIONS_PREVIEW_MAX_CHARS_MIN: i64 = 20;
/// Most group names one put may carry.
pub const SESSIONS_GROUPS_NAMES_MAX_ITEMS: usize = 200;

// ---------------------------------------------------------------------------
// Grammars
// ---------------------------------------------------------------------------

/// `[a-f0-9]`.
pub open spec fn is_lower_hex(c: char) -> bool {
    is_digit(c) || ('a' <= c && c <= 'f')
}

/// `^[a-f0-9]{64}$`.
pub open spec fn is_session_file_hash(s: Seq<char>) -> bool {
    s.len() == 64 && forall|i: int| 0 <= i < s.len() ==> is_lower_hex(#[trigger] s[i])
}

/// Decides `is_session_file_hash`.
pub fn matches_session_file_hash(s: &str) -> (r: bool)
    ensures
        r == is_session_file_hash(s@),
{
    let n = s.unicode_len();
    if n != 64 {
        return false;
    }
    let mut i: usize = 0;
    while i < n
        invariant
            n == s@.len(),
            i <= n,
            forall|j: int| 0 <= j < i ==> is_lower_hex(#[trigger] s@[j]),
        decreases n - i,
    {
        let c = s.get_char(i);
        if !(('0' <= c && c <= '9') || ('a' <= c && c <= 'f')) {
            assert(!is_lower_hex(s@[i as int]));
            return false;
        }
        i = i + 1;
    }
    true
}

/// `[a-z0-9-]`.
pub open spec fn is_worktree_name_char(c: char) -> bool {
    is_lower(c) || is_digit(c) || c == '-'
}

/// `^[a-z0-9][a-z0-9-]{0,63}$`.
pub open spec fn is_worktree_name(s: Seq<char>) -> bool {
    &&& 1 <= s.len() <= 64
    &&& (is_lower(s[0]) || is_digit(s[0]))
    &&& forall|i: int| 1 <= i < s.len() ==> is_worktree_name_char(#[trigger] s[i])
}

/// Decides `is_worktree_name`.
pub fn matches_worktree_name(s: &str) -> (r: bool)
    ensures
        r == is_worktree_name(s@),
{
    let n = s.unicode_len();
    if n < 1 || n > 64 {
        return false;
    }
    let first = s.get_char(0);
    if !(('a' <= first && first <= 'z') || ('0' <= first && first <= '9')) {
        return false;
    }
    let mut i: usize = 1;
    while i < n
        invariant
            n == s@.len(),
            1 <= i <= n,
            forall|j: int| 1 <= j < i ==> is_worktree_name_char(#[trigger] s@[j]),
        decreases n - i,
    {
        let c = s.get_char(i);
        if !(('a' <= c && c <= 'z') || ('0' <= c && c <= '9') || c == '-') {
            assert(!is_worktree_name_char(s@[i as int]));
            return false;
        }
        i = i + 1;
    }
    true
}

/// `^\d{4}-\d{2}-\d{2}$` with ASCII digits: `YYYY-MM-DD`.
pub open spec fn is_usage_date(s: Seq<char>) -> bool {
    &&& s.len() == 10
    &&& is_digit(s[0]) && is_digit(s[1]) && is_digit(s[2]) && is_digit(s[3])
    &&& s[4] == '-'
    &&& is_digit(s[5]) && is_digit(s[6])
    &&& s[7] == '-'
    &&& is_digit(s[8]) && is_digit(s[9])
}

fn digit_at(s: &str, i: usize) -> (r: bool)
    requires
        i < s@.len(),
    ensures
        r == is_digit(s@[i as int]),
{
    let c = s.get_char(i);
    '0' <= c && c <= '9'
}

/// Decides `is_usage_date`.
pub fn matches_usage_date(s: &str) -> (r: bool)
    ensures
        r == is_usage_date(s@),
{
    if s.unicode_len() != 10 {
        return false;
    }
    digit_at(s, 0) && digit_at(s, 1) && digit_at(s, 2) && digit_at(s, 3) && s.get_char(4) == '-'
        && digit_at(s, 5) && digit_at(s, 6) && s.get_char(7) == '-' && digit_at(s, 8) && digit_at(s, 9)
}

/// `[0-5]`.
pub open spec fn is_minute_tens(c: char) -> bool {
    '0' <= c && c <= '5'
}

/// `^UTC[+-]\d{1,2}(?::[0-5]\d)?$` with ASCII digits: `UTC`, a sign, one or two
/// hour digits, then optionally `:` and two minute digits (the first `0`-`5`).
pub open spec fn is_utc_offset(s: Seq<char>) -> bool {
    &&& s.len() >= 5
    &&& s[0] == 'U' && s[1] == 'T' && s[2] == 'C'
    &&& (s[3] == '+' || s[3] == '-')
    &&& is_digit(s[4])
    &&& {
        ||| s.len() == 5
        ||| (s.len() == 6 && is_digit(s[5]))
        ||| (s.len() == 8 && s[5] == ':' && is_minute_tens(s[6]) && is_digit(s[7]))
        ||| (s.len() == 9 && is_digit(s[5]) && s[6] == ':' && is_minute_tens(s[7]) && is_digit(s[8]))
    }
}

fn minute_tens_at(s: &str, i: usize) -> (r: bool)
    requires
        i < s@.len(),
    ensures
        r == is_minute_tens(s@[i as int]),
{
    let c = s.get_char(i);
    '0' <= c && c <= '5'
}

/// Decides `is_utc_offset`.
pub fn matches_utc_offset(s: &str) -> (r: bool)
    ensures
        r == is_utc_offset(s@),
{
    let n = s.unicode_len();
    if n < 5 {
        return false;
    }
    if !(s.get_char(0) == 'U' && s.get_char(1) == 'T' && s.get_char(2) == 'C') {
        return false;
    }
    let sign = s.get_char(3);
    if !(sign == '+' || sign == '-') || !digit_at(s, 4) {
        return false;
    }
    if n == 5 {
        true
    } else if n == 6 {
        digit_at(s, 5)
    } else if n == 8 {
        s.get_char(5) == ':' && minute_tens_at(s, 6) && digit_at(s, 7)
    } else if n == 9 {
        digit_at(s, 5) && s.get_char(6) == ':' && minute_tens_at(s, 7) && digit_at(s, 8)
    } else {
        false
    }
}

// ---------------------------------------------------------------------------
// Field checks
// ---------------------------------------------------------------------------

/// `field: expected string matching <pattern>, got "value"`.
pub open spec fn pattern_msg(field: Seq<char>, pattern: Seq<char>, value: Seq<char>) -> Seq<char> {
    field + ": expected string matching "@ + pattern + ", got "@ + str_debug(value)
}

fn pattern_failure(field: &str, pattern: &str, value: &str) -> (r: Result<(), String>)
    ensures
        outcome(r) == Err::<(), Seq<char>>(pattern_msg(field@, pattern@, value@)),
{
    let shown = debug_text(value);
    let mut m = String::from_str(field);
    m.append(": expected string matching ");
    m.append(pattern);
    m.append(", got ");
    m.append(shown.as_str());
    Err(m)
}

/// A hash of exactly 64 characters, all lower-case hex.
pub open spec fn file_hash(field: Seq<char>, value: Seq<char>) -> Outcome {
    also(
        count_in(field, ": expected length ["@, value.len() as int, 64, 64, "], got "@),
        reject(!is_session_file_hash(value), pattern_msg(field, SESSION_FILE_HASH_PATTERN@, value)),
    )
}

fn validate_file_hash(field: &str, value: &str) -> (r: Result<(), String>)
    ensures
        outcome(r) == file_hash(field@, value@),
{
    let r = require_count_in(field, ": expected length [", value.unicode_len(), 64, 64, "], got ");
    if r.is_err() {
        return r;
    }
    if !matches_session_file_hash(value) {
        return pattern_failure(field, SESSION_FILE_HASH_PATTERN, value);
    }
    Ok(())
}

/// An optional worktree name matching `WORKTREE_NAME_PATTERN`.
pub open spec fn opt_worktree_name(field: Seq<char>, value: Option<String>) -> Outcome {
    match value {
        Some(s) => reject(!is_worktree_name(s@), pattern_msg(field, WORKTREE_NAME_PATTERN@, s@)),
        None => Ok(()),
    }
}

/// An optional date matching `SESSIONS_USAGE_DATE_PATTERN`.
pub open spec fn opt_usage_date(field: Seq<char>, value: Option<String>) -> Outcome {
    match value {
        Some(s) => reject(!is_usage_date(s@), pattern_msg(field, SESSIONS_USAGE_DATE_PATTERN@, s@)),
        None => Ok(()),
    }
}

/// An optional offset matching `SESSIONS_USAGE_UTC_OFFSET_PATTERN`.
pub open spec fn opt_utc_offset(field: Seq<char>, value: Option<String>) -> Outcome {
    match value {
        Some(s) => reject(!is_utc_offset(s@), pattern_msg(field, SESSIONS_USAGE_UTC_OFFSET_PATTERN@, s@)),
        None => Ok(()),
    }
}

fn validate_opt_worktree_name(field: &str, value: &Option<String>) -> (r: Result<(), String>)
    ensures
        outcome(r) == opt_worktree_name(field@, *value),
{
    match value {
        Some(s) => {
            if matches_worktree_name(s.as_str()) {
                Ok(())
            } else {
                pattern_failure(field, WORKTREE_NAME_PATTERN, s.as_str())
            }
        },
        None => Ok(()),
    }
}

fn validate_opt_usage_date(field: &str, value: &Option<String>) -> (r: Result<(), String>)
    ensures
        outcome(r) == opt_usage_date(field@, *value),
{
    match value {
        Some(s) => {
            if matches_usage_date(s.as_str()) {
                Ok(())
            } else {
                pattern_failure(field, SESSIONS_USAGE_DATE_PATTERN, s.as_str())
            }
        },
        None => Ok(()),
    }
}

fn validate_opt_utc_offset(field: &str, value: &Option<String>) -> (r: Result<(), String>)
    ensures
        outcome(r) == opt_utc_offset(field@, *value),
{
    match value {
        Some(s) => {
            if matches_utc_offset(s.as_str()) {
                Ok(())
            } else {
                pattern_failure(field, SESSIONS_USAGE_UTC_OFFSET_PATTERN, s.as_str())
            }
        },
        None => Ok(()),
    }
}

/// An optional string of at least `min` characters:
/// `field: expected length >= min, got n`.
pub open spec fn opt_min_length(field: Seq<char>, value: Option<String>, min: int) -> Outcome {
    match value {
        Some(s) => reject(s@.len() < min, bound_msg(field, ": expected length >= "@, min, ", got "@, s@.len() as int)),
        None => Ok(()),
    }
}

fn validate_optional_string_min_length(field: &str, value: &Option<String>, min: usize) -> (r: Result<(), String>)
    ensures
        outcome(r) == opt_min_length(field@, *value, min as int),
{
    match value {
        Some(s) => {
            let len = s.unicode_len();
            if len < min {
                Err(count_bound_msg_text(field, ": expected length >= ", min, ", got ", len))
            } else {
                Ok(())
            }
        },
        None => Ok(()),
    }
}

/// A list of at most `max` items: `field: expected length <= max, got n`.
pub open spec fn at_most_items(field: Seq<char>, len: int, max: int) -> Outcome {
    reject(len > max, bound_msg(field, ": expected length <= "@, max, ", got "@, len))
}

fn validate_at_most_items(field: &str, len: usize, max: usize) -> (r: Result<(), String>)
    ensures
        outcome(r) == at_most_items(field@, len as int, max as int),
{
    if len > max {
        Err(count_bound_msg_text(field, ": expected length <= ", max, ", got ", len))
    } else {
        Ok(())
    }
}

/// A session label: non-empty and at most 512 characters
/// (`field: expected length <= 512, got n`).
pub open spec fn session_label(field: Seq<char>, value: Seq<char>) -> Outcome {
    also(
        non_empty(field, value),
        reject(
            value.len() > SESSION_LABEL_MAX_LENGTH,
            bound_msg(field, ": expected length <= "@, SESSION_LABEL_MAX_LENGTH as int, ", got "@, value.len() as int),
        ),
    )
}

fn validate_session_label(field: &str, value: &str) -> (r: Result<(), String>)
    ensures
        outcome(r) == session_label(field@, value@),
{
    let r = require_non_empty(field, value);
    if r.is_err() {
        return r;
    }
    if !is_valid_session_label(value) {
        return Err(count_bound_msg_text(field, ": expected length <= ", SESSION_LABEL_MAX_LENGTH, ", got ", value.unicode_len()));
    }
    Ok(())
}

/// An optional session label.
pub open spec fn opt_session_label(field: Seq<char>, value: Option<String>) -> Outcome {
    match value {
        Some(s) => session_label(field, s@),
        None => Ok(()),
    }
}

fn validate_opt_session_label(field: &str, value: &Option<String>) -> (r: Result<(), String>)
    ensures
        outcome(r) == opt_session_label(field@, *value),
{
    match value {
        Some(s) => validate_session_label(field, s.as_str()),
        None => Ok(()),
    }
}

/// A clearable session label: set to a value, it must be a session label.
pub open spec fn clearable_session_label(field: Seq<char>, value: Option<Option<String>>) -> Outcome {
    match value {
        Some(Some(s)) => session_label(field, s@),
        _ => Ok(()),
    }
}

fn validate_clearable_session_label(field: &str, value: &Option<Option<String>>) -> (r: Result<(), String>)
    ensures
        outcome(r) == clearable_session_label(field@, *value),
{
    match value {
        Some(Some(s)) => validate_session_label(field, s.as_str()),
        _ => Ok(()),
    }
}

/// Every item of `values[i..]` a session label, reported as `field[k]`.
pub open spec fn each_session_label(field: Seq<char>, values: Seq<String>, i: int) -> Outcome
    decreases values.len() - i,
{
    if 0 <= i < values.len() {
        also(session_label(index_label(field, i), values[i]@), each_session_label(field, values, i + 1))
    } else {
        Ok(())
    }
}

fn validate_each_session_label(field: &str, values: &Vec<String>) -> (r: Result<(), String>)
    ensures
        outcome(r) == each_session_label(field@, values@, 0),
{
    let n = values.len();
    let mut i: usize = 0;
    while i < n
        invariant
            n == values@.len(),
            i <= n,
            each_session_label(field@, values@, 0) == each_session_label(field@, values@, i as int),
        decreases n - i,
    {
        let label = index_label_text(field, i);
        let r = validate_session_label(label.as_str(), values[i].as_str());
        if r.is_err() {
            return r;
        }
        i = i + 1;
    }
    Ok(())
}

/// A clearable optional string: set to a value, it must be non-empty; cleared
/// (`null`) or absent, nothing to check.
pub open spec fn clearable_non_empty(field: Seq<char>, value: Option<Option<String>>) -> Outcome {
    match value {
        Some(Some(s)) => non_empty(field, s@),
        _ => Ok(()),
    }
}

fn validate_clearable_non_empty(field: &str, value: &Option<Option<String>>) -> (r: Result<(), String>)
    ensures
        outcome(r) == clearable_non_empty(field@, *value),
{
    match value {
        Some(Some(s)) => require_non_empty(field, s.as_str()),
        _ => Ok(()),
    }
}

/// A clearable optional list: set to a list, each item must be non-empty.
pub open spec fn clearable_each_non_empty(field: Seq<char>, value: Option<Option<Vec<String>>>) -> Outcome {
    match value {
        Some(Some(v)) => each_non_empty(field, v@, 0),
        _ => Ok(()),
    }
}

fn validate_clearable_each_non_empty(field: &str, value: &Option<Option<Vec<String>>>) -> (r: Result<(), String>)
    ensures
        outcome(r) == clearable_each_non_empty(field@, *value),
{
    match value {
        Some(Some(v)) => require_each_non_empty(field, v),
        _ => Ok(()),
    }
}

/// Why a compaction checkpoint was created.
#[derive(Debug, Clone, Copy, PartialEq, Eq, Hash, Structural)]
pub enum SessionCompactionCheckpointReasonSchema {
    Manual,
    AutoThreshold,
    OverflowRetry,
    TimeoutRetry,
}

impl SessionCompactionCheckpointReasonSchema {
    /// The wire text of each variant.
    pub open spec fn spec_as_str(&self) -> Seq<char> {
        match self {
            SessionCompactionCheckpointReasonSchema::Manual => "manual"@,
            SessionCompactionCheckpointReasonSchema::AutoThreshold => "auto-threshold"@,
            SessionCompactionCheckpointReasonSchema::OverflowRetry => "overflow-retry"@,
            SessionCompactionCheckpointReasonSchema::TimeoutRetry => "timeout-retry"@,
        }
    }

    /// The wire text of this value.
    pub fn as_str(&self) -> (r: &'static str)
        ensures
            r@ == self.spec_as_str(),
    {
        match self {
            SessionCompactionCheckpointReasonSchema::Manual => "manual",
            SessionCompactionCheckpointReasonSchema::AutoThreshold => "auto-threshold",
            SessionCompactionCheckpointReasonSchema::OverflowRetry => "overflow-retry",
            SessionCompactionCheckpointReasonSchema::TimeoutRetry => "timeout-retry",
        }
    }

    /// The value whose wire text is `s`, if any.
    pub open spec fn spec_from_str(s: Seq<char>) -> Option<SessionCompactionCheckpointReasonSchema> {
        if s == "manual"@ {
            Some(SessionCompactionCheckpointReasonSchema::Manual)
        } else if s == "auto-threshold"@ {
            Some(SessionCompactionCheckpointReasonSchema::AutoThreshold)
        } else if s == "overflow-retry"@ {
            Some(SessionCompactionCheckpointReasonSchema::OverflowRetry)
        } else if s == "timeout-retry"@ {
            Some(SessionCompactionCheckpointReasonSchema::TimeoutRetry)
        } else {
            None
        }
    }
}

/// The wire texts of `SessionCompactionCheckpointReasonSchema` are distinct: parsing the text of a value
/// gives that value back, and a text that parses is the text of what it
/// parses to.
pub proof fn session_compaction_checkpoint_reason_schema_text_round_trip(v: SessionCompactionCheckpointReasonSchema, s: Seq<char>)
    ensures
        SessionCompactionCheckpointReasonSchema::spec_from_str(v.spec_as_str()) == Some(v),
        SessionCompactionCheckpointReasonSchema::spec_from_str(s) matches Some(w) ==> w.spec_as_str() == s,
{
    reveal_strlit("manual");
    reveal_strlit("auto-threshold");
    reveal_strlit("overflow-retry");
    reveal_strlit("timeout-retry");
    assert("manual"@.len() == 6);
    assert("auto-threshold"@.len() == 14);
    assert("overflow-retry"@.len() == 14);
    assert("timeout-retry"@.len() == 13);
    assert("auto-threshold"@[0] == 'a');
    assert("overflow-retry"@[0] == 'o');
}

/// Returns true when `s` is the wire text of a `SessionCompactionCheckpointReasonSchema`.
pub fn is_valid_session_compaction_checkpoint_reason(s: &str) -> (r: bool)
    ensures
        r == SessionCompactionCheckpointReasonSchema::spec_from_str(s@) is Some,
{
    str_eq(s, "manual") || str_eq(s, "auto-threshold") || str_eq(s, "overflow-retry") || str_eq(s, "timeout-retry")
}

/// The operation a session operation event reports.
#[derive(Debug, Clone, Copy, PartialEq, Eq, Hash, Structural)]
pub enum SessionOperationEventOperation {
    Compact,
}

impl SessionOperationEventOperation {
    /// The wire text of each variant.
    pub open spec fn spec_as_str(&self) -> Seq<char> {
        match self {
            SessionOperationEventOperation::Compact => "compact"@,
        }
    }

    /// The wire text of this value.
    pub fn as_str(&self) -> (r: &'static str)
        ensures
            r@ == self.spec_as_str(),
    {
        match self {
            SessionOperationEventOperation::Compact => "compact",
        }
    }

    /// The value whose wire text is `s`, if any.
    pub open spec fn spec_from_str(s: Seq<char>) -> Option<SessionOperationEventOperation> {
        if s == "compact"@ {
            Some(SessionOperationEventOperation::Compact)
        } else {
            None
        }
    }
}

/// The wire texts of `SessionOperationEventOperation` are distinct: parsing the text of a value
/// gives that value back, and a text that parses is the text of what it
/// parses to.
pub proof fn session_operation_event_operation_text_round_trip(v: SessionOperationEventOperation, s: Seq<char>)
    ensures
        SessionOperationEventOperation::spec_from_str(v.spec_as_str()) == Some(v),
        SessionOperationEventOperation::spec_from_str(s) matches Some(w) ==> w.spec_as_str() == s,
{
    reveal_strlit("compact");
    assert("compact"@.len() == 7);
}

/// Returns true when `s` is the wire text of a `SessionOperationEventOperation`.
pub fn is_valid_session_operation_event_operation(s: &str) -> (r: bool)
    ensures
        r == SessionOperationEventOperation::spec_from_str(s@) is Some,
{
    str_eq(s, "compact")
}

/// Phase of a session operation event.
#[derive(Debug, Clone, Copy, PartialEq, Eq, Hash, Structural)]
pub enum SessionOperationEventPhase {
    Start,
    End,
}

impl SessionOperationEventPhase {
    /// The wire text of each variant.
    pub open spec fn spec_as_str(&self) -> Seq<char> {
        match self {
            SessionOperationEventPhase::Start => "start"@,
            SessionOperationEventPhase::End => "end"@,
        }
    }

    /// The wire text of this value.
    pub fn as_str(&self) -> (r: &'static str)
        ensures
            r@ == self.spec_as_str(),
    {
        match self {
            SessionOperationEventPhase::Start => "start",
            SessionOperationEventPhase::End => "end",
        }
    }

    /// The value whose wire text is `s`, if any.
    pub open spec fn spec_from_str(s: Seq<char>) -> Option<SessionOperationEventPhase> {
        if s == "start"@ {
            Some(SessionOperationEventPhase::Start)
        } else if s == "end"@ {
            Some(SessionOperationEventPhase::End)
        } else {
            None
        }
    }
}

/// The wire texts of `SessionOperationEventPhase` are distinct: parsing the text of a value
/// gives that value back, and a text that parses is the text of what it
/// parses to.
pub proof fn session_operation_event_phase_text_round_trip(v: SessionOperationEventPhase, s: Seq<char>)
    ensures
        SessionOperationEventPhase::spec_from_str(v.spec_as_str()) == Some(v),
        SessionOperationEventPhase::spec_from_str(s) matches Some(w) ==> w.spec_as_str() == s,
{
    reveal_strlit("start");
    reveal_strlit("end");
    assert("start"@.len() == 5);
    assert("end"@.len() == 3);
}

/// Returns true when `s` is the wire text of a `SessionOperationEventPhase`.
pub fn is_valid_session_operation_event_phase(s: &str) -> (r: bool)
    ensures
        r == SessionOperationEventPhase::spec_from_str(s@) is Some,
{
    str_eq(s, "start") || str_eq(s, "end")
}

/// Session file grouping used by the session workspace rail.
#[derive(Debug, Clone, Copy, PartialEq, Eq, Hash, Structural)]
pub enum SessionFileKindSchema {
    Modified,
    Read,
}

impl SessionFileKindSchema {
    /// The wire text of each variant.
    pub open spec fn spec_as_str(&self) -> Seq<char> {
        match self {
            SessionFileKindSchema::Modified => "modified"@,
            SessionFileKindSchema::Read => "read"@,
        }
    }

    /// The wire text of this value.
    pub fn as_str(&self) -> (r: &'static str)
        ensures
            r@ == self.spec_as_str(),
    {
        match self {
            SessionFileKindSchema::Modified => "modified",
            SessionFileKindSchema::Read => "read",
        }
    }

    /// The value whose wire text is `s`, if any.
    pub open spec fn spec_from_str(s: Seq<char>) -> Option<SessionFileKindSchema> {
        if s == "modified"@ {
            Some(SessionFileKindSchema::Modified)
        } else if s == "read"@ {
            Some(SessionFileKindSchema::Read)
        } else {
            None
        }
    }
}

/// The wire texts of `SessionFileKindSchema` are distinct: parsing the text of a value
/// gives that value back, and a text that parses is the text of what it
/// parses to.
pub proof fn session_file_kind_schema_text_round_trip(v: SessionFileKindSchema, s: Seq<char>)
    ensures
        SessionFileKindSchema::spec_from_str(v.spec_as_str()) == Some(v),
        SessionFileKindSchema::spec_from_str(s) matches Some(w) ==> w.spec_as_str() == s,
{
    reveal_strlit("modified");
    reveal_strlit("read");
    assert("modified"@.len() == 8);
    assert("read"@.len() == 4);
}

/// Returns true when `s` is the wire text of a `SessionFileKindSchema`.
pub fn is_valid_session_file_kind(s: &str) -> (r: bool)
    ensures
        r == SessionFileKindSchema::spec_from_str(s@) is Some,
{
    str_eq(s, "modified") || str_eq(s, "read")
}

/// How a browser entry relates to the session.
#[derive(Debug, Clone, Copy, PartialEq, Eq, Hash, Structural)]
pub enum SessionFileRelevanceSchema {
    Modified,
    Read,
    Mixed,
}

impl SessionFileRelevanceSchema {
    /// The wire text of each variant.
    pub open spec fn spec_as_str(&self) -> Seq<char> {
        match self {
            SessionFileRelevanceSchema::Modified => "modified"@,
            SessionFileRelevanceSchema::Read => "read"@,
            SessionFileRelevanceSchema::Mixed => "mixed"@,
        }
    }

    /// The wire text of this value.
    pub fn as_str(&self) -> (r: &'static str)
        ensures
            r@ == self.spec_as_str(),
    {
        match self {
            SessionFileRelevanceSchema::Modified => "modified",
            SessionFileRelevanceSchema::Read => "read",
            SessionFileRelevanceSchema::Mixed => "mixed",
        }
    }

    /// The value whose wire text is `s`, if any.
    pub open spec fn spec_from_str(s: Seq<char>) -> Option<SessionFileRelevanceSchema> {
        if s == "modified"@ {
            Some(SessionFileRelevanceSchema::Modified)
        } else if s == "read"@ {
            Some(SessionFileRelevanceSchema::Read)
        } else if s == "mixed"@ {
            Some(SessionFileRelevanceSchema::Mixed)
        } else {
            None
        }
    }
}

/// The wire texts of `SessionFileRelevanceSchema` are distinct: parsing the text of a value
/// gives that value back, and a text that parses is the text of what it
/// parses to.
pub proof fn session_file_relevance_schema_text_round_trip(v: SessionFileRelevanceSchema, s: Seq<char>)
    ensures
        SessionFileRelevanceSchema::spec_from_str(v.spec_as_str()) == Some(v),
        SessionFileRelevanceSchema::spec_from_str(s) matches Some(w) ==> w.spec_as_str() == s,
{
    reveal_strlit("modified");
    reveal_strlit("read");
    reveal_strlit("mixed");
    assert("modified"@.len() == 8);
    assert("read"@.len() == 4);
    assert("mixed"@.len() == 5);
}

/// Returns true when `s` is the wire text of a `SessionFileRelevanceSchema`.
pub fn is_valid_session_file_relevance(s: &str) -> (r: bool)
    ensures
        r == SessionFileRelevanceSchema::spec_from_str(s@) is Some,
{
    str_eq(s, "modified") || str_eq(s, "read") || str_eq(s, "mixed")
}

/// Kind of a session file browser entry.
#[derive(Debug, Clone, Copy, PartialEq, Eq, Hash, Structural)]
pub enum SessionFileBrowserEntryKind {
    File,
    Directory,
}

impl SessionFileBrowserEntryKind {
    /// The wire text of each variant.
    pub open spec fn spec_as_str(&self) -> Seq<char> {
        match self {
            SessionFileBrowserEntryKind::File => "file"@,
            SessionFileBrowserEntryKind::Directory => "directory"@,
        }
    }

    /// The wire text of this value.
    pub fn as_str(&self) -> (r: &'static str)
        ensures
            r@ == self.spec_as_str(),
    {
        match self {
            SessionFileBrowserEntryKind::File => "file",
            SessionFileBrowserEntryKind::Directory => "directory",
        }
    }

    /// The value whose wire text is `s`, if any.
    pub open spec fn spec_from_str(s: Seq<char>) -> Option<SessionFileBrowserEntryKind> {
        if s == "file"@ {
            Some(SessionFileBrowserEntryKind::File)
        } else if s == "directory"@ {
            Some(SessionFileBrowserEntryKind::Directory)
        } else {
            None
        }
    }
}

/// The wire texts of `SessionFileBrowserEntryKind` are distinct: parsing the text of a value
/// gives that value back, and a text that parses is the text of what it
/// parses to.
pub proof fn session_file_browser_entry_kind_text_round_trip(v: SessionFileBrowserEntryKind, s: Seq<char>)
    ensures
        SessionFileBrowserEntryKind::spec_from_str(v.spec_as_str()) == Some(v),
        SessionFileBrowserEntryKind::spec_from_str(s) matches Some(w) ==> w.spec_as_str() == s,
{
    reveal_strlit("file");
    reveal_strlit("directory");
    assert("file"@.len() == 4);
    assert("directory"@.len() == 9);
}

/// Returns true when `s` is the wire text of a `SessionFileBrowserEntryKind`.
pub fn is_valid_session_file_browser_entry_kind(s: &str) -> (r: bool)
    ensures
        r == SessionFileBrowserEntryKind::spec_from_str(s@) is Some,
{
    str_eq(s, "file") || str_eq(s, "directory")
}

/// Change status of one file in a session checkout diff.
#[derive(Debug, Clone, Copy, PartialEq, Eq, Hash, Structural)]
pub enum SessionDiffFileStatusSchema {
    Added,
    Modified,
    Deleted,
    Renamed,
}

impl SessionDiffFileStatusSchema {
    /// The wire text of each variant.
    pub open spec fn spec_as_str(&self) -> Seq<char> {
        match self {
            SessionDiffFileStatusSchema::Added => "added"@,
            SessionDiffFileStatusSchema::Modified => "modified"@,
            SessionDiffFileStatusSchema::Deleted => "deleted"@,
            SessionDiffFileStatusSchema::Renamed => "renamed"@,
        }
    }

    /// The wire text of this value.
    pub fn as_str(&self) -> (r: &'static str)
        ensures
            r@ == self.spec_as_str(),
    {
        match self {
            SessionDiffFileStatusSchema::Added => "added",
            SessionDiffFileStatusSchema::Modified => "modified",
            SessionDiffFileStatusSchema::Deleted => "deleted",
            SessionDiffFileStatusSchema::Renamed => "renamed",
        }
    }

    /// The value whose wire text is `s`, if any.
    pub open spec fn spec_from_str(s: Seq<char>) -> Option<SessionDiffFileStatusSchema> {
        if s == "added"@ {
            Some(SessionDiffFileStatusSchema::Added)
        } else if s == "modified"@ {
            Some(SessionDiffFileStatusSchema::Modified)
        } else if s == "deleted"@ {
            Some(SessionDiffFileStatusSchema::Deleted)
        } else if s == "renamed"@ {
            Some(SessionDiffFileStatusSchema::Renamed)
        } else {
            None
        }
    }
}

/// The wire texts of `SessionDiffFileStatusSchema` are distinct: parsing the text of a value
/// gives that value back, and a text that parses is the text of what it
/// parses to.
pub proof fn session_diff_file_status_schema_text_round_trip(v: SessionDiffFileStatusSchema, s: Seq<char>)
    ensures
        SessionDiffFileStatusSchema::spec_from_str(v.spec_as_str()) == Some(v),
        SessionDiffFileStatusSchema::spec_from_str(s) matches Some(w) ==> w.spec_as_str() == s,
{
    reveal_strlit("added");
    reveal_strlit("modified");
    reveal_strlit("deleted");
    reveal_strlit("renamed");
    assert("added"@.len() == 5);
    assert("modified"@.len() == 8);
    assert("deleted"@.len() == 7);
    assert("renamed"@.len() == 7);
    assert("deleted"@[0] == 'd');
    assert("renamed"@[0] == 'r');
}

/// Returns true when `s` is the wire text of a `SessionDiffFileStatusSchema`.
pub fn is_valid_session_diff_file_status(s: &str) -> (r: bool)
    ensures
        r == SessionDiffFileStatusSchema::spec_from_str(s@) is Some,
{
    str_eq(s, "added") || str_eq(s, "modified") || str_eq(s, "deleted") || str_eq(s, "renamed")
}

/// Why a session diff could not be computed.
#[derive(Debug, Clone, Copy, PartialEq, Eq, Hash, Structural)]
pub enum SessionsDiffUnavailableReason {
    UnknownSession,
    NotGit,
}

impl SessionsDiffUnavailableReason {
    /// The wire text of each variant.
    pub open spec fn spec_as_str(&self) -> Seq<char> {
        match self {
            SessionsDiffUnavailableReason::UnknownSession => "unknown_session"@,
            SessionsDiffUnavailableReason::NotGit => "not_git"@,
        }
    }

    /// The wire text of this value.
    pub fn as_str(&self) -> (r: &'static str)
        ensures
            r@ == self.spec_as_str(),
    {
        match self {
            SessionsDiffUnavailableReason::UnknownSession => "unknown_session",
            SessionsDiffUnavailableReason::NotGit => "not_git",
        }
    }

    /// The value whose wire text is `s`, if any.
    pub open spec fn spec_from_str(s: Seq<char>) -> Option<SessionsDiffUnavailableReason> {
        if s == "unknown_session"@ {
            Some(SessionsDiffUnavailableReason::UnknownSession)
        } else if s == "not_git"@ {
            Some(SessionsDiffUnavailableReason::NotGit)
        } else {
            None
        }
    }
}

/// The wire texts of `SessionsDiffUnavailableReason` are distinct: parsing the text of a value
/// gives that value back, and a text that parses is the text of what it
/// parses to.
pub proof fn sessions_diff_unavailable_reason_text_round_trip(v: SessionsDiffUnavailableReason, s: Seq<char>)
    ensures
        SessionsDiffUnavailableReason::spec_from_str(v.spec_as_str()) == Some(v),
        SessionsDiffUnavailableReason::spec_from_str(s) matches Some(w) ==> w.spec_as_str() == s,
{
    reveal_strlit("unknown_session");
    reveal_strlit("not_git");
    assert("unknown_session"@.len() == 15);
    assert("not_git"@.len() == 7);
}

/// Returns true when `s` is the wire text of a `SessionsDiffUnavailableReason`.
pub fn is_valid_sessions_diff_unavailable_reason(s: &str) -> (r: bool)
    ensures
        r == SessionsDiffUnavailableReason::spec_from_str(s@) is Some,
{
    str_eq(s, "unknown_session") || str_eq(s, "not_git")
}

/// Author role of a search hit.
#[derive(Debug, Clone, Copy, PartialEq, Eq, Hash, Structural)]
pub enum SessionsSearchHitRole {
    User,
    Assistant,
}

impl SessionsSearchHitRole {
    /// The wire text of each variant.
    pub open spec fn spec_as_str(&self) -> Seq<char> {
        match self {
            SessionsSearchHitRole::User => "user"@,
            SessionsSearchHitRole::Assistant => "assistant"@,
        }
    }

    /// The wire text of this value.
    pub fn as_str(&self) -> (r: &'static str)
        ensures
            r@ == self.spec_as_str(),
    {
        match self {
            SessionsSearchHitRole::User => "user",
            SessionsSearchHitRole::Assistant => "assistant",
        }
    }

    /// The value whose wire text is `s`, if any.
    pub open spec fn spec_from_str(s: Seq<char>) -> Option<SessionsSearchHitRole> {
        if s == "user"@ {
            Some(SessionsSearchHitRole::User)
        } else if s == "assistant"@ {
            Some(SessionsSearchHitRole::Assistant)
        } else {
            None
        }
    }
}

/// The wire texts of `SessionsSearchHitRole` are distinct: parsing the text of a value
/// gives that value back, and a text that parses is the text of what it
/// parses to.
pub proof fn sessions_search_hit_role_text_round_trip(v: SessionsSearchHitRole, s: Seq<char>)
    ensures
        SessionsSearchHitRole::spec_from_str(v.spec_as_str()) == Some(v),
        SessionsSearchHitRole::spec_from_str(s) matches Some(w) ==> w.spec_as_str() == s,
{
    reveal_strlit("user");
    reveal_strlit("assistant");
    assert("user"@.len() == 4);
    assert("assistant"@.len() == 9);
}

/// Returns true when `s` is the wire text of a `SessionsSearchHitRole`.
pub fn is_valid_sessions_search_hit_role(s: &str) -> (r: bool)
    ensures
        r == SessionsSearchHitRole::spec_from_str(s@) is Some,
{
    str_eq(s, "user") || str_eq(s, "assistant")
}

/// Why a session is reset.
#[derive(Debug, Clone, Copy, PartialEq, Eq, Hash, Structural)]
pub enum SessionsResetReason {
    New,
    Reset,
}

impl SessionsResetReason {
    /// The wire text of each variant.
    pub open spec fn spec_as_str(&self) -> Seq<char> {
        match self {
            SessionsResetReason::New => "new"@,
            SessionsResetReason::Reset => "reset"@,
        }
    }

    /// The wire text of this value.
    pub fn as_str(&self) -> (r: &'static str)
        ensures
            r@ == self.spec_as_str(),
    {
        match self {
            SessionsResetReason::New => "new",
            SessionsResetReason::Reset => "reset",
        }
    }

    /// The value whose wire text is `s`, if any.
    pub open spec fn spec_from_str(s: Seq<char>) -> Option<SessionsResetReason> {
        if s == "new"@ {
            Some(SessionsResetReason::New)
        } else if s == "reset"@ {
            Some(SessionsResetReason::Reset)
        } else {
            None
        }
    }
}

/// The wire texts of `SessionsResetReason` are distinct: parsing the text of a value
/// gives that value back, and a text that parses is the text of what it
/// parses to.
pub proof fn sessions_reset_reason_text_round_trip(v: SessionsResetReason, s: Seq<char>)
    ensures
        SessionsResetReason::spec_from_str(v.spec_as_str()) == Some(v),
        SessionsResetReason::spec_from_str(s) matches Some(w) ==> w.spec_as_str() == s,
{
    reveal_strlit("new");
    reveal_strlit("reset");
    assert("new"@.len() == 3);
    assert("reset"@.len() == 5);
}

/// Returns true when `s` is the wire text of a `SessionsResetReason`.
pub fn is_valid_sessions_reset_reason(s: &str) -> (r: bool)
    ensures
        r == SessionsResetReason::spec_from_str(s@) is Some,
{
    str_eq(s, "new") || str_eq(s, "reset")
}

/// How usage date filters are interpreted.
#[derive(Debug, Clone, Copy, PartialEq, Eq, Hash, Structural)]
pub enum SessionsUsageMode {
    Utc,
    Gateway,
    Specific,
}

impl SessionsUsageMode {
    /// The wire text of each variant.
    pub open spec fn spec_as_str(&self) -> Seq<char> {
        match self {
            SessionsUsageMode::Utc => "utc"@,
            SessionsUsageMode::Gateway => "gateway"@,
            SessionsUsageMode::Specific => "specific"@,
        }
    }

    /// The wire text of this value.
    pub fn as_str(&self) -> (r: &'static str)
        ensures
            r@ == self.spec_as_str(),
    {
        match self {
            SessionsUsageMode::Utc => "utc",
            SessionsUsageMode::Gateway => "gateway",
            SessionsUsageMode::Specific => "specific",
        }
    }

    /// The value whose wire text is `s`, if any.
    pub open spec fn spec_from_str(s: Seq<char>) -> Option<SessionsUsageMode> {
        if s == "utc"@ {
            Some(SessionsUsageMode::Utc)
        } else if s == "gateway"@ {
            Some(SessionsUsageMode::Gateway)
        } else if s == "specific"@ {
            Some(SessionsUsageMode::Specific)
        } else {
            None
        }
    }
}

/// The wire texts of `SessionsUsageMode` are distinct: parsing the text of a value
/// gives that value back, and a text that parses is the text of what it
/// parses to.
pub proof fn sessions_usage_mode_text_round_trip(v: SessionsUsageMode, s: Seq<char>)
    ensures
        SessionsUsageMode::spec_from_str(v.spec_as_str()) == Some(v),
        SessionsUsageMode::spec_from_str(s) matches Some(w) ==> w.spec_as_str() == s,
{
    reveal_strlit("utc");
    reveal_strlit("gateway");
    reveal_strlit("specific");
    assert("utc"@.len() == 3);
    assert("gateway"@.len() == 7);
    assert("specific"@.len() == 8);
}

/// Returns true when `s` is the wire text of a `SessionsUsageMode`.
pub fn is_valid_sessions_usage_mode(s: &str) -> (r: bool)
    ensures
        r == SessionsUsageMode::spec_from_str(s@) is Some,
{
    str_eq(s, "utc") || str_eq(s, "gateway") || str_eq(s, "specific")
}

/// Preset range of a usage query when explicit dates are omitted.
#[derive(Debug, Clone, Copy, PartialEq, Eq, Hash, Structural)]
pub enum SessionsUsageRange {
    SevenDays,
    ThirtyDays,
    NinetyDays,
    OneYear,
    All,
}

impl SessionsUsageRange {
    /// The wire text of each variant.
    pub open spec fn spec_as_str(&self) -> Seq<char> {
        match self {
            SessionsUsageRange::SevenDays => "7d"@,
            SessionsUsageRange::ThirtyDays => "30d"@,
            SessionsUsageRange::NinetyDays => "90d"@,
            SessionsUsageRange::OneYear => "1y"@,
            SessionsUsageRange::All => "all"@,
        }
    }

    /// The wire text of this value.
    pub fn as_str(&self) -> (r: &'static str)
        ensures
            r@ == self.spec_as_str(),
    {
        match self {
            SessionsUsageRange::SevenDays => "7d",
            SessionsUsageRange::ThirtyDays => "30d",
            SessionsUsageRange::NinetyDays => "90d",
            SessionsUsageRange::OneYear => "1y",
            SessionsUsageRange::All => "all",
        }
    }

    /// The value whose wire text is `s`, if any.
    pub open spec fn spec_from_str(s: Seq<char>) -> Option<SessionsUsageRange> {
        if s == "7d"@ {
            Some(SessionsUsageRange::SevenDays)
        } else if s == "30d"@ {
            Some(SessionsUsageRange::ThirtyDays)
        } else if s == "90d"@ {
            Some(SessionsUsageRange::NinetyDays)
        } else if s == "1y"@ {
            Some(SessionsUsageRange::OneYear)
        } else if s == "all"@ {
            Some(SessionsUsageRange::All)
        } else {
            None
        }
    }
}

/// The wire texts of `SessionsUsageRange` are distinct: parsing the text of a value
/// gives that value back, and a text that parses is the text of what it
/// parses to.
pub proof fn sessions_usage_range_text_round_trip(v: SessionsUsageRange, s: Seq<char>)
    ensures
        SessionsUsageRange::spec_from_str(v.spec_as_str()) == Some(v),
        SessionsUsageRange::spec_from_str(s) matches Some(w) ==> w.spec_as_str() == s,
{
    reveal_strlit("7d");
    reveal_strlit("30d");
    reveal_strlit("90d");
    reveal_strlit("1y");
    reveal_strlit("all");
    assert("7d"@.len() == 2);
    assert("30d"@.len() == 3);
    assert("90d"@.len() == 3);
    assert("1y"@.len() == 2);
    assert("all"@.len() == 3);
    assert("7d"@[0] == '7');
    assert("1y"@[0] == '1');
    assert("30d"@[0] == '3');
    assert("90d"@[0] == '9');
    assert("all"@[0] == 'a');
}

/// Returns true when `s` is the wire text of a `SessionsUsageRange`.
pub fn is_valid_sessions_usage_range(s: &str) -> (r: bool)
    ensures
        r == SessionsUsageRange::spec_from_str(s@) is Some,
{
    str_eq(s, "7d") || str_eq(s, "30d") || str_eq(s, "90d") || str_eq(s, "1y") || str_eq(s, "all")
}

/// Usage row grouping; `family` rolls up rotated session ids of one logical key.
#[derive(Debug, Clone, Copy, PartialEq, Eq, Hash, Structural)]
pub enum SessionsUsageGroupBy {
    Instance,
    Family,
}

impl SessionsUsageGroupBy {
    /// The wire text of each variant.
    pub open spec fn spec_as_str(&self) -> Seq<char> {
        match self {
            SessionsUsageGroupBy::Instance => "instance"@,
            SessionsUsageGroupBy::Family => "family"@,
        }
    }

    /// The wire text of this value.
    pub fn as_str(&self) -> (r: &'static str)
        ensures
            r@ == self.spec_as_str(),
    {
        match self {
            SessionsUsageGroupBy::Instance => "instance",
            SessionsUsageGroupBy::Family => "family",
        }
    }

    /// The value whose wire text is `s`, if any.
    pub open spec fn spec_from_str(s: Seq<char>) -> Option<SessionsUsageGroupBy> {
        if s == "instance"@ {
            Some(SessionsUsageGroupBy::Instance)
        } else if s == "family"@ {
            Some(SessionsUsageGroupBy::Family)
        } else {
            None
        }
    }
}

/// The wire texts of `SessionsUsageGroupBy` are distinct: parsing the text of a value
/// gives that value back, and a text that parses is the text of what it
/// parses to.
pub proof fn sessions_usage_group_by_text_round_trip(v: SessionsUsageGroupBy, s: Seq<char>)
    ensures
        SessionsUsageGroupBy::spec_from_str(v.spec_as_str()) == Some(v),
        SessionsUsageGroupBy::spec_from_str(s) matches Some(w) ==> w.spec_as_str() == s,
{
    reveal_strlit("instance");
    reveal_strlit("family");
    assert("instance"@.len() == 8);
    assert("family"@.len() == 6);
}

/// Returns true when `s` is the wire text of a `SessionsUsageGroupBy`.
pub fn is_valid_sessions_usage_group_by(s: &str) -> (r: bool)
    ensures
        r == SessionsUsageGroupBy::spec_from_str(s@) is Some,
{
    str_eq(s, "instance") || str_eq(s, "family")
}

/// Explicit all-agent scope of list-style usage queries.
#[derive(Debug, Clone, Copy, PartialEq, Eq, Hash, Structural)]
pub enum SessionsUsageAgentScope {
    All,
}

impl SessionsUsageAgentScope {
    /// The wire text of each variant.
    pub open spec fn spec_as_str(&self) -> Seq<char> {
        match self {
            SessionsUsageAgentScope::All => "all"@,
        }
    }

    /// The wire text of this value.
    pub fn as_str(&self) -> (r: &'static str)
        ensures
            r@ == self.spec_as_str(),
    {
        match self {
            SessionsUsageAgentScope::All => "all",
        }
    }

    /// The value whose wire text is `s`, if any.
    pub open spec fn spec_from_str(s: Seq<char>) -> Option<SessionsUsageAgentScope> {
        if s == "all"@ {
            Some(SessionsUsageAgentScope::All)
        } else {
            None
        }
    }
}

/// The wire texts of `SessionsUsageAgentScope` are distinct: parsing the text of a value
/// gives that value back, and a text that parses is the text of what it
/// parses to.
pub proof fn sessions_usage_agent_scope_text_round_trip(v: SessionsUsageAgentScope, s: Seq<char>)
    ensures
        SessionsUsageAgentScope::spec_from_str(v.spec_as_str()) == Some(v),
        SessionsUsageAgentScope::spec_from_str(s) matches Some(w) ==> w.spec_as_str() == s,
{
    reveal_strlit("all");
    assert("all"@.len() == 3);
}

/// Returns true when `s` is the wire text of a `SessionsUsageAgentScope`.
pub fn is_valid_sessions_usage_agent_scope(s: &str) -> (r: bool)
    ensures
        r == SessionsUsageAgentScope::spec_from_str(s@) is Some,
{
    str_eq(s, "all")
}

/// The literal `true` of `includeApprovals`.
#[derive(Debug, Clone, Copy, PartialEq, Eq, Hash, Structural)]
pub enum SessionsMessagesSubscribeIncludeApprovals {
    True,
}

impl SessionsMessagesSubscribeIncludeApprovals {
    /// The wire text of each variant.
    pub open spec fn spec_as_str(&self) -> Seq<char> {
        match self {
            SessionsMessagesSubscribeIncludeApprovals::True => "true"@,
        }
    }

    /// The wire text of this value.
    pub fn as_str(&self) -> (r: &'static str)
        ensures
            r@ == self.spec_as_str(),
    {
        match self {
            SessionsMessagesSubscribeIncludeApprovals::True => "true",
        }
    }

    /// The value whose wire text is `s`, if any.
    pub open spec fn spec_from_str(s: Seq<char>) -> Option<SessionsMessagesSubscribeIncludeApprovals> {
        if s == "true"@ {
            Some(SessionsMessagesSubscribeIncludeApprovals::True)
        } else {
            None
        }
    }
}

/// The wire texts of `SessionsMessagesSubscribeIncludeApprovals` are distinct: parsing the text of a value
/// gives that value back, and a text that parses is the text of what it
/// parses to.
pub proof fn sessions_messages_subscribe_include_approvals_text_round_trip(v: SessionsMessagesSubscribeIncludeApprovals, s: Seq<char>)
    ensures
        SessionsMessagesSubscribeIncludeApprovals::spec_from_str(v.spec_as_str()) == Some(v),
        SessionsMessagesSubscribeIncludeApprovals::spec_from_str(s) matches Some(w) ==> w.spec_as_str() == s,
{
    reveal_strlit("true");
    assert("true"@.len() == 4);
}

/// Response usage reporting mode (`on` kept for older clients).
#[derive(Debug, Clone, Copy, PartialEq, Eq, Hash, Structural)]
pub enum SessionsPatchResponseUsage {
    Off,
    Tokens,
    Full,
    On,
}

impl SessionsPatchResponseUsage {
    /// The wire text of each variant.
    pub open spec fn spec_as_str(&self) -> Seq<char> {
        match self {
            SessionsPatchResponseUsage::Off => "off"@,
            SessionsPatchResponseUsage::Tokens => "tokens"@,
            SessionsPatchResponseUsage::Full => "full"@,
            SessionsPatchResponseUsage::On => "on"@,
        }
    }

    /// The wire text of this value.
    pub fn as_str(&self) -> (r: &'static str)
        ensures
            r@ == self.spec_as_str(),
    {
        match self {
            SessionsPatchResponseUsage::Off => "off",
            SessionsPatchResponseUsage::Tokens => "tokens",
            SessionsPatchResponseUsage::Full => "full",
            SessionsPatchResponseUsage::On => "on",
        }
    }

    /// The value whose wire text is `s`, if any.
    pub open spec fn spec_from_str(s: Seq<char>) -> Option<SessionsPatchResponseUsage> {
        if s == "off"@ {
            Some(SessionsPatchResponseUsage::Off)
        } else if s == "tokens"@ {
            Some(SessionsPatchResponseUsage::Tokens)
        } else if s == "full"@ {
            Some(SessionsPatchResponseUsage::Full)
        } else if s == "on"@ {
            Some(SessionsPatchResponseUsage::On)
        } else {
            None
        }
    }
}

/// The wire texts of `SessionsPatchResponseUsage` are distinct: parsing the text of a value
/// gives that value back, and a text that parses is the text of what it
/// parses to.
pub proof fn sessions_patch_response_usage_text_round_trip(v: SessionsPatchResponseUsage, s: Seq<char>)
    ensures
        SessionsPatchResponseUsage::spec_from_str(v.spec_as_str()) == Some(v),
        SessionsPatchResponseUsage::spec_from_str(s) matches Some(w) ==> w.spec_as_str() == s,
{
    reveal_strlit("off");
    reveal_strlit("tokens");
    reveal_strlit("full");
    reveal_strlit("on");
    assert("off"@.len() == 3);
    assert("tokens"@.len() == 6);
    assert("full"@.len() == 4);
    assert("on"@.len() == 2);
}

/// Returns true when `s` is the wire text of a `SessionsPatchResponseUsage`.
pub fn is_valid_sessions_patch_response_usage(s: &str) -> (r: bool)
    ensures
        r == SessionsPatchResponseUsage::spec_from_str(s@) is Some,
{
    str_eq(s, "off") || str_eq(s, "tokens") || str_eq(s, "full") || str_eq(s, "on")
}

/// Sub-agent role set by a session patch.
#[derive(Debug, Clone, Copy, PartialEq, Eq, Hash, Structural)]
pub enum SessionsPatchSubagentRole {
    Orchestrator,
    Leaf,
}

impl SessionsPatchSubagentRole {
    /// The wire text of each variant.
    pub open spec fn spec_as_str(&self) -> Seq<char> {
        match self {
            SessionsPatchSubagentRole::Orchestrator => "orchestrator"@,
            SessionsPatchSubagentRole::Leaf => "leaf"@,
        }
    }

    /// The wire text of this value.
    pub fn as_str(&self) -> (r: &'static str)
        ensures
            r@ == self.spec_as_str(),
    {
        match self {
            SessionsPatchSubagentRole::Orchestrator => "orchestrator",
            SessionsPatchSubagentRole::Leaf => "leaf",
        }
    }

    /// The value whose wire text is `s`, if any.
    pub open spec fn spec_from_str(s: Seq<char>) -> Option<SessionsPatchSubagentRole> {
        if s == "orchestrator"@ {
            Some(SessionsPatchSubagentRole::Orchestrator)
        } else if s == "leaf"@ {
            Some(SessionsPatchSubagentRole::Leaf)
        } else {
            None
        }
    }
}

/// The wire texts of `SessionsPatchSubagentRole` are distinct: parsing the text of a value
/// gives that value back, and a text that parses is the text of what it
/// parses to.
pub proof fn sessions_patch_subagent_role_text_round_trip(v: SessionsPatchSubagentRole, s: Seq<char>)
    ensures
        SessionsPatchSubagentRole::spec_from_str(v.spec_as_str()) == Some(v),
        SessionsPatchSubagentRole::spec_from_str(s) matches Some(w) ==> w.spec_as_str() == s,
{
    reveal_strlit("orchestrator");
    reveal_strlit("leaf");
    assert("orchestrator"@.len() == 12);
    assert("leaf"@.len() == 4);
}

/// Returns true when `s` is the wire text of a `SessionsPatchSubagentRole`.
pub fn is_valid_sessions_patch_subagent_role(s: &str) -> (r: bool)
    ensures
        r == SessionsPatchSubagentRole::spec_from_str(s@) is Some,
{
    str_eq(s, "orchestrator") || str_eq(s, "leaf")
}

/// Sub-agent control scope set by a session patch.
#[derive(Debug, Clone, Copy, PartialEq, Eq, Hash, Structural)]
pub enum SessionsPatchSubagentControlScope {
    Children,
    NoScope,
}

impl SessionsPatchSubagentControlScope {
    /// The wire text of each variant.
    pub open spec fn spec_as_str(&self) -> Seq<char> {
        match self {
            SessionsPatchSubagentControlScope::Children => "children"@,
            SessionsPatchSubagentControlScope::NoScope => "none"@,
        }
    }

    /// The wire text of this value.
    pub fn as_str(&self) -> (r: &'static str)
        ensures
            r@ == self.spec_as_str(),
    {
        match self {
            SessionsPatchSubagentControlScope::Children => "children",
            SessionsPatchSubagentControlScope::NoScope => "none",
        }
    }

    /// The value whose wire text is `s`, if any.
    pub open spec fn spec_from_str(s: Seq<char>) -> Option<SessionsPatchSubagentControlScope> {
        if s == "children"@ {
            Some(SessionsPatchSubagentControlScope::Children)
        } else if s == "none"@ {
            Some(SessionsPatchSubagentControlScope::NoScope)
        } else {
            None
        }
    }
}

/// The wire texts of `SessionsPatchSubagentControlScope` are distinct: parsing the text of a value
/// gives that value back, and a text that parses is the text of what it
/// parses to.
pub proof fn sessions_patch_subagent_control_scope_text_round_trip(v: SessionsPatchSubagentControlScope, s: Seq<char>)
    ensures
        SessionsPatchSubagentControlScope::spec_from_str(v.spec_as_str()) == Some(v),
        SessionsPatchSubagentControlScope::spec_from_str(s) matches Some(w) ==> w.spec_as_str() == s,
{
    reveal_strlit("children");
    reveal_strlit("none");
    assert("children"@.len() == 8);
    assert("none"@.len() == 4);
}

/// Returns true when `s` is the wire text of a `SessionsPatchSubagentControlScope`.
pub fn is_valid_sessions_patch_subagent_control_scope(s: &str) -> (r: bool)
    ensures
        r == SessionsPatchSubagentControlScope::spec_from_str(s@) is Some,
{
    str_eq(s, "children") || str_eq(s, "none")
}

/// Send policy set by a session patch.
#[derive(Debug, Clone, Copy, PartialEq, Eq, Hash, Structural)]
pub enum SessionsPatchSendPolicy {
    Allow,
    Deny,
}

impl SessionsPatchSendPolicy {
    /// The wire text of each variant.
    pub open spec fn spec_as_str(&self) -> Seq<char> {
        match self {
            SessionsPatchSendPolicy::Allow => "allow"@,
            SessionsPatchSendPolicy::Deny => "deny"@,
        }
    }

    /// The wire text of this value.
    pub fn as_str(&self) -> (r: &'static str)
        ensures
            r@ == self.spec_as_str(),
    {
        match self {
            SessionsPatchSendPolicy::Allow => "allow",
            SessionsPatchSendPolicy::Deny => "deny",
        }
    }

    /// The value whose wire text is `s`, if any.
    pub open spec fn spec_from_str(s: Seq<char>) -> Option<SessionsPatchSendPolicy> {
        if s == "allow"@ {
            Some(SessionsPatchSendPolicy::Allow)
        } else if s == "deny"@ {
            Some(SessionsPatchSendPolicy::Deny)
        } else {
            None
        }
    }
}

/// The wire texts of `SessionsPatchSendPolicy` are distinct: parsing the text of a value
/// gives that value back, and a text that parses is the text of what it
/// parses to.
pub proof fn sessions_patch_send_policy_text_round_trip(v: SessionsPatchSendPolicy, s: Seq<char>)
    ensures
        SessionsPatchSendPolicy::spec_from_str(v.spec_as_str()) == Some(v),
        SessionsPatchSendPolicy::spec_from_str(s) matches Some(w) ==> w.spec_as_str() == s,
{
    reveal_strlit("allow");
    reveal_strlit("deny");
    assert("allow"@.len() == 5);
    assert("deny"@.len() == 4);
}

/// Returns true when `s` is the wire text of a `SessionsPatchSendPolicy`.
pub fn is_valid_sessions_patch_send_policy(s: &str) -> (r: bool)
    ensures
        r == SessionsPatchSendPolicy::spec_from_str(s@) is Some,
{
    str_eq(s, "allow") || str_eq(s, "deny")
}

/// Group activation set by a session patch.
#[derive(Debug, Clone, Copy, PartialEq, Eq, Hash, Structural)]
pub enum SessionsPatchGroupActivation {
    Mention,
    Always,
}

impl SessionsPatchGroupActivation {
    /// The wire text of each variant.
    pub open spec fn spec_as_str(&self) -> Seq<char> {
        match self {
            SessionsPatchGroupActivation::Mention => "mention"@,
            SessionsPatchGroupActivation::Always => "always"@,
        }
    }

    /// The wire text of this value.
    pub fn as_str(&self) -> (r: &'static str)
        ensures
            r@ == self.spec_as_str(),
    {
        match self {
            SessionsPatchGroupActivation::Mention => "mention",
            SessionsPatchGroupActivation::Always => "always",
        }
    }

    /// The value whose wire text is `s`, if any.
    pub open spec fn spec_from_str(s: Seq<char>) -> Option<SessionsPatchGroupActivation> {
        if s == "mention"@ {
            Some(SessionsPatchGroupActivation::Mention)
        } else if s == "always"@ {
            Some(SessionsPatchGroupActivation::Always)
        } else {
            None
        }
    }
}

/// The wire texts of `SessionsPatchGroupActivation` are distinct: parsing the text of a value
/// gives that value back, and a text that parses is the text of what it
/// parses to.
pub proof fn sessions_patch_group_activation_text_round_trip(v: SessionsPatchGroupActivation, s: Seq<char>)
    ensures
        SessionsPatchGroupActivation::spec_from_str(v.spec_as_str()) == Some(v),
        SessionsPatchGroupActivation::spec_from_str(s) matches Some(w) ==> w.spec_as_str() == s,
{
    reveal_strlit("mention");
    reveal_strlit("always");
    assert("mention"@.len() == 7);
    assert("always"@.len() == 6);
}

/// Returns true when `s` is the wire text of a `SessionsPatchGroupActivation`.
pub fn is_valid_sessions_patch_group_activation(s: &str) -> (r: bool)
    ensures
        r == SessionsPatchGroupActivation::spec_from_str(s@) is Some,
{
    str_eq(s, "mention") || str_eq(s, "always")
}

// ---------------------------------------------------------------------------
// Operations and compaction checkpoints
// ---------------------------------------------------------------------------

/// Start or end event emitted while a session compaction runs.
#[derive(Debug, Clone)]
pub struct SessionOperationEventSchema {
    pub operation_id: String,
    pub operation: SessionOperationEventOperation,
    pub phase: SessionOperationEventPhase,
    pub session_key: String,
    pub agent_id: Option<String>,
    pub ts: i64,
    pub completed: Option<bool>,
    pub reason: Option<String>,
}

impl SessionOperationEventSchema {
    /// The checks of this schema, in field order.
    pub open spec fn check(&self) -> Outcome {
        also(non_empty("operationId"@, self.operation_id@),
        also(non_empty("sessionKey"@, self.session_key@),
        also(opt_non_empty("agentId"@, self.agent_id),
        non_negative_integer("ts"@, self.ts as int))))
    }

    pub fn validate(&self) -> (r: Result<(), String>)
        ensures
            outcome(r) == self.check(),
    {
        let r = require_non_empty("operationId", self.operation_id.as_str());
        if r.is_err() {
            return r;
        }
        let r = require_non_empty("sessionKey", self.session_key.as_str());
        if r.is_err() {
            return r;
        }
        let r = require_opt_non_empty("agentId", &self.agent_id);
        if r.is_err() {
            return r;
        }
        require_non_negative_integer("ts", self.ts)
    }
}

/// Transcript location before or after a compaction.
#[derive(Debug, Clone, Default)]
pub struct SessionCompactionTranscriptReferenceSchema {
    pub session_id: String,
    pub session_file: Option<String>,
    pub leaf_id: Option<String>,
    pub entry_id: Option<String>,
}

impl SessionCompactionTranscriptReferenceSchema {
    /// The checks of this schema, in field order.
    pub open spec fn check(&self) -> Outcome {
        also(non_empty("sessionId"@, self.session_id@),
        also(opt_non_empty("sessionFile"@, self.session_file),
        also(opt_non_empty("leafId"@, self.leaf_id),
        opt_non_empty("entryId"@, self.entry_id))))
    }

    pub fn validate(&self) -> (r: Result<(), String>)
        ensures
            outcome(r) == self.check(),
    {
        let r = require_non_empty("sessionId", self.session_id.as_str());
        if r.is_err() {
            return r;
        }
        let r = require_opt_non_empty("sessionFile", &self.session_file);
        if r.is_err() {
            return r;
        }
        let r = require_opt_non_empty("leafId", &self.leaf_id);
        if r.is_err() {
            return r;
        }
        require_opt_non_empty("entryId", &self.entry_id)
    }
}

/// Stored compaction checkpoint metadata for branching or restoring a session.
#[derive(Debug, Clone)]
pub struct SessionCompactionCheckpointSchema {
    pub checkpoint_id: String,
    pub session_key: String,
    pub session_id: String,
    pub created_at: i64,
    pub reason: SessionCompactionCheckpointReasonSchema,
    pub tokens_before: Option<i64>,
    pub tokens_after: Option<i64>,
    pub summary: Option<String>,
    pub first_kept_entry_id: Option<String>,
    pub pre_compaction: SessionCompactionTranscriptReferenceSchema,
    pub post_compaction: SessionCompactionTranscriptReferenceSchema,
}

impl SessionCompactionCheckpointSchema {
    /// The checks of this schema, in field order.
    pub open spec fn check(&self) -> Outcome {
        also(non_empty("checkpointId"@, self.checkpoint_id@),
        also(non_empty("sessionKey"@, self.session_key@),
        also(non_empty("sessionId"@, self.session_id@),
        also(non_negative_integer("createdAt"@, self.created_at as int),
        also(opt_non_negative_integer("tokensBefore"@, self.tokens_before),
        also(opt_non_negative_integer("tokensAfter"@, self.tokens_after),
        also(opt_non_empty("firstKeptEntryId"@, self.first_kept_entry_id),
        also(within("preCompaction: "@, self.pre_compaction.check()),
        within("postCompaction: "@, self.post_compaction.check())))))))))
    }

    pub fn validate(&self) -> (r: Result<(), String>)
        ensures
            outcome(r) == self.check(),
    {
        let r = require_non_empty("checkpointId", self.checkpoint_id.as_str());
        if r.is_err() {
            return r;
        }
        let r = require_non_empty("sessionKey", self.session_key.as_str());
        if r.is_err() {
            return r;
        }
        let r = require_non_empty("sessionId", self.session_id.as_str());
        if r.is_err() {
            return r;
        }
        let r = require_non_negative_integer("createdAt", self.created_at);
        if r.is_err() {
            return r;
        }
        let r = require_opt_non_negative_integer("tokensBefore", self.tokens_before);
        if r.is_err() {
            return r;
        }
        let r = require_opt_non_negative_integer("tokensAfter", self.tokens_after);
        if r.is_err() {
            return r;
        }
        let r = require_opt_non_empty("firstKeptEntryId", &self.first_kept_entry_id);
        if r.is_err() {
            return r;
        }
        let r = prefixed("preCompaction: ", self.pre_compaction.validate());
        if r.is_err() {
            return r;
        }
        prefixed("postCompaction: ", self.post_compaction.validate())
    }
}

impl Checked for SessionCompactionCheckpointSchema {
    open spec fn checks(&self) -> Outcome {
        self.check()
    }

    fn run_checks(&self) -> (r: Result<(), String>) {
        self.validate()
    }
}

// ---------------------------------------------------------------------------
// Session files
// ---------------------------------------------------------------------------

/// One file path referenced by a session transcript.
#[derive(Debug, Clone)]
pub struct SessionFileEntrySchema {
    pub path: String,
    pub workspace_path: Option<String>,
    pub name: String,
    pub kind: SessionFileKindSchema,
    pub missing: bool,
    pub size: Option<i64>,
    pub updated_at_ms: Option<i64>,
    pub content: Option<String>,
    pub hash: Option<String>,
}

impl SessionFileEntrySchema {
    /// The checks of this schema, in field order.
    pub open spec fn check(&self) -> Outcome {
        also(non_empty("path"@, self.path@),
        also(opt_non_empty("workspacePath"@, self.workspace_path),
        also(non_empty("name"@, self.name@),
        also(opt_non_negative_integer("size"@, self.size),
        also(opt_non_negative_integer("updatedAtMs"@, self.updated_at_ms),
        match self.hash { Some(h) => file_hash("hash"@, h@), None => Ok(()) })))))
    }

    pub fn validate(&self) -> (r: Result<(), String>)
        ensures
            outcome(r) == self.check(),
    {
        let r = require_non_empty("path", self.path.as_str());
        if r.is_err() {
            return r;
        }
        let r = require_opt_non_empty("workspacePath", &self.workspace_path);
        if r.is_err() {
            return r;
        }
        let r = require_non_empty("name", self.name.as_str());
        if r.is_err() {
            return r;
        }
        let r = require_opt_non_negative_integer("size", self.size);
        if r.is_err() {
            return r;
        }
        let r = require_opt_non_negative_integer("updatedAtMs", self.updated_at_ms);
        if r.is_err() {
            return r;
        }
        match &self.hash {
            Some(h) => validate_file_hash("hash", h.as_str()),
            None => Ok(()),
        }
    }
}

impl Checked for SessionFileEntrySchema {
    open spec fn checks(&self) -> Outcome {
        self.check()
    }

    fn run_checks(&self) -> (r: Result<(), String>) {
        self.validate()
    }
}

/// One file or folder in the session-rooted browser.
#[derive(Debug, Clone)]
pub struct SessionFileBrowserEntrySchema {
    pub path: String,
    pub name: String,
    pub kind: SessionFileBrowserEntryKind,
    pub session_kind: Option<SessionFileRelevanceSchema>,
    pub size: Option<i64>,
    pub updated_at_ms: Option<i64>,
}

impl SessionFileBrowserEntrySchema {
    /// The checks of this schema, in field order.
    pub open spec fn check(&self) -> Outcome {
        also(non_empty("name"@, self.name@),
        also(opt_non_negative_integer("size"@, self.size),
        opt_non_negative_integer("updatedAtMs"@, self.updated_at_ms)))
    }

    pub fn validate(&self) -> (r: Result<(), String>)
        ensures
            outcome(r) == self.check(),
    {
        let r = require_non_empty("name", self.name.as_str());
        if r.is_err() {
            return r;
        }
        let r = require_opt_non_negative_integer("size", self.size);
        if r.is_err() {
            return r;
        }
        require_opt_non_negative_integer("updatedAtMs", self.updated_at_ms)
    }
}

impl Checked for SessionFileBrowserEntrySchema {
    open spec fn checks(&self) -> Outcome {
        self.check()
    }

    fn run_checks(&self) -> (r: Result<(), String>) {
        self.validate()
    }
}

/// Folder listing or search result rooted at the session workspace.
#[derive(Debug, Clone)]
pub struct SessionFileBrowserResultSchema {
    pub path: String,
    pub parent_path: Option<String>,
    pub search: Option<String>,
    pub entries: Vec<SessionFileBrowserEntrySchema>,
    pub truncated: Option<bool>,
}

impl SessionFileBrowserResultSchema {
    /// The checks of this schema, in field order.
    pub open spec fn check(&self) -> Outcome {
        each_checked("entries"@, self.entries@, 0)
    }

    pub fn validate(&self) -> (r: Result<(), String>)
        ensures
            outcome(r) == self.check(),
    {
        validate_each("entries", &self.entries)
    }
}

/// Lists files touched by a session transcript.
#[derive(Debug, Clone, Default)]
pub struct SessionsFilesListParamsSchema {
    pub session_key: String,
    pub agent_id: Option<String>,
    pub path: Option<String>,
    pub search: Option<String>,
}

impl SessionsFilesListParamsSchema {
    /// The checks of this schema, in field order.
    pub open spec fn check(&self) -> Outcome {
        also(non_empty("sessionKey"@, self.session_key@),
        opt_non_empty("agentId"@, self.agent_id))
    }

    pub fn validate(&self) -> (r: Result<(), String>)
        ensures
            outcome(r) == self.check(),
    {
        let r = require_non_empty("sessionKey", self.session_key.as_str());
        if r.is_err() {
            return r;
        }
        require_opt_non_empty("agentId", &self.agent_id)
    }
}

/// File references visible in one session workspace.
#[derive(Debug, Clone)]
pub struct SessionsFilesListResultSchema {
    pub session_key: String,
    pub root: Option<String>,
    pub files: Vec<SessionFileEntrySchema>,
    pub browser: Option<SessionFileBrowserResultSchema>,
}

impl SessionsFilesListResultSchema {
    /// The checks of this schema, in field order.
    pub open spec fn check(&self) -> Outcome {
        also(non_empty("sessionKey"@, self.session_key@),
        also(opt_non_empty("root"@, self.root),
        also(each_checked("files"@, self.files@, 0),
        match self.browser { Some(x) => within("browser: "@, x.check()), None => Ok(()) })))
    }

    pub fn validate(&self) -> (r: Result<(), String>)
        ensures
            outcome(r) == self.check(),
    {
        let r = require_non_empty("sessionKey", self.session_key.as_str());
        if r.is_err() {
            return r;
        }
        let r = require_opt_non_empty("root", &self.root);
        if r.is_err() {
            return r;
        }
        let r = validate_each("files", &self.files);
        if r.is_err() {
            return r;
        }
        if let Some(x) = &self.browser {
            let r = prefixed("browser: ", x.validate());
            if r.is_err() {
                return r;
            }
        }
        Ok(())
    }
}

/// Reads one session-referenced file by path.
#[derive(Debug, Clone, Default)]
pub struct SessionsFilesGetParamsSchema {
    pub session_key: String,
    pub path: String,
    pub agent_id: Option<String>,
}

impl SessionsFilesGetParamsSchema {
    /// The checks of this schema, in field order.
    pub open spec fn check(&self) -> Outcome {
        also(non_empty("sessionKey"@, self.session_key@),
        also(non_empty("path"@, self.path@),
        opt_non_empty("agentId"@, self.agent_id)))
    }

    pub fn validate(&self) -> (r: Result<(), String>)
        ensures
            outcome(r) == self.check(),
    {
        let r = require_non_empty("sessionKey", self.session_key.as_str());
        if r.is_err() {
            return r;
        }
        let r = require_non_empty("path", self.path.as_str());
        if r.is_err() {
            return r;
        }
        require_opt_non_empty("agentId", &self.agent_id)
    }
}

/// Result of reading one session-referenced file.
#[derive(Debug, Clone)]
pub struct SessionsFilesGetResultSchema {
    pub session_key: String,
    pub root: Option<String>,
    pub file: SessionFileEntrySchema,
}

impl SessionsFilesGetResultSchema {
    /// The checks of this schema, in field order.
    pub open spec fn check(&self) -> Outcome {
        also(non_empty("sessionKey"@, self.session_key@),
        also(opt_non_empty("root"@, self.root),
        within("file: "@, self.file.check())))
    }

    pub fn validate(&self) -> (r: Result<(), String>)
        ensures
            outcome(r) == self.check(),
    {
        let r = require_non_empty("sessionKey", self.session_key.as_str());
        if r.is_err() {
            return r;
        }
        let r = require_opt_non_empty("root", &self.root);
        if r.is_err() {
            return r;
        }
        prefixed("file: ", self.file.validate())
    }
}

/// Overwrites one existing session workspace file, guarded by the hash it is expected to have.
#[derive(Debug, Clone, Default)]
pub struct SessionsFilesSetParamsSchema {
    pub session_key: String,
    pub path: String,
    pub agent_id: Option<String>,
    pub content: String,
    pub expected_hash: String,
}

impl SessionsFilesSetParamsSchema {
    /// The checks of this schema, in field order.
    pub open spec fn check(&self) -> Outcome {
        also(non_empty("sessionKey"@, self.session_key@),
        also(non_empty("path"@, self.path@),
        also(opt_non_empty("agentId"@, self.agent_id),
        file_hash("expectedHash"@, self.expected_hash@))))
    }

    pub fn validate(&self) -> (r: Result<(), String>)
        ensures
            outcome(r) == self.check(),
    {
        let r = require_non_empty("sessionKey", self.session_key.as_str());
        if r.is_err() {
            return r;
        }
        let r = require_non_empty("path", self.path.as_str());
        if r.is_err() {
            return r;
        }
        let r = require_opt_non_empty("agentId", &self.agent_id);
        if r.is_err() {
            return r;
        }
        validate_file_hash("expectedHash", self.expected_hash.as_str())
    }
}

/// Result of overwriting one session workspace file.
#[derive(Debug, Clone)]
pub struct SessionsFilesSetResultSchema {
    pub session_key: String,
    pub root: Option<String>,
    pub file: SessionFileEntrySchema,
}

impl SessionsFilesSetResultSchema {
    /// The checks of this schema, in field order.
    pub open spec fn check(&self) -> Outcome {
        also(non_empty("sessionKey"@, self.session_key@),
        also(opt_non_empty("root"@, self.root),
        within("file: "@, self.file.check())))
    }

    pub fn validate(&self) -> (r: Result<(), String>)
        ensures
            outcome(r) == self.check(),
    {
        let r = require_non_empty("sessionKey", self.session_key.as_str());
        if r.is_err() {
            return r;
        }
        let r = require_opt_non_empty("root", &self.root);
        if r.is_err() {
            return r;
        }
        prefixed("file: ", self.file.validate())
    }
}

// ---------------------------------------------------------------------------
// Diffs
// ---------------------------------------------------------------------------

/// One changed file in a session checkout diff.
#[derive(Debug, Clone)]
pub struct SessionDiffFileSchema {
    pub path: String,
    pub old_path: Option<String>,
    pub status: SessionDiffFileStatusSchema,
    pub additions: i64,
    pub deletions: i64,
    pub binary: Option<bool>,
    pub untracked: Option<bool>,
    pub patch: Option<String>,
    pub truncated: Option<bool>,
}

impl SessionDiffFileSchema {
    /// The checks of this schema, in field order.
    pub open spec fn check(&self) -> Outcome {
        also(non_empty("path"@, self.path@),
        also(opt_non_empty("oldPath"@, self.old_path),
        also(non_negative_integer("additions"@, self.additions as int),
        non_negative_integer("deletions"@, self.deletions as int))))
    }

    pub fn validate(&self) -> (r: Result<(), String>)
        ensures
            outcome(r) == self.check(),
    {
        let r = require_non_empty("path", self.path.as_str());
        if r.is_err() {
            return r;
        }
        let r = require_opt_non_empty("oldPath", &self.old_path);
        if r.is_err() {
            return r;
        }
        let r = require_non_negative_integer("additions", self.additions);
        if r.is_err() {
            return r;
        }
        require_non_negative_integer("deletions", self.deletions)
    }
}

impl Checked for SessionDiffFileSchema {
    open spec fn checks(&self) -> Outcome {
        self.check()
    }

    fn run_checks(&self) -> (r: Result<(), String>) {
        self.validate()
    }
}

/// Reads the git diff of a session checkout against its base branch.
#[derive(Debug, Clone, Default)]
pub struct SessionsDiffParamsSchema {
    pub session_key: String,
    pub agent_id: Option<String>,
}

impl SessionsDiffParamsSchema {
    /// The checks of this schema, in field order.
    pub open spec fn check(&self) -> Outcome {
        also(non_empty("sessionKey"@, self.session_key@),
        opt_non_empty("agentId"@, self.agent_id))
    }

    pub fn validate(&self) -> (r: Result<(), String>)
        ensures
            outcome(r) == self.check(),
    {
        let r = require_non_empty("sessionKey", self.session_key.as_str());
        if r.is_err() {
            return r;
        }
        require_opt_non_empty("agentId", &self.agent_id)
    }
}

/// Branch and working-tree diff of one session checkout.
#[derive(Debug, Clone)]
pub struct SessionsDiffResultSchema {
    pub session_key: String,
    pub root: Option<String>,
    pub branch: Option<String>,
    pub base_ref: Option<String>,
    pub files: Vec<SessionDiffFileSchema>,
    pub additions: i64,
    pub deletions: i64,
    pub truncated: Option<bool>,
    pub unavailable_reason: Option<SessionsDiffUnavailableReason>,
}

impl SessionsDiffResultSchema {
    /// The checks of this schema, in field order.
    pub open spec fn check(&self) -> Outcome {
        also(non_empty("sessionKey"@, self.session_key@),
        also(opt_non_empty("root"@, self.root),
        also(opt_non_empty("branch"@, self.branch),
        also(opt_non_empty("baseRef"@, self.base_ref),
        also(each_checked("files"@, self.files@, 0),
        also(non_negative_integer("additions"@, self.additions as int),
        non_negative_integer("deletions"@, self.deletions as int)))))))
    }

    pub fn validate(&self) -> (r: Result<(), String>)
        ensures
            outcome(r) == self.check(),
    {
        let r = require_non_empty("sessionKey", self.session_key.as_str());
        if r.is_err() {
            return r;
        }
        let r = require_opt_non_empty("root", &self.root);
        if r.is_err() {
            return r;
        }
        let r = require_opt_non_empty("branch", &self.branch);
        if r.is_err() {
            return r;
        }
        let r = require_opt_non_empty("baseRef", &self.base_ref);
        if r.is_err() {
            return r;
        }
        let r = validate_each("files", &self.files);
        if r.is_err() {
            return r;
        }
        let r = require_non_negative_integer("additions", self.additions);
        if r.is_err() {
            return r;
        }
        require_non_negative_integer("deletions", self.deletions)
    }
}

// ---------------------------------------------------------------------------
// Listing, search, cleanup, excerpt, description, resolution
// ---------------------------------------------------------------------------

/// Lists sessions with optional scope, activity, label and excerpt filters.
#[derive(Debug, Clone, Default)]
pub struct SessionsListParamsSchema {
    pub limit: Option<i64>,
    pub offset: Option<i64>,
    pub active_minutes: Option<i64>,
    pub include_global: Option<bool>,
    pub include_unknown: Option<bool>,
    pub configured_agents_only: Option<bool>,
    pub include_derived_titles: Option<bool>,
    pub include_last_message: Option<bool>,
    pub label: Option<SessionLabelString>,
    pub spawned_by: Option<String>,
    pub agent_id: Option<String>,
    pub search: Option<String>,
    pub archived: Option<bool>,
}

impl SessionsListParamsSchema {
    /// The checks of this schema, in field order.
    pub open spec fn check(&self) -> Outcome {
        also(opt_positive_integer("limit"@, self.limit),
        also(opt_non_negative_integer("offset"@, self.offset),
        also(opt_positive_integer("activeMinutes"@, self.active_minutes),
        also(opt_session_label("label"@, self.label),
        also(opt_non_empty("spawnedBy"@, self.spawned_by),
        opt_non_empty("agentId"@, self.agent_id))))))
    }

    pub fn validate(&self) -> (r: Result<(), String>)
        ensures
            outcome(r) == self.check(),
    {
        let r = require_opt_positive_integer("limit", self.limit);
        if r.is_err() {
            return r;
        }
        let r = require_opt_non_negative_integer("offset", self.offset);
        if r.is_err() {
            return r;
        }
        let r = require_opt_positive_integer("activeMinutes", self.active_minutes);
        if r.is_err() {
            return r;
        }
        let r = validate_opt_session_label("label", &self.label);
        if r.is_err() {
            return r;
        }
        let r = require_opt_non_empty("spawnedBy", &self.spawned_by);
        if r.is_err() {
            return r;
        }
        require_opt_non_empty("agentId", &self.agent_id)
    }
}

/// Searches one agent's indexed session transcripts, optionally within selected sessions.
#[derive(Debug, Clone, Default)]
pub struct SessionsSearchParamsSchema {
    pub agent_id: Option<String>,
    pub session_keys: Option<Vec<String>>,
    pub query: String,
    pub limit: Option<i64>,
}

impl SessionsSearchParamsSchema {
    /// Agent id, 1..=200 non-empty session keys, a query of 1..=4096
    /// characters, then `limit` in `1..=25`.
    pub open spec fn check(&self) -> Outcome {
        also(opt_non_empty("agentId"@, self.agent_id),
        also(match self.session_keys {
            Some(keys) => also(
                reject(keys@.len() == 0, bound_msg("sessionKeys"@, ": expected length >= "@, 1, ", got "@, 0)),
                also(
                    at_most_items("sessionKeys"@, keys@.len() as int, SESSIONS_SEARCH_SESSION_KEYS_MAX_ITEMS as int),
                    each_non_empty("sessionKeys"@, keys@, 0),
                ),
            ),
            None => Ok(()),
        },
        also(count_in("query"@, ": expected length ["@, self.query@.len() as int, 1, SESSIONS_SEARCH_QUERY_MAX_LENGTH as int, "], got "@),
        match self.limit { Some(l) => in_inclusive("limit"@, l as int, 1, SESSIONS_SEARCH_LIMIT_MAX as int), None => Ok(()) })))
    }

    pub fn validate(&self) -> (r: Result<(), String>)
        ensures
            outcome(r) == self.check(),
    {
        let r = require_opt_non_empty("agentId", &self.agent_id);
        if r.is_err() {
            return r;
        }
        if let Some(keys) = &self.session_keys {
            if keys.len() == 0 {
                return Err(count_bound_msg_text("sessionKeys", ": expected length >= ", 1, ", got ", 0));
            }
            let r = validate_at_most_items("sessionKeys", keys.len(), SESSIONS_SEARCH_SESSION_KEYS_MAX_ITEMS);
            if r.is_err() {
                return r;
            }
            let r = require_each_non_empty("sessionKeys", keys);
            if r.is_err() {
                return r;
            }
        }
        let r = require_count_in("query", ": expected length [", self.query.unicode_len(), 1, SESSIONS_SEARCH_QUERY_MAX_LENGTH, "], got ");
        if r.is_err() {
            return r;
        }
        match self.limit {
            Some(l) => require_in_inclusive("limit", l, 1, SESSIONS_SEARCH_LIMIT_MAX),
            None => Ok(()),
        }
    }
}

/// One full-text transcript match with follow-up provenance.
#[derive(Debug, Clone)]
pub struct SessionsSearchHitSchema {
    pub session_key: String,
    pub session_id: String,
    pub message_id: String,
    pub role: SessionsSearchHitRole,
    pub timestamp: i64,
    pub snippet: String,
    pub score: NumberValue,
}

impl SessionsSearchHitSchema {
    /// The checks of this schema, in field order.
    pub open spec fn check(&self) -> Outcome {
        also(non_empty("sessionKey"@, self.session_key@),
        also(non_empty("sessionId"@, self.session_id@),
        also(non_empty("messageId"@, self.message_id@),
        non_negative_integer("timestamp"@, self.timestamp as int))))
    }

    pub fn validate(&self) -> (r: Result<(), String>)
        ensures
            outcome(r) == self.check(),
    {
        let r = require_non_empty("sessionKey", self.session_key.as_str());
        if r.is_err() {
            return r;
        }
        let r = require_non_empty("sessionId", self.session_id.as_str());
        if r.is_err() {
            return r;
        }
        let r = require_non_empty("messageId", self.message_id.as_str());
        if r.is_err() {
            return r;
        }
        require_non_negative_integer("timestamp", self.timestamp)
    }
}

impl Checked for SessionsSearchHitSchema {
    open spec fn checks(&self) -> Outcome {
        self.check()
    }

    fn run_checks(&self) -> (r: Result<(), String>) {
        self.validate()
    }
}

/// Full-text search response; `indexing` marks a first-use reconcile still running.
#[derive(Debug, Clone)]
pub struct SessionsSearchResultSchema {
    pub results: Vec<SessionsSearchHitSchema>,
    pub indexing: Option<bool>,
    pub truncated: Option<bool>,
}

impl SessionsSearchResultSchema {
    /// The checks of this schema, in field order.
    pub open spec fn check(&self) -> Outcome {
        each_checked("results"@, self.results@, 0)
    }

    pub fn validate(&self) -> (r: Result<(), String>)
        ensures
            outcome(r) == self.check(),
    {
        validate_each("results", &self.results)
    }
}

/// Repairs or removes invalid session records in the selected agent scope.
#[derive(Debug, Clone, Default)]
pub struct SessionsCleanupParamsSchema {
    pub agent: Option<String>,
    pub all_agents: Option<bool>,
    pub enforce: Option<bool>,
    pub active_key: Option<String>,
    pub fix_missing: Option<bool>,
    pub fix_dm_scope: Option<bool>,
}

impl SessionsCleanupParamsSchema {
    /// The checks of this schema, in field order.
    pub open spec fn check(&self) -> Outcome {
        also(opt_non_empty("agent"@, self.agent),
        opt_non_empty("activeKey"@, self.active_key))
    }

    pub fn validate(&self) -> (r: Result<(), String>)
        ensures
            outcome(r) == self.check(),
    {
        let r = require_opt_non_empty("agent", &self.agent);
        if r.is_err() {
            return r;
        }
        require_opt_non_empty("activeKey", &self.active_key)
    }
}

/// Reads short excerpts of selected session keys.
#[derive(Debug, Clone, Default)]
pub struct SessionsPreviewParamsSchema {
    pub keys: Vec<String>,
    pub limit: Option<i64>,
    pub max_chars: Option<i64>,
}

impl SessionsPreviewParamsSchema {
    /// The checks of this schema, in field order.
    pub open spec fn check(&self) -> Outcome {
        also(reject(self.keys@.len() == 0, "keys: expected at least 1 item, got 0"@),
        also(each_non_empty("keys"@, self.keys@, 0),
        also(opt_positive_integer("limit"@, self.limit),
        match self.max_chars {
            Some(n) => at_least("maxChars"@, ": expected integer >= 20, got "@, n as int, SESSIONS_PREVIEW_MAX_CHARS_MIN as int),
            None => Ok(()),
        })))
    }

    pub fn validate(&self) -> (r: Result<(), String>)
        ensures
            outcome(r) == self.check(),
    {
        if self.keys.len() == 0 {
            return Err(String::from_str("keys: expected at least 1 item, got 0"));
        }
        let r = require_each_non_empty("keys", &self.keys);
        if r.is_err() {
            return r;
        }
        let r = require_opt_positive_integer("limit", self.limit);
        if r.is_err() {
            return r;
        }
        match self.max_chars {
            Some(n) => require_at_least("maxChars", ": expected integer >= 20, got ", n, SESSIONS_PREVIEW_MAX_CHARS_MIN),
            None => Ok(()),
        }
    }
}

/// Describes one session, with optional derived title and last-message excerpts.
#[derive(Debug, Clone, Default)]
pub struct SessionsDescribeParamsSchema {
    pub key: String,
    pub include_derived_titles: Option<bool>,
    pub include_last_message: Option<bool>,
}

impl SessionsDescribeParamsSchema {
    /// The checks of this schema, in field order.
    pub open spec fn check(&self) -> Outcome {
        non_empty("key"@, self.key@)
    }

    pub fn validate(&self) -> (r: Result<(), String>)
        ensures
            outcome(r) == self.check(),
    {
        require_non_empty("key", self.key.as_str())
    }
}

/// Resolves a session by key, raw session id, label, or parent and agent scope.
#[derive(Debug, Clone, Default)]
pub struct SessionsResolveParamsSchema {
    pub key: Option<String>,
    pub session_id: Option<String>,
    pub label: Option<SessionLabelString>,
    pub agent_id: Option<String>,
    pub spawned_by: Option<String>,
    pub include_global: Option<bool>,
    pub include_unknown: Option<bool>,
    pub allow_missing: Option<bool>,
}

impl SessionsResolveParamsSchema {
    /// The checks of this schema, in field order.
    pub open spec fn check(&self) -> Outcome {
        also(opt_non_empty("key"@, self.key),
        also(opt_non_empty("sessionId"@, self.session_id),
        also(opt_session_label("label"@, self.label),
        also(opt_non_empty("agentId"@, self.agent_id),
        opt_non_empty("spawnedBy"@, self.spawned_by)))))
    }

    pub fn validate(&self) -> (r: Result<(), String>)
        ensures
            outcome(r) == self.check(),
    {
        let r = require_opt_non_empty("key", &self.key);
        if r.is_err() {
            return r;
        }
        let r = require_opt_non_empty("sessionId", &self.session_id);
        if r.is_err() {
            return r;
        }
        let r = validate_opt_session_label("label", &self.label);
        if r.is_err() {
            return r;
        }
        let r = require_opt_non_empty("agentId", &self.agent_id);
        if r.is_err() {
            return r;
        }
        require_opt_non_empty("spawnedBy", &self.spawned_by)
    }
}

// ---------------------------------------------------------------------------
// Creation and sending
// ---------------------------------------------------------------------------

/// Creates or adopts a session with optional model, label and parent linkage.
#[derive(Debug, Clone, Default)]
pub struct SessionsCreateParamsSchema {
    pub key: Option<String>,
    pub agent_id: Option<String>,
    pub label: Option<SessionLabelString>,
    pub model: Option<String>,
    pub parent_session_key: Option<String>,
    pub fork: Option<bool>,
    pub emit_command_hooks: Option<bool>,
    pub task: Option<String>,
    pub message: Option<String>,
    pub worktree: Option<bool>,
    pub worktree_base_ref: Option<String>,
    pub worktree_name: Option<String>,
    pub exec_node: Option<String>,
    pub cwd: Option<String>,
}

impl SessionsCreateParamsSchema {
    /// The checks of this schema, in field order.
    pub open spec fn check(&self) -> Outcome {
        also(opt_non_empty("key"@, self.key),
        also(opt_non_empty("agentId"@, self.agent_id),
        also(opt_session_label("label"@, self.label),
        also(opt_non_empty("model"@, self.model),
        also(opt_non_empty("parentSessionKey"@, self.parent_session_key),
        also(opt_min_length("worktreeBaseRef"@, self.worktree_base_ref, 1),
        also(opt_worktree_name("worktreeName"@, self.worktree_name),
        also(opt_min_length("execNode"@, self.exec_node, 1),
        opt_min_length("cwd"@, self.cwd, 1)))))))))
    }

    pub fn validate(&self) -> (r: Result<(), String>)
        ensures
            outcome(r) == self.check(),
    {
        let r = require_opt_non_empty("key", &self.key);
        if r.is_err() {
            return r;
        }
        let r = require_opt_non_empty("agentId", &self.agent_id);
        if r.is_err() {
            return r;
        }
        let r = validate_opt_session_label("label", &self.label);
        if r.is_err() {
            return r;
        }
        let r = require_opt_non_empty("model", &self.model);
        if r.is_err() {
            return r;
        }
        let r = require_opt_non_empty("parentSessionKey", &self.parent_session_key);
        if r.is_err() {
            return r;
        }
        let r = validate_optional_string_min_length("worktreeBaseRef", &self.worktree_base_ref, 1);
        if r.is_err() {
            return r;
        }
        let r = validate_opt_worktree_name("worktreeName", &self.worktree_name);
        if r.is_err() {
            return r;
        }
        let r = validate_optional_string_min_length("execNode", &self.exec_node, 1);
        if r.is_err() {
            return r;
        }
        validate_optional_string_min_length("cwd", &self.cwd, 1)
    }
}

/// The worktree a created session runs in.
#[derive(Debug, Clone, Default)]
pub struct SessionWorktreeInfoSchema {
    pub id: String,
    pub path: String,
    pub branch: String,
}

impl SessionWorktreeInfoSchema {
    /// The checks of this schema, in field order.
    pub open spec fn check(&self) -> Outcome {
        also(non_empty("id"@, self.id@),
        also(non_empty("path"@, self.path@),
        non_empty("branch"@, self.branch@)))
    }

    pub fn validate(&self) -> (r: Result<(), String>)
        ensures
            outcome(r) == self.check(),
    {
        let r = require_non_empty("id", self.id.as_str());
        if r.is_err() {
            return r;
        }
        let r = require_non_empty("path", self.path.as_str());
        if r.is_err() {
            return r;
        }
        require_non_empty("branch", self.branch.as_str())
    }
}

/// Result of creating or adopting a session.
#[derive(Debug, Clone)]
pub struct SessionsCreateResultSchema {
    pub ok: bool,
    pub key: String,
    pub session_id: Option<String>,
    pub entry: Option<PluginJsonValueSchema>,
    pub run_started: Option<bool>,
    pub run_error: Option<ErrorShape>,
    pub worktree: Option<SessionWorktreeInfoSchema>,
}

impl SessionsCreateResultSchema {
    /// The checks of this schema, in field order.
    pub open spec fn check(&self) -> Outcome {
        also(reject(!self.ok, "ok: expected literal true"@),
        also(non_empty("key"@, self.key@),
        also(opt_non_empty("sessionId"@, self.session_id),
        match self.worktree { Some(x) => within("worktree: "@, x.check()), None => Ok(()) })))
    }

    pub fn validate(&self) -> (r: Result<(), String>)
        ensures
            outcome(r) == self.check(),
    {
        if !self.ok {
            return Err(String::from_str("ok: expected literal true"));
        }
        let r = require_non_empty("key", self.key.as_str());
        if r.is_err() {
            return r;
        }
        let r = require_opt_non_empty("sessionId", &self.session_id);
        if r.is_err() {
            return r;
        }
        if let Some(x) = &self.worktree {
            let r = prefixed("worktree: ", x.validate());
            if r.is_err() {
                return r;
            }
        }
        Ok(())
    }
}

/// Sends one message into an existing session.
#[derive(Debug, Clone)]
pub struct SessionsSendParamsSchema {
    pub key: String,
    pub agent_id: Option<String>,
    pub message: String,
    pub thinking: Option<String>,
    pub attachments: Option<Vec<PluginJsonValueSchema>>,
    pub timeout_ms: Option<i64>,
    pub idempotency_key: Option<String>,
}

impl SessionsSendParamsSchema {
    /// The checks of this schema, in field order.
    pub open spec fn check(&self) -> Outcome {
        also(non_empty("key"@, self.key@),
        also(opt_non_empty("agentId"@, self.agent_id),
        also(opt_non_negative_integer("timeoutMs"@, self.timeout_ms),
        opt_non_empty("idempotencyKey"@, self.idempotency_key))))
    }

    pub fn validate(&self) -> (r: Result<(), String>)
        ensures
            outcome(r) == self.check(),
    {
        let r = require_non_empty("key", self.key.as_str());
        if r.is_err() {
            return r;
        }
        let r = require_opt_non_empty("agentId", &self.agent_id);
        if r.is_err() {
            return r;
        }
        let r = require_opt_non_negative_integer("timeoutMs", self.timeout_ms);
        if r.is_err() {
            return r;
        }
        require_opt_non_empty("idempotencyKey", &self.idempotency_key)
    }
}

/// Subscribes a client to live message updates of one session.
#[derive(Debug, Clone, Default)]
pub struct SessionsMessagesSubscribeParamsSchema {
    pub key: String,
    pub agent_id: Option<String>,
    /// Opts in to sanitized durable approval events of this session and its
    /// descendants; only `true` is accepted.
    pub include_approvals: Option<bool>,
}

impl SessionsMessagesSubscribeParamsSchema {
    /// The checks of this schema, in field order.
    pub open spec fn check(&self) -> Outcome {
        also(non_empty("key"@, self.key@),
        also(opt_non_empty("agentId"@, self.agent_id),
        reject(self.include_approvals == Some(false), "includeApprovals: expected literal true"@)))
    }

    pub fn validate(&self) -> (r: Result<(), String>)
        ensures
            outcome(r) == self.check(),
    {
        let r = require_non_empty("key", self.key.as_str());
        if r.is_err() {
            return r;
        }
        let r = require_opt_non_empty("agentId", &self.agent_id);
        if r.is_err() {
            return r;
        }
        if let Some(v) = self.include_approvals {
            if !v {
                return Err(String::from_str("includeApprovals: expected literal true"));
            }
        }
        Ok(())
    }
}

/// Removes a live message subscription of one session.
#[derive(Debug, Clone, Default)]
pub struct SessionsMessagesUnsubscribeParamsSchema {
    pub key: String,
    pub agent_id: Option<String>,
}

impl SessionsMessagesUnsubscribeParamsSchema {
    /// The checks of this schema, in field order.
    pub open spec fn check(&self) -> Outcome {
        also(non_empty("key"@, self.key@),
        opt_non_empty("agentId"@, self.agent_id))
    }

    pub fn validate(&self) -> (r: Result<(), String>)
        ensures
            outcome(r) == self.check(),
    {
        let r = require_non_empty("key", self.key.as_str());
        if r.is_err() {
            return r;
        }
        require_opt_non_empty("agentId", &self.agent_id)
    }
}

/// Aborts the active or named run of a session.
#[derive(Debug, Clone, Default)]
pub struct SessionsAbortParamsSchema {
    pub key: Option<String>,
    pub run_id: Option<String>,
    pub agent_id: Option<String>,
}

impl SessionsAbortParamsSchema {
    /// The checks of this schema, in field order.
    pub open spec fn check(&self) -> Outcome {
        also(opt_non_empty("key"@, self.key),
        also(opt_non_empty("runId"@, self.run_id),
        opt_non_empty("agentId"@, self.agent_id)))
    }

    pub fn validate(&self) -> (r: Result<(), String>)
        ensures
            outcome(r) == self.check(),
    {
        let r = require_opt_non_empty("key", &self.key);
        if r.is_err() {
            return r;
        }
        let r = require_opt_non_empty("runId", &self.run_id);
        if r.is_err() {
            return r;
        }
        require_opt_non_empty("agentId", &self.agent_id)
    }
}
// ---------------------------------------------------------------------------
// Patching
// ---------------------------------------------------------------------------

/// `fastMode` of a session patch: a boolean or the literal `auto`.
#[derive(Debug, Clone, Copy, PartialEq, Eq, Structural)]
pub enum SessionsPatchFastMode {
    Bool(bool),
    Auto,
}

impl SessionsPatchFastMode {
    /// Both forms are accepted as they are.
    pub fn validate(&self) -> (r: Result<(), String>)
        ensures
            r is Ok,
    {
        Ok(())
    }
}

/// Any JSON value is accepted where a fast mode is expected; the shape is
/// enforced when the value is decoded.
pub fn is_valid_sessions_patch_fast_mode_value(_value: &serde_json::Value) -> (r: bool)
    ensures
        r,
{
    true
}

/// `includeApprovals` accepts only `true`.
pub fn is_valid_sessions_messages_subscribe_include_approvals(v: &bool) -> (r: bool)
    ensures
        r == *v,
{
    *v
}

/// Patches session settings. A clearable field is absent (`None`), cleared
/// (`Some(None)`, sent as `null`) or set (`Some(Some(value))`).
#[derive(Debug, Clone, Default)]
pub struct SessionsPatchParamsSchema {
    pub key: String,
    pub agent_id: Option<String>,
    pub label: Option<Option<SessionLabelString>>,
    pub category: Option<Option<SessionLabelString>>,
    pub archived: Option<bool>,
    pub pinned: Option<bool>,
    pub unread: Option<bool>,
    pub thinking_level: Option<Option<String>>,
    pub fast_mode: Option<SessionsPatchFastMode>,
    pub verbose_level: Option<Option<String>>,
    pub trace_level: Option<Option<String>>,
    pub reasoning_level: Option<Option<String>>,
    pub response_usage: Option<Option<SessionsPatchResponseUsage>>,
    pub elevated_level: Option<Option<String>>,
    pub exec_host: Option<Option<String>>,
    pub exec_security: Option<Option<String>>,
    pub exec_ask: Option<Option<String>>,
    pub exec_node: Option<Option<String>>,
    pub model: Option<Option<String>>,
    pub spawned_by: Option<Option<String>>,
    pub spawned_workspace_dir: Option<Option<String>>,
    pub spawned_cwd: Option<Option<String>>,
    pub spawn_depth: Option<Option<i64>>,
    pub subagent_role: Option<Option<SessionsPatchSubagentRole>>,
    pub subagent_control_scope: Option<Option<SessionsPatchSubagentControlScope>>,
    pub inherited_tool_allow: Option<Option<Vec<String>>>,
    pub inherited_tool_deny: Option<Option<Vec<String>>>,
    pub send_policy: Option<Option<SessionsPatchSendPolicy>>,
    pub group_activation: Option<Option<SessionsPatchGroupActivation>>,
}

impl SessionsPatchParamsSchema {
    /// Key, agent id, each set string non-empty, `spawnDepth >= 0`, then the
    /// inherited tool lists item by item. The fast mode never fails.
    pub open spec fn check(&self) -> Outcome {
        also(non_empty("key"@, self.key@),
        also(opt_non_empty("agentId"@, self.agent_id),
        also(clearable_session_label("label"@, self.label),
        also(clearable_session_label("category"@, self.category),
        also(clearable_non_empty("thinkingLevel"@, self.thinking_level),
        also(clearable_non_empty("verboseLevel"@, self.verbose_level),
        also(clearable_non_empty("traceLevel"@, self.trace_level),
        also(clearable_non_empty("reasoningLevel"@, self.reasoning_level),
        also(clearable_non_empty("elevatedLevel"@, self.elevated_level),
        also(clearable_non_empty("execHost"@, self.exec_host),
        also(clearable_non_empty("execSecurity"@, self.exec_security),
        also(clearable_non_empty("execAsk"@, self.exec_ask),
        also(clearable_non_empty("execNode"@, self.exec_node),
        also(clearable_non_empty("model"@, self.model),
        also(clearable_non_empty("spawnedBy"@, self.spawned_by),
        also(clearable_non_empty("spawnedWorkspaceDir"@, self.spawned_workspace_dir),
        also(clearable_non_empty("spawnedCwd"@, self.spawned_cwd),
        also(match self.spawn_depth { Some(Some(n)) => non_negative_integer("spawnDepth"@, n as int), _ => Ok(()) },
        also(clearable_each_non_empty("inheritedToolAllow"@, self.inherited_tool_allow),
        clearable_each_non_empty("inheritedToolDeny"@, self.inherited_tool_deny))))))))))))))))))))
    }

    pub fn validate(&self) -> (r: Result<(), String>)
        ensures
            outcome(r) == self.check(),
    {
        let r = require_non_empty("key", self.key.as_str());
        if r.is_err() {
            return r;
        }
        let r = require_opt_non_empty("agentId", &self.agent_id);
        if r.is_err() {
            return r;
        }
        let r = validate_clearable_session_label("label", &self.label);
        if r.is_err() {
            return r;
        }
        let r = validate_clearable_session_label("category", &self.category);
        if r.is_err() {
            return r;
        }
        let r = validate_clearable_non_empty("thinkingLevel", &self.thinking_level);
        if r.is_err() {
            return r;
        }
        let r = validate_clearable_non_empty("verboseLevel", &self.verbose_level);
        if r.is_err() {
            return r;
        }
        let r = validate_clearable_non_empty("traceLevel", &self.trace_level);
        if r.is_err() {
            return r;
        }
        let r = validate_clearable_non_empty("reasoningLevel", &self.reasoning_level);
        if r.is_err() {
            return r;
        }
        let r = validate_clearable_non_empty("elevatedLevel", &self.elevated_level);
        if r.is_err() {
            return r;
        }
        let r = validate_clearable_non_empty("execHost", &self.exec_host);
        if r.is_err() {
            return r;
        }
        let r = validate_clearable_non_empty("execSecurity", &self.exec_security);
        if r.is_err() {
            return r;
        }
        let r = validate_clearable_non_empty("execAsk", &self.exec_ask);
        if r.is_err() {
            return r;
        }
        let r = validate_clearable_non_empty("execNode", &self.exec_node);
        if r.is_err() {
            return r;
        }
        let r = validate_clearable_non_empty("model", &self.model);
        if r.is_err() {
            return r;
        }
        let r = validate_clearable_non_empty("spawnedBy", &self.spawned_by);
        if r.is_err() {
            return r;
        }
        let r = validate_clearable_non_empty("spawnedWorkspaceDir", &self.spawned_workspace_dir);
        if r.is_err() {
            return r;
        }
        let r = validate_clearable_non_empty("spawnedCwd", &self.spawned_cwd);
        if r.is_err() {
            return r;
        }
        let r = match self.spawn_depth {
            Some(Some(n)) => require_non_negative_integer("spawnDepth", n),
            _ => Ok(()),
        };
        if r.is_err() {
            return r;
        }
        let r = validate_clearable_each_non_empty("inheritedToolAllow", &self.inherited_tool_allow);
        if r.is_err() {
            return r;
        }
        validate_clearable_each_non_empty("inheritedToolDeny", &self.inherited_tool_deny)
    }
}

/// A `sessions.patch` request checks the items of the inherited tool lists it
/// sets: one that passes sets no empty tool name, and when the request without
/// its allow list passes, an allow list whose first empty item is at `k` makes
/// the request fail with `inheritedToolAllow[k]: expected non-empty string,
/// got ""`. A cleared or absent list is not checked.
pub proof fn patch_checks_inherited_tool_lists(p: SessionsPatchParamsSchema, k: int)
    ensures
        p.check() is Ok ==> (p.inherited_tool_allow matches Some(Some(v)) ==> forall|i: int|
            0 <= i < v@.len() ==> (#[trigger] v@[i])@.len() > 0),
        p.check() is Ok ==> (p.inherited_tool_deny matches Some(Some(v)) ==> forall|i: int|
            0 <= i < v@.len() ==> (#[trigger] v@[i])@.len() > 0),
        (SessionsPatchParamsSchema { inherited_tool_allow: None, ..p }).check() is Ok ==> (
            p.inherited_tool_allow matches Some(Some(v)) && 0 <= k < v@.len() && v@[k]@.len() == 0
                && (forall|j: int| 0 <= j < k ==> (#[trigger] v@[j])@.len() > 0)
            ==> p.check() == Err::<(), Seq<char>>(
                non_empty_msg(index_label("inheritedToolAllow"@, k), Seq::empty()),
            )),
{
    if let Some(Some(v)) = p.inherited_tool_allow {
        crate::checks::each_non_empty_all_pass("inheritedToolAllow"@, v@, 0);
        if 0 <= k < v@.len() && v@[k]@.len() == 0 && (forall|j: int| 0 <= j < k ==> (#[trigger] v@[j])@.len() > 0) {
            crate::checks::each_non_empty_first_empty("inheritedToolAllow"@, v@, 0, k);
        }
    }
    if let Some(Some(v)) = p.inherited_tool_deny {
        crate::checks::each_non_empty_all_pass("inheritedToolDeny"@, v@, 0);
    }
}

/// Updates or clears one plugin namespace value on a session record.
#[derive(Debug, Clone)]
pub struct SessionsPluginPatchParamsSchema {
    pub key: String,
    pub plugin_id: String,
    pub namespace: String,
    pub value: Option<PluginJsonValueSchema>,
    pub unset: Option<bool>,
}

impl SessionsPluginPatchParamsSchema {
    /// The checks of this schema, in field order.
    pub open spec fn check(&self) -> Outcome {
        also(non_empty("key"@, self.key@),
        also(non_empty("pluginId"@, self.plugin_id@),
        non_empty("namespace"@, self.namespace@)))
    }

    pub fn validate(&self) -> (r: Result<(), String>)
        ensures
            outcome(r) == self.check(),
    {
        let r = require_non_empty("key", self.key.as_str());
        if r.is_err() {
            return r;
        }
        let r = require_non_empty("pluginId", self.plugin_id.as_str());
        if r.is_err() {
            return r;
        }
        require_non_empty("namespace", self.namespace.as_str())
    }
}

/// Result of patching session plugin state.
#[derive(Debug, Clone)]
pub struct SessionsPluginPatchResultSchema {
    pub ok: bool,
    pub key: String,
    pub value: Option<PluginJsonValueSchema>,
}

impl SessionsPluginPatchResultSchema {
    /// The checks of this schema, in field order.
    pub open spec fn check(&self) -> Outcome {
        also(reject(!self.ok, "ok: expected literal true"@),
        non_empty("key"@, self.key@))
    }

    pub fn validate(&self) -> (r: Result<(), String>)
        ensures
            outcome(r) == self.check(),
    {
        if !self.ok {
            return Err(String::from_str("ok: expected literal true"));
        }
        require_non_empty("key", self.key.as_str())
    }
}

// ---------------------------------------------------------------------------
// Reset and delete
// ---------------------------------------------------------------------------

/// Resets a session to a new or reset transcript state.
#[derive(Debug, Clone, Default)]
pub struct SessionsResetParamsSchema {
    pub key: String,
    pub agent_id: Option<String>,
    pub reason: Option<SessionsResetReason>,
}

impl SessionsResetParamsSchema {
    /// The checks of this schema, in field order.
    pub open spec fn check(&self) -> Outcome {
        also(non_empty("key"@, self.key@),
        opt_non_empty("agentId"@, self.agent_id))
    }

    pub fn validate(&self) -> (r: Result<(), String>)
        ensures
            outcome(r) == self.check(),
    {
        let r = require_non_empty("key", self.key.as_str());
        if r.is_err() {
            return r;
        }
        require_opt_non_empty("agentId", &self.agent_id)
    }
}

/// Deletes a session record and optionally its transcript.
#[derive(Debug, Clone)]
pub struct SessionsDeleteParamsSchema {
    pub key: String,
    pub agent_id: Option<String>,
    pub delete_transcript: Option<bool>,
    pub expected_session_id: Option<String>,
    pub expected_lifecycle_revision: Option<String>,
    pub expected_session_updated_at: Option<NumberValue>,
    pub emit_lifecycle_hooks: Option<bool>,
    pub archived_only: Option<bool>,
}

impl SessionsDeleteParamsSchema {
    /// Key, agent id, expected ids, then a timestamp that is not below zero
    /// (NaN passes, as `n < 0.0` is false for it).
    pub open spec fn check(&self) -> Outcome {
        also(non_empty("key"@, self.key@),
        also(opt_non_empty("agentId"@, self.agent_id),
        also(opt_non_empty("expectedSessionId"@, self.expected_session_id),
        also(opt_non_empty("expectedLifecycleRevision"@, self.expected_lifecycle_revision),
        match self.expected_session_updated_at {
            Some(n) => reject(n.negative, "expectedSessionUpdatedAt: expected number >= 0, got "@ + n.text@),
            None => Ok(()),
        }))))
    }

    pub fn validate(&self) -> (r: Result<(), String>)
        ensures
            outcome(r) == self.check(),
    {
        let r = require_non_empty("key", self.key.as_str());
        if r.is_err() {
            return r;
        }
        let r = require_opt_non_empty("agentId", &self.agent_id);
        if r.is_err() {
            return r;
        }
        let r = require_opt_non_empty("expectedSessionId", &self.expected_session_id);
        if r.is_err() {
            return r;
        }
        let r = require_opt_non_empty("expectedLifecycleRevision", &self.expected_lifecycle_revision);
        if r.is_err() {
            return r;
        }
        if let Some(n) = &self.expected_session_updated_at {
            if n.negative {
                let mut m = String::from_str("expectedSessionUpdatedAt: expected number >= 0, got ");
                m.append(n.text.as_str());
                return Err(m);
            }
        }
        Ok(())
    }
}

// ---------------------------------------------------------------------------
// Groups
// ---------------------------------------------------------------------------

/// Lists the custom session groups.
#[derive(Debug, Clone, Default)]
pub struct SessionsGroupsListParamsSchema {
}

impl SessionsGroupsListParamsSchema {
    /// No field is constrained.
    pub fn validate(&self) -> (r: Result<(), String>)
        ensures
            r is Ok,
    {
        Ok(())
    }
}

/// One custom session group catalog entry.
#[derive(Debug, Clone, Default)]
pub struct SessionGroupSchema {
    pub name: SessionLabelString,
    pub position: i64,
}

impl SessionGroupSchema {
    /// The checks of this schema, in field order.
    pub open spec fn check(&self) -> Outcome {
        also(session_label("name"@, self.name@),
        non_negative_integer("position"@, self.position as int))
    }

    pub fn validate(&self) -> (r: Result<(), String>)
        ensures
            outcome(r) == self.check(),
    {
        let r = validate_session_label("name", self.name.as_str());
        if r.is_err() {
            return r;
        }
        require_non_negative_integer("position", self.position)
    }
}

impl Checked for SessionGroupSchema {
    open spec fn checks(&self) -> Outcome {
        self.check()
    }

    fn run_checks(&self) -> (r: Result<(), String>) {
        self.validate()
    }
}

/// The custom session group catalog.
#[derive(Debug, Clone, Default)]
pub struct SessionsGroupsListResultSchema {
    pub groups: Vec<SessionGroupSchema>,
}

impl SessionsGroupsListResultSchema {
    /// The checks of this schema, in field order.
    pub open spec fn check(&self) -> Outcome {
        each_checked("groups"@, self.groups@, 0)
    }

    pub fn validate(&self) -> (r: Result<(), String>)
        ensures
            outcome(r) == self.check(),
    {
        validate_each("groups", &self.groups)
    }
}

/// Replaces the ordered group catalog, creating listed names and leaving
/// member categories untouched.
#[derive(Debug, Clone, Default)]
pub struct SessionsGroupsPutParamsSchema {
    pub names: Vec<SessionLabelString>,
}

impl SessionsGroupsPutParamsSchema {
    /// The checks of this schema, in field order.
    pub open spec fn check(&self) -> Outcome {
        also(at_most_items("names"@, self.names@.len() as int, SESSIONS_GROUPS_NAMES_MAX_ITEMS as int),
        each_session_label("names"@, self.names@, 0))
    }

    pub fn validate(&self) -> (r: Result<(), String>)
        ensures
            outcome(r) == self.check(),
    {
        let r = validate_at_most_items("names", self.names.len(), SESSIONS_GROUPS_NAMES_MAX_ITEMS);
        if r.is_err() {
            return r;
        }
        validate_each_session_label("names", &self.names)
    }
}

/// Renames one session group.
#[derive(Debug, Clone, Default)]
pub struct SessionsGroupsRenameParamsSchema {
    pub name: SessionLabelString,
    pub to: SessionLabelString,
}

impl SessionsGroupsRenameParamsSchema {
    /// The checks of this schema, in field order.
    pub open spec fn check(&self) -> Outcome {
        also(session_label("name"@, self.name@),
        session_label("to"@, self.to@))
    }

    pub fn validate(&self) -> (r: Result<(), String>)
        ensures
            outcome(r) == self.check(),
    {
        let r = validate_session_label("name", self.name.as_str());
        if r.is_err() {
            return r;
        }
        validate_session_label("to", self.to.as_str())
    }
}

/// Deletes one session group.
#[derive(Debug, Clone, Default)]
pub struct SessionsGroupsDeleteParamsSchema {
    pub name: SessionLabelString,
}

impl SessionsGroupsDeleteParamsSchema {
    /// The checks of this schema, in field order.
    pub open spec fn check(&self) -> Outcome {
        session_label("name"@, self.name@)
    }

    pub fn validate(&self) -> (r: Result<(), String>)
        ensures
            outcome(r) == self.check(),
    {
        validate_session_label("name", self.name.as_str())
    }
}

/// Result of a group catalog mutation, with the member sessions updated where
/// applicable.
#[derive(Debug, Clone, Default)]
pub struct SessionsGroupsMutationResultSchema {
    pub ok: bool,
    pub groups: Vec<SessionGroupSchema>,
    pub updated_sessions: Option<i64>,
}

impl SessionsGroupsMutationResultSchema {
    /// The checks of this schema, in field order.
    pub open spec fn check(&self) -> Outcome {
        also(reject(!self.ok, "ok: expected literal true"@),
        also(each_checked("groups"@, self.groups@, 0),
        opt_non_negative_integer("updatedSessions"@, self.updated_sessions)))
    }

    pub fn validate(&self) -> (r: Result<(), String>)
        ensures
            outcome(r) == self.check(),
    {
        if !self.ok {
            return Err(String::from_str("ok: expected literal true"));
        }
        let r = validate_each("groups", &self.groups);
        if r.is_err() {
            return r;
        }
        require_opt_non_negative_integer("updatedSessions", self.updated_sessions)
    }
}

// ---------------------------------------------------------------------------
// Compaction
// ---------------------------------------------------------------------------

/// Requests manual compaction of a session transcript.
#[derive(Debug, Clone, Default)]
pub struct SessionsCompactParamsSchema {
    pub key: String,
    pub agent_id: Option<String>,
    pub max_lines: Option<i64>,
}

impl SessionsCompactParamsSchema {
    /// The checks of this schema, in field order.
    pub open spec fn check(&self) -> Outcome {
        also(non_empty("key"@, self.key@),
        also(opt_non_empty("agentId"@, self.agent_id),
        opt_positive_integer("maxLines"@, self.max_lines)))
    }

    pub fn validate(&self) -> (r: Result<(), String>)
        ensures
            outcome(r) == self.check(),
    {
        let r = require_non_empty("key", self.key.as_str());
        if r.is_err() {
            return r;
        }
        let r = require_opt_non_empty("agentId", &self.agent_id);
        if r.is_err() {
            return r;
        }
        require_opt_positive_integer("maxLines", self.max_lines)
    }
}

/// Lists the compaction checkpoints of one session.
#[derive(Debug, Clone, Default)]
pub struct SessionsCompactionListParamsSchema {
    pub key: String,
    pub agent_id: Option<String>,
}

impl SessionsCompactionListParamsSchema {
    /// The checks of this schema, in field order.
    pub open spec fn check(&self) -> Outcome {
        also(non_empty("key"@, self.key@),
        opt_non_empty("agentId"@, self.agent_id))
    }

    pub fn validate(&self) -> (r: Result<(), String>)
        ensures
            outcome(r) == self.check(),
    {
        let r = require_non_empty("key", self.key.as_str());
        if r.is_err() {
            return r;
        }
        require_opt_non_empty("agentId", &self.agent_id)
    }
}

/// Reads one compaction checkpoint by id.
#[derive(Debug, Clone, Default)]
pub struct SessionsCompactionGetParamsSchema {
    pub key: String,
    pub agent_id: Option<String>,
    pub checkpoint_id: String,
}

impl SessionsCompactionGetParamsSchema {
    /// The checks of this schema, in field order.
    pub open spec fn check(&self) -> Outcome {
        also(non_empty("key"@, self.key@),
        also(opt_non_empty("agentId"@, self.agent_id),
        non_empty("checkpointId"@, self.checkpoint_id@)))
    }

    pub fn validate(&self) -> (r: Result<(), String>)
        ensures
            outcome(r) == self.check(),
    {
        let r = require_non_empty("key", self.key.as_str());
        if r.is_err() {
            return r;
        }
        let r = require_opt_non_empty("agentId", &self.agent_id);
        if r.is_err() {
            return r;
        }
        require_non_empty("checkpointId", self.checkpoint_id.as_str())
    }
}

/// Creates a new branch from a compaction checkpoint.
#[derive(Debug, Clone, Default)]
pub struct SessionsCompactionBranchParamsSchema {
    pub key: String,
    pub agent_id: Option<String>,
    pub checkpoint_id: String,
}

impl SessionsCompactionBranchParamsSchema {
    /// The checks of this schema, in field order.
    pub open spec fn check(&self) -> Outcome {
        also(non_empty("key"@, self.key@),
        also(opt_non_empty("agentId"@, self.agent_id),
        non_empty("checkpointId"@, self.checkpoint_id@)))
    }

    pub fn validate(&self) -> (r: Result<(), String>)
        ensures
            outcome(r) == self.check(),
    {
        let r = require_non_empty("key", self.key.as_str());
        if r.is_err() {
            return r;
        }
        let r = require_opt_non_empty("agentId", &self.agent_id);
        if r.is_err() {
            return r;
        }
        require_non_empty("checkpointId", self.checkpoint_id.as_str())
    }
}

/// Restores an existing session to a compaction checkpoint.
#[derive(Debug, Clone, Default)]
pub struct SessionsCompactionRestoreParamsSchema {
    pub key: String,
    pub agent_id: Option<String>,
    pub checkpoint_id: String,
}

impl SessionsCompactionRestoreParamsSchema {
    /// The checks of this schema, in field order.
    pub open spec fn check(&self) -> Outcome {
        also(non_empty("key"@, self.key@),
        also(opt_non_empty("agentId"@, self.agent_id),
        non_empty("checkpointId"@, self.checkpoint_id@)))
    }

    pub fn validate(&self) -> (r: Result<(), String>)
        ensures
            outcome(r) == self.check(),
    {
        let r = require_non_empty("key", self.key.as_str());
        if r.is_err() {
            return r;
        }
        let r = require_opt_non_empty("agentId", &self.agent_id);
        if r.is_err() {
            return r;
        }
        require_non_empty("checkpointId", self.checkpoint_id.as_str())
    }
}

/// The compaction checkpoints of one session.
#[derive(Debug, Clone)]
pub struct SessionsCompactionListResultSchema {
    pub ok: bool,
    pub key: String,
    pub checkpoints: Vec<SessionCompactionCheckpointSchema>,
}

impl SessionsCompactionListResultSchema {
    /// The checks of this schema, in field order.
    pub open spec fn check(&self) -> Outcome {
        also(reject(!self.ok, "ok: expected literal true"@),
        also(non_empty("key"@, self.key@),
        each_checked("checkpoints"@, self.checkpoints@, 0)))
    }

    pub fn validate(&self) -> (r: Result<(), String>)
        ensures
            outcome(r) == self.check(),
    {
        if !self.ok {
            return Err(String::from_str("ok: expected literal true"));
        }
        let r = require_non_empty("key", self.key.as_str());
        if r.is_err() {
            return r;
        }
        validate_each("checkpoints", &self.checkpoints)
    }
}

/// One compaction checkpoint.
#[derive(Debug, Clone)]
pub struct SessionsCompactionGetResultSchema {
    pub ok: bool,
    pub key: String,
    pub checkpoint: SessionCompactionCheckpointSchema,
}

impl SessionsCompactionGetResultSchema {
    /// The checks of this schema, in field order.
    pub open spec fn check(&self) -> Outcome {
        also(reject(!self.ok, "ok: expected literal true"@),
        also(non_empty("key"@, self.key@),
        within("checkpoint: "@, self.checkpoint.check())))
    }

    pub fn validate(&self) -> (r: Result<(), String>)
        ensures
            outcome(r) == self.check(),
    {
        if !self.ok {
            return Err(String::from_str("ok: expected literal true"));
        }
        let r = require_non_empty("key", self.key.as_str());
        if r.is_err() {
            return r;
        }
        prefixed("checkpoint: ", self.checkpoint.validate())
    }
}

/// Session entry metadata shared by the branch and restore results.
#[derive(Debug, Clone, Default)]
pub struct CompactionEntryMetadata {
    pub session_id: String,
    pub updated_at: i64,
}

impl CompactionEntryMetadata {
    /// The checks of this schema, in field order.
    pub open spec fn check(&self) -> Outcome {
        also(non_empty("sessionId"@, self.session_id@),
        non_negative_integer("updatedAt"@, self.updated_at as int))
    }

    pub fn validate(&self) -> (r: Result<(), String>)
        ensures
            outcome(r) == self.check(),
    {
        let r = require_non_empty("sessionId", self.session_id.as_str());
        if r.is_err() {
            return r;
        }
        require_non_negative_integer("updatedAt", self.updated_at)
    }
}

/// Branch result: the new session key and its entry metadata.
#[derive(Debug, Clone)]
pub struct SessionsCompactionBranchResultSchema {
    pub ok: bool,
    pub source_key: String,
    pub key: String,
    pub session_id: String,
    pub checkpoint: SessionCompactionCheckpointSchema,
    pub entry: CompactionEntryMetadata,
}

impl SessionsCompactionBranchResultSchema {
    /// The checks of this schema, in field order.
    pub open spec fn check(&self) -> Outcome {
        also(reject(!self.ok, "ok: expected literal true"@),
        also(non_empty("sourceKey"@, self.source_key@),
        also(non_empty("key"@, self.key@),
        also(non_empty("sessionId"@, self.session_id@),
        also(within("checkpoint: "@, self.checkpoint.check()),
        within("entry: "@, self.entry.check()))))))
    }

    pub fn validate(&self) -> (r: Result<(), String>)
        ensures
            outcome(r) == self.check(),
    {
        if !self.ok {
            return Err(String::from_str("ok: expected literal true"));
        }
        let r = require_non_empty("sourceKey", self.source_key.as_str());
        if r.is_err() {
            return r;
        }
        let r = require_non_empty("key", self.key.as_str());
        if r.is_err() {
            return r;
        }
        let r = require_non_empty("sessionId", self.session_id.as_str());
        if r.is_err() {
            return r;
        }
        let r = prefixed("checkpoint: ", self.checkpoint.validate());
        if r.is_err() {
            return r;
        }
        prefixed("entry: ", self.entry.validate())
    }
}

/// Restore result with the updated session entry metadata.
#[derive(Debug, Clone)]
pub struct SessionsCompactionRestoreResultSchema {
    pub ok: bool,
    pub key: String,
    pub session_id: String,
    pub checkpoint: SessionCompactionCheckpointSchema,
    pub entry: CompactionEntryMetadata,
}

impl SessionsCompactionRestoreResultSchema {
    /// The checks of this schema, in field order.
    pub open spec fn check(&self) -> Outcome {
        also(reject(!self.ok, "ok: expected literal true"@),
        also(non_empty("key"@, self.key@),
        also(non_empty("sessionId"@, self.session_id@),
        also(within("checkpoint: "@, self.checkpoint.check()),
        within("entry: "@, self.entry.check())))))
    }

    pub fn validate(&self) -> (r: Result<(), String>)
        ensures
            outcome(r) == self.check(),
    {
        if !self.ok {
            return Err(String::from_str("ok: expected literal true"));
        }
        let r = require_non_empty("key", self.key.as_str());
        if r.is_err() {
            return r;
        }
        let r = require_non_empty("sessionId", self.session_id.as_str());
        if r.is_err() {
            return r;
        }
        let r = prefixed("checkpoint: ", self.checkpoint.validate());
        if r.is_err() {
            return r;
        }
        prefixed("entry: ", self.entry.validate())
    }
}

// ---------------------------------------------------------------------------
// Usage
// ---------------------------------------------------------------------------

/// Usage report query across one session, one agent, or all agent sessions.
#[derive(Debug, Clone, Default)]
pub struct SessionsUsageParamsSchema {
    pub key: Option<String>,
    pub agent_id: Option<String>,
    pub agent_scope: Option<SessionsUsageAgentScope>,
    pub start_date: Option<String>,
    pub end_date: Option<String>,
    pub mode: Option<SessionsUsageMode>,
    pub range: Option<SessionsUsageRange>,
    pub group_by: Option<SessionsUsageGroupBy>,
    pub include_historical: Option<bool>,
    pub utc_offset: Option<String>,
    pub time_zone: Option<String>,
    pub limit: Option<i64>,
    pub include_context_weight: Option<bool>,
}

impl SessionsUsageParamsSchema {
    /// The checks of this schema, in field order.
    pub open spec fn check(&self) -> Outcome {
        also(opt_non_empty("key"@, self.key),
        also(opt_non_empty("agentId"@, self.agent_id),
        also(opt_usage_date("startDate"@, self.start_date),
        also(opt_usage_date("endDate"@, self.end_date),
        also(opt_utc_offset("utcOffset"@, self.utc_offset),
        also(opt_non_empty("timeZone"@, self.time_zone),
        opt_positive_integer("limit"@, self.limit)))))))
    }

    pub fn validate(&self) -> (r: Result<(), String>)
        ensures
            outcome(r) == self.check(),
    {
        let r = require_opt_non_empty("key", &self.key);
        if r.is_err() {
            return r;
        }
        let r = require_opt_non_empty("agentId", &self.agent_id);
        if r.is_err() {
            return r;
        }
        let r = validate_opt_usage_date("startDate", &self.start_date);
        if r.is_err() {
            return r;
        }
        let r = validate_opt_usage_date("endDate", &self.end_date);
        if r.is_err() {
            return r;
        }
        let r = validate_opt_utc_offset("utcOffset", &self.utc_offset);
        if r.is_err() {
            return r;
        }
        let r = require_opt_non_empty("timeZone", &self.time_zone);
        if r.is_err() {
            return r;
        }
        require_opt_positive_integer("limit", self.limit)
    }
}

/// Wire-type names of the schemas above.
pub type SessionsListParams = SessionsListParamsSchema;
pub type SessionsCleanupParams = SessionsCleanupParamsSchema;
pub type SessionsPreviewParams = SessionsPreviewParamsSchema;
pub type SessionsDescribeParams = SessionsDescribeParamsSchema;
pub type SessionsResolveParams = SessionsResolveParamsSchema;
pub type SessionsSearchParams = SessionsSearchParamsSchema;
pub type SessionsSearchHit = SessionsSearchHitSchema;
pub type SessionsSearchResult = SessionsSearchResultSchema;
pub type SessionCompactionCheckpoint = SessionCompactionCheckpointSchema;
pub type SessionOperationEvent = SessionOperationEventSchema;
pub type SessionsCompactionListParams = SessionsCompactionListParamsSchema;
pub type SessionsCompactionGetParams = SessionsCompactionGetParamsSchema;
pub type SessionsCompactionBranchParams = SessionsCompactionBranchParamsSchema;
pub type SessionsCompactionRestoreParams = SessionsCompactionRestoreParamsSchema;
pub type SessionsCompactionListResult = SessionsCompactionListResultSchema;
pub type SessionsCompactionGetResult = SessionsCompactionGetResultSchema;
pub type SessionsCompactionBranchResult = SessionsCompactionBranchResultSchema;
pub type SessionsCompactionRestoreResult = SessionsCompactionRestoreResultSchema;
pub type SessionWorktreeInfo = SessionWorktreeInfoSchema;
pub type SessionsCreateParams = SessionsCreateParamsSchema;
pub type SessionsCreateResult = SessionsCreateResultSchema;
pub type SessionsSendParams = SessionsSendParamsSchema;
pub type SessionsMessagesSubscribeParams = SessionsMessagesSubscribeParamsSchema;
pub type SessionsMessagesUnsubscribeParams = SessionsMessagesUnsubscribeParamsSchema;
pub type SessionsAbortParams = SessionsAbortParamsSchema;
pub type SessionsPluginPatchParams = SessionsPluginPatchParamsSchema;
pub type SessionsPluginPatchResult = SessionsPluginPatchResultSchema;
pub type SessionsResetParams = SessionsResetParamsSchema;
pub type SessionsDeleteParams = SessionsDeleteParamsSchema;
pub type SessionGroup = SessionGroupSchema;
pub type SessionsGroupsListParams = SessionsGroupsListParamsSchema;
pub type SessionsGroupsListResult = SessionsGroupsListResultSchema;
pub type SessionsGroupsPutParams = SessionsGroupsPutParamsSchema;
pub type SessionsGroupsRenameParams = SessionsGroupsRenameParamsSchema;
pub type SessionsGroupsDeleteParams = SessionsGroupsDeleteParamsSchema;
pub type SessionsGroupsMutationResult = SessionsGroupsMutationResultSchema;
pub type SessionsCompactParams = SessionsCompactParamsSchema;
pub type SessionsUsageParams = SessionsUsageParamsSchema;
pub type SessionFileKind = SessionFileKindSchema;
pub type SessionFileRelevance = SessionFileRelevanceSchema;
pub type SessionFileEntry = SessionFileEntrySchema;
pub type SessionFileBrowserEntry = SessionFileBrowserEntrySchema;
pub type SessionFileBrowserResult = SessionFileBrowserResultSchema;
pub type SessionsFilesListParams = SessionsFilesListParamsSchema;
pub type SessionsFilesListResult = SessionsFilesListResultSchema;
pub type SessionsFilesGetParams = SessionsFilesGetParamsSchema;
pub type SessionsFilesGetResult = SessionsFilesGetResultSchema;
pub type SessionsFilesSetParams = SessionsFilesSetParamsSchema;
pub type SessionsFilesSetResult = SessionsFilesSetResultSchema;
pub type SessionDiffFileStatus = SessionDiffFileStatusSchema;
pub type SessionDiffFile = SessionDiffFileSchema;
pub type SessionsDiffParams = SessionsDiffParamsSchema;
pub type SessionsDiffResult = SessionsDiffResultSchema;

// ---------------------------------------------------------------------------
// What each schema accepts
// ---------------------------------------------------------------------------

/// A `SessionOperationEventSchema` passes validation exactly when every condition below holds;
/// a value that breaks one is rejected.
pub proof fn session_operation_event_schema_accepts(x: SessionOperationEventSchema)
    ensures
        x.check() is Ok <==> {
            &&& x.operation_id@.len() > 0
            &&& x.session_key@.len() > 0
            &&& (x.agent_id matches Some(s) ==> s@.len() > 0)
            &&& x.ts as int >= 0
        },
{
}

/// A `SessionCompactionTranscriptReferenceSchema` passes validation exactly when every condition below holds;
/// a value that breaks one is rejected.
pub proof fn session_compaction_transcript_reference_schema_accepts(x: SessionCompactionTranscriptReferenceSchema)
    ensures
        x.check() is Ok <==> {
            &&& x.session_id@.len() > 0
            &&& (x.session_file matches Some(s) ==> s@.len() > 0)
            &&& (x.leaf_id matches Some(s) ==> s@.len() > 0)
            &&& (x.entry_id matches Some(s) ==> s@.len() > 0)
        },
{
}

/// A `SessionCompactionCheckpointSchema` passes validation exactly when every condition below holds;
/// a value that breaks one is rejected.
pub proof fn session_compaction_checkpoint_schema_accepts(x: SessionCompactionCheckpointSchema)
    ensures
        x.check() is Ok <==> {
            &&& x.checkpoint_id@.len() > 0
            &&& x.session_key@.len() > 0
            &&& x.session_id@.len() > 0
            &&& x.created_at as int >= 0
            &&& (x.tokens_before matches Some(n) ==> n >= 0)
            &&& (x.tokens_after matches Some(n) ==> n >= 0)
            &&& (x.first_kept_entry_id matches Some(s) ==> s@.len() > 0)
            &&& x.pre_compaction.check() is Ok
            &&& x.post_compaction.check() is Ok
        },
{
}

/// A `SessionFileBrowserEntrySchema` passes validation exactly when every condition below holds;
/// a value that breaks one is rejected.
pub proof fn session_file_browser_entry_schema_accepts(x: SessionFileBrowserEntrySchema)
    ensures
        x.check() is Ok <==> {
            &&& x.name@.len() > 0
            &&& (x.size matches Some(n) ==> n >= 0)
            &&& (x.updated_at_ms matches Some(n) ==> n >= 0)
        },
{
}

/// A `SessionFileBrowserResultSchema` passes validation exactly when every condition below holds;
/// a value that breaks one is rejected.
pub proof fn session_file_browser_result_schema_accepts(x: SessionFileBrowserResultSchema)
    ensures
        x.check() is Ok <==> {
            &&& (forall|k: int| 0 <= k < x.entries@.len() ==> (#[trigger] x.entries@[k]).checks() is Ok)
        },
{
    crate::checks::each_checked_first_failure("entries"@, x.entries@, 0);
}

/// A `SessionsFilesListParamsSchema` passes validation exactly when every condition below holds;
/// a value that breaks one is rejected.
pub proof fn sessions_files_list_params_schema_accepts(x: SessionsFilesListParamsSchema)
    ensures
        x.check() is Ok <==> {
            &&& x.session_key@.len() > 0
            &&& (x.agent_id matches Some(s) ==> s@.len() > 0)
        },
{
}

/// A `SessionsFilesListResultSchema` passes validation exactly when every condition below holds;
/// a value that breaks one is rejected.
pub proof fn sessions_files_list_result_schema_accepts(x: SessionsFilesListResultSchema)
    ensures
        x.check() is Ok <==> {
            &&& x.session_key@.len() > 0
            &&& (x.root matches Some(s) ==> s@.len() > 0)
            &&& (forall|k: int| 0 <= k < x.files@.len() ==> (#[trigger] x.files@[k]).checks() is Ok)
            &&& (x.browser matches Some(x) ==> x.check() is Ok)
        },
{
    crate::checks::each_checked_first_failure("files"@, x.files@, 0);
}

/// A `SessionsFilesGetParamsSchema` passes validation exactly when every condition below holds;
/// a value that breaks one is rejected.
pub proof fn sessions_files_get_params_schema_accepts(x: SessionsFilesGetParamsSchema)
    ensures
        x.check() is Ok <==> {
            &&& x.session_key@.len() > 0
            &&& x.path@.len() > 0
            &&& (x.agent_id matches Some(s) ==> s@.len() > 0)
        },
{
}

/// A `SessionsFilesGetResultSchema` passes validation exactly when every condition below holds;
/// a value that breaks one is rejected.
pub proof fn sessions_files_get_result_schema_accepts(x: SessionsFilesGetResultSchema)
    ensures
        x.check() is Ok <==> {
            &&& x.session_key@.len() > 0
            &&& (x.root matches Some(s) ==> s@.len() > 0)
            &&& x.file.check() is Ok
        },
{
}

/// A `SessionsFilesSetResultSchema` passes validation exactly when every condition below holds;
/// a value that breaks one is rejected.
pub proof fn sessions_files_set_result_schema_accepts(x: SessionsFilesSetResultSchema)
    ensures
        x.check() is Ok <==> {
            &&& x.session_key@.len() > 0
            &&& (x.root matches Some(s) ==> s@.len() > 0)
            &&& x.file.check() is Ok
        },
{
}

/// A `SessionDiffFileSchema` passes validation exactly when every condition below holds;
/// a value that breaks one is rejected.
pub proof fn session_diff_file_schema_accepts(x: SessionDiffFileSchema)
    ensures
        x.check() is Ok <==> {
            &&& x.path@.len() > 0
            &&& (x.old_path matches Some(s) ==> s@.len() > 0)
            &&& x.additions as int >= 0
            &&& x.deletions as int >= 0
        },
{
}

/// A `SessionsDiffParamsSchema` passes validation exactly when every condition below holds;
/// a value that breaks one is rejected.
pub proof fn sessions_diff_params_schema_accepts(x: SessionsDiffParamsSchema)
    ensures
        x.check() is Ok <==> {
            &&& x.session_key@.len() > 0
            &&& (x.agent_id matches Some(s) ==> s@.len() > 0)
        },
{
}

/// A `SessionsDiffResultSchema` passes validation exactly when every condition below holds;
/// a value that breaks one is rejected.
pub proof fn sessions_diff_result_schema_accepts(x: SessionsDiffResultSchema)
    ensures
        x.check() is Ok <==> {
            &&& x.session_key@.len() > 0
            &&& (x.root matches Some(s) ==> s@.len() > 0)
            &&& (x.branch matches Some(s) ==> s@.len() > 0)
            &&& (x.base_ref matches Some(s) ==> s@.len() > 0)
            &&& (forall|k: int| 0 <= k < x.files@.len() ==> (#[trigger] x.files@[k]).checks() is Ok)
            &&& x.additions as int >= 0
            &&& x.deletions as int >= 0
        },
{
    crate::checks::each_checked_first_failure("files"@, x.files@, 0);
}

/// A `SessionsListParamsSchema` passes validation exactly when every condition below holds;
/// a value that breaks one is rejected.
pub proof fn sessions_list_params_schema_accepts(x: SessionsListParamsSchema)
    ensures
        x.check() is Ok <==> {
            &&& (x.limit matches Some(n) ==> n >= 1)
            &&& (x.offset matches Some(n) ==> n >= 0)
            &&& (x.active_minutes matches Some(n) ==> n >= 1)
            &&& (x.label matches Some(s) ==> 1 <= s@.len() <= 512)
            &&& (x.spawned_by matches Some(s) ==> s@.len() > 0)
            &&& (x.agent_id matches Some(s) ==> s@.len() > 0)
        },
{
}

/// A `SessionsSearchHitSchema` passes validation exactly when every condition below holds;
/// a value that breaks one is rejected.
pub proof fn sessions_search_hit_schema_accepts(x: SessionsSearchHitSchema)
    ensures
        x.check() is Ok <==> {
            &&& x.session_key@.len() > 0
            &&& x.session_id@.len() > 0
            &&& x.message_id@.len() > 0
            &&& x.timestamp as int >= 0
        },
{
}

/// A `SessionsSearchResultSchema` passes validation exactly when every condition below holds;
/// a value that breaks one is rejected.
pub proof fn sessions_search_result_schema_accepts(x: SessionsSearchResultSchema)
    ensures
        x.check() is Ok <==> {
            &&& (forall|k: int| 0 <= k < x.results@.len() ==> (#[trigger] x.results@[k]).checks() is Ok)
        },
{
    crate::checks::each_checked_first_failure("results"@, x.results@, 0);
}

/// A `SessionsCleanupParamsSchema` passes validation exactly when every condition below holds;
/// a value that breaks one is rejected.
pub proof fn sessions_cleanup_params_schema_accepts(x: SessionsCleanupParamsSchema)
    ensures
        x.check() is Ok <==> {
            &&& (x.agent matches Some(s) ==> s@.len() > 0)
            &&& (x.active_key matches Some(s) ==> s@.len() > 0)
        },
{
}

/// A `SessionsDescribeParamsSchema` passes validation exactly when every condition below holds;
/// a value that breaks one is rejected.
pub proof fn sessions_describe_params_schema_accepts(x: SessionsDescribeParamsSchema)
    ensures
        x.check() is Ok <==> {
            &&& x.key@.len() > 0
        },
{
}

/// A `SessionsResolveParamsSchema` passes validation exactly when every condition below holds;
/// a value that breaks one is rejected.
pub proof fn sessions_resolve_params_schema_accepts(x: SessionsResolveParamsSchema)
    ensures
        x.check() is Ok <==> {
            &&& (x.key matches Some(s) ==> s@.len() > 0)
            &&& (x.session_id matches Some(s) ==> s@.len() > 0)
            &&& (x.label matches Some(s) ==> 1 <= s@.len() <= 512)
            &&& (x.agent_id matches Some(s) ==> s@.len() > 0)
            &&& (x.spawned_by matches Some(s) ==> s@.len() > 0)
        },
{
}

/// A `SessionWorktreeInfoSchema` passes validation exactly when every condition below holds;
/// a value that breaks one is rejected.
pub proof fn session_worktree_info_schema_accepts(x: SessionWorktreeInfoSchema)
    ensures
        x.check() is Ok <==> {
            &&& x.id@.len() > 0
            &&& x.path@.len() > 0
            &&& x.branch@.len() > 0
        },
{
}

/// A `SessionsCreateResultSchema` passes validation exactly when every condition below holds;
/// a value that breaks one is rejected.
pub proof fn sessions_create_result_schema_accepts(x: SessionsCreateResultSchema)
    ensures
        x.check() is Ok <==> {
            &&& !(!x.ok)
            &&& x.key@.len() > 0
            &&& (x.session_id matches Some(s) ==> s@.len() > 0)
            &&& (x.worktree matches Some(x) ==> x.check() is Ok)
        },
{
}

/// A `SessionsSendParamsSchema` passes validation exactly when every condition below holds;
/// a value that breaks one is rejected.
pub proof fn sessions_send_params_schema_accepts(x: SessionsSendParamsSchema)
    ensures
        x.check() is Ok <==> {
            &&& x.key@.len() > 0
            &&& (x.agent_id matches Some(s) ==> s@.len() > 0)
            &&& (x.timeout_ms matches Some(n) ==> n >= 0)
            &&& (x.idempotency_key matches Some(s) ==> s@.len() > 0)
        },
{
}

/// A `SessionsMessagesSubscribeParamsSchema` passes validation exactly when every condition below holds;
/// a value that breaks one is rejected.
pub proof fn sessions_messages_subscribe_params_schema_accepts(x: SessionsMessagesSubscribeParamsSchema)
    ensures
        x.check() is Ok <==> {
            &&& x.key@.len() > 0
            &&& (x.agent_id matches Some(s) ==> s@.len() > 0)
            &&& !(x.include_approvals == Some(false))
        },
{
}

/// A `SessionsMessagesUnsubscribeParamsSchema` passes validation exactly when every condition below holds;
/// a value that breaks one is rejected.
pub proof fn sessions_messages_unsubscribe_params_schema_accepts(x: SessionsMessagesUnsubscribeParamsSchema)
    ensures
        x.check() is Ok <==> {
            &&& x.key@.len() > 0
            &&& (x.agent_id matches Some(s) ==> s@.len() > 0)
        },
{
}

/// A `SessionsAbortParamsSchema` passes validation exactly when every condition below holds;
/// a value that breaks one is rejected.
pub proof fn sessions_abort_params_schema_accepts(x: SessionsAbortParamsSchema)
    ensures
        x.check() is Ok <==> {
            &&& (x.key matches Some(s) ==> s@.len() > 0)
            &&& (x.run_id matches Some(s) ==> s@.len() > 0)
            &&& (x.agent_id matches Some(s) ==> s@.len() > 0)
        },
{
}

/// A `SessionsPluginPatchParamsSchema` passes validation exactly when every condition below holds;
/// a value that breaks one is rejected.
pub proof fn sessions_plugin_patch_params_schema_accepts(x: SessionsPluginPatchParamsSchema)
    ensures
        x.check() is Ok <==> {
            &&& x.key@.len() > 0
            &&& x.plugin_id@.len() > 0
            &&& x.namespace@.len() > 0
        },
{
}

/// A `SessionsPluginPatchResultSchema` passes validation exactly when every condition below holds;
/// a value that breaks one is rejected.
pub proof fn sessions_plugin_patch_result_schema_accepts(x: SessionsPluginPatchResultSchema)
    ensures
        x.check() is Ok <==> {
            &&& !(!x.ok)
            &&& x.key@.len() > 0
        },
{
}

/// A `SessionsResetParamsSchema` passes validation exactly when every condition below holds;
/// a value that breaks one is rejected.
pub proof fn sessions_reset_params_schema_accepts(x: SessionsResetParamsSchema)
    ensures
        x.check() is Ok <==> {
            &&& x.key@.len() > 0
            &&& (x.agent_id matches Some(s) ==> s@.len() > 0)
        },
{
}

/// A `SessionGroupSchema` passes validation exactly when every condition below holds;
/// a value that breaks one is rejected.
pub proof fn session_group_schema_accepts(x: SessionGroupSchema)
    ensures
        x.check() is Ok <==> {
            &&& 1 <= x.name@.len() <= 512
            &&& x.position as int >= 0
        },
{
}

/// A `SessionsGroupsListResultSchema` passes validation exactly when every condition below holds;
/// a value that breaks one is rejected.
pub proof fn sessions_groups_list_result_schema_accepts(x: SessionsGroupsListResultSchema)
    ensures
        x.check() is Ok <==> {
            &&& (forall|k: int| 0 <= k < x.groups@.len() ==> (#[trigger] x.groups@[k]).checks() is Ok)
        },
{
    crate::checks::each_checked_first_failure("groups"@, x.groups@, 0);
}

/// A `SessionsGroupsRenameParamsSchema` passes validation exactly when every condition below holds;
/// a value that breaks one is rejected.
pub proof fn sessions_groups_rename_params_schema_accepts(x: SessionsGroupsRenameParamsSchema)
    ensures
        x.check() is Ok <==> {
            &&& 1 <= x.name@.len() <= 512
            &&& 1 <= x.to@.len() <= 512
        },
{
}

/// A `SessionsGroupsDeleteParamsSchema` passes validation exactly when every condition below holds;
/// a value that breaks one is rejected.
pub proof fn sessions_groups_delete_params_schema_accepts(x: SessionsGroupsDeleteParamsSchema)
    ensures
        x.check() is Ok <==> {
            &&& 1 <= x.name@.len() <= 512
        },
{
}

/// A `SessionsGroupsMutationResultSchema` passes validation exactly when every condition below holds;
/// a value that breaks one is rejected.
pub proof fn sessions_groups_mutation_result_schema_accepts(x: SessionsGroupsMutationResultSchema)
    ensures
        x.check() is Ok <==> {
            &&& !(!x.ok)
            &&& (forall|k: int| 0 <= k < x.groups@.len() ==> (#[trigger] x.groups@[k]).checks() is Ok)
            &&& (x.updated_sessions matches Some(n) ==> n >= 0)
        },
{
    crate::checks::each_checked_first_failure("groups"@, x.groups@, 0);
}

/// A `SessionsCompactParamsSchema` passes validation exactly when every condition below holds;
/// a value that breaks one is rejected.
pub proof fn sessions_compact_params_schema_accepts(x: SessionsCompactParamsSchema)
    ensures
        x.check() is Ok <==> {
            &&& x.key@.len() > 0
            &&& (x.agent_id matches Some(s) ==> s@.len() > 0)
            &&& (x.max_lines matches Some(n) ==> n >= 1)
        },
{
}

/// A `SessionsCompactionListParamsSchema` passes validation exactly when every condition below holds;
/// a value that breaks one is rejected.
pub proof fn sessions_compaction_list_params_schema_accepts(x: SessionsCompactionListParamsSchema)
    ensures
        x.check() is Ok <==> {
            &&& x.key@.len() > 0
            &&& (x.agent_id matches Some(s) ==> s@.len() > 0)
        },
{
}

/// A `SessionsCompactionGetParamsSchema` passes validation exactly when every condition below holds;
/// a value that breaks one is rejected.
pub proof fn sessions_compaction_get_params_schema_accepts(x: SessionsCompactionGetParamsSchema)
    ensures
        x.check() is Ok <==> {
            &&& x.key@.len() > 0
            &&& (x.agent_id matches Some(s) ==> s@.len() > 0)
            &&& x.checkpoint_id@.len() > 0
        },
{
}

/// A `SessionsCompactionBranchParamsSchema` passes validation exactly when every condition below holds;
/// a value that breaks one is rejected.
pub proof fn sessions_compaction_branch_params_schema_accepts(x: SessionsCompactionBranchParamsSchema)
    ensures
        x.check() is Ok <==> {
            &&& x.key@.len() > 0
            &&& (x.agent_id matches Some(s) ==> s@.len() > 0)
            &&& x.checkpoint_id@.len() > 0
        },
{
}

/// A `SessionsCompactionRestoreParamsSchema` passes validation exactly when every condition below holds;
/// a value that breaks one is rejected.
pub proof fn sessions_compaction_restore_params_schema_accepts(x: SessionsCompactionRestoreParamsSchema)
    ensures
        x.check() is Ok <==> {
            &&& x.key@.len() > 0
            &&& (x.agent_id matches Some(s) ==> s@.len() > 0)
            &&& x.checkpoint_id@.len() > 0
        },
{
}

/// A `SessionsCompactionListResultSchema` passes validation exactly when every condition below holds;
/// a value that breaks one is rejected.
pub proof fn sessions_compaction_list_result_schema_accepts(x: SessionsCompactionListResultSchema)
    ensures
        x.check() is Ok <==> {
            &&& !(!x.ok)
            &&& x.key@.len() > 0
            &&& (forall|k: int| 0 <= k < x.checkpoints@.len() ==> (#[trigger] x.checkpoints@[k]).checks() is Ok)
        },
{
    crate::checks::each_checked_first_failure("checkpoints"@, x.checkpoints@, 0);
}

/// A `SessionsCompactionGetResultSchema` passes validation exactly when every condition below holds;
/// a value that breaks one is rejected.
pub proof fn sessions_compaction_get_result_schema_accepts(x: SessionsCompactionGetResultSchema)
    ensures
        x.check() is Ok <==> {
            &&& !(!x.ok)
            &&& x.key@.len() > 0
            &&& x.checkpoint.check() is Ok
        },
{
}

/// A `CompactionEntryMetadata` passes validation exactly when every condition below holds;
/// a value that breaks one is rejected.
pub proof fn compaction_entry_metadata_accepts(x: CompactionEntryMetadata)
    ensures
        x.check() is Ok <==> {
            &&& x.session_id@.len() > 0
            &&& x.updated_at as int >= 0
        },
{
}

/// A `SessionsCompactionBranchResultSchema` passes validation exactly when every condition below holds;
/// a value that breaks one is rejected.
pub proof fn sessions_compaction_branch_result_schema_accepts(x: SessionsCompactionBranchResultSchema)
    ensures
        x.check() is Ok <==> {
            &&& !(!x.ok)
            &&& x.source_key@.len() > 0
            &&& x.key@.len() > 0
            &&& x.session_id@.len() > 0
            &&& x.checkpoint.check() is Ok
            &&& x.entry.check() is Ok
        },
{
}

/// A `SessionsCompactionRestoreResultSchema` passes validation exactly when every condition below holds;
/// a value that breaks one is rejected.
pub proof fn sessions_compaction_restore_result_schema_accepts(x: SessionsCompactionRestoreResultSchema)
    ensures
        x.check() is Ok <==> {
            &&& !(!x.ok)
            &&& x.key@.len() > 0
            &&& x.session_id@.len() > 0
            &&& x.checkpoint.check() is Ok
            &&& x.entry.check() is Ok
        },
{
}

/// A `SessionFileEntrySchema` passes validation exactly when every condition below holds;
/// a value that breaks one is rejected.
pub proof fn session_file_entry_schema_accepts(x: SessionFileEntrySchema)
    ensures
        x.check() is Ok <==> {
            &&& x.path@.len() > 0
            &&& (x.workspace_path matches Some(s) ==> s@.len() > 0)
            &&& x.name@.len() > 0
            &&& (x.size matches Some(n) ==> n >= 0)
            &&& (x.updated_at_ms matches Some(n) ==> n >= 0)
            &&& (x.hash matches Some(h) ==> (h@.len() == 64 && is_session_file_hash(h@)))
        },
{
}

/// A `SessionsFilesSetParamsSchema` passes validation exactly when every condition below holds;
/// a value that breaks one is rejected.
pub proof fn sessions_files_set_params_schema_accepts(x: SessionsFilesSetParamsSchema)
    ensures
        x.check() is Ok <==> {
            &&& x.session_key@.len() > 0
            &&& x.path@.len() > 0
            &&& (x.agent_id matches Some(s) ==> s@.len() > 0)
            &&& (x.expected_hash@.len() == 64 && is_session_file_hash(x.expected_hash@))
        },
{
}

/// A `SessionsCreateParamsSchema` passes validation exactly when every condition below holds;
/// a value that breaks one is rejected.
pub proof fn sessions_create_params_schema_accepts(x: SessionsCreateParamsSchema)
    ensures
        x.check() is Ok <==> {
            &&& (x.key matches Some(s) ==> s@.len() > 0)
            &&& (x.agent_id matches Some(s) ==> s@.len() > 0)
            &&& (x.label matches Some(s) ==> 1 <= s@.len() <= 512)
            &&& (x.model matches Some(s) ==> s@.len() > 0)
            &&& (x.parent_session_key matches Some(s) ==> s@.len() > 0)
            &&& (x.worktree_base_ref matches Some(s) ==> s@.len() >= 1)
            &&& (x.worktree_name matches Some(s) ==> is_worktree_name(s@))
            &&& (x.exec_node matches Some(s) ==> s@.len() >= 1)
            &&& (x.cwd matches Some(s) ==> s@.len() >= 1)
        },
{
}

/// A `SessionsUsageParamsSchema` passes validation exactly when every condition below holds;
/// a value that breaks one is rejected.
pub proof fn sessions_usage_params_schema_accepts(x: SessionsUsageParamsSchema)
    ensures
        x.check() is Ok <==> {
            &&& (x.key matches Some(s) ==> s@.len() > 0)
            &&& (x.agent_id matches Some(s) ==> s@.len() > 0)
            &&& (x.start_date matches Some(s) ==> is_usage_date(s@))
            &&& (x.end_date matches Some(s) ==> is_usage_date(s@))
            &&& (x.utc_offset matches Some(s) ==> is_utc_offset(s@))
            &&& (x.time_zone matches Some(s) ==> s@.len() > 0)
            &&& (x.limit matches Some(n) ==> n >= 1)
        },
{
}

/// A `SessionsDeleteParamsSchema` passes validation exactly when every condition below holds;
/// a value that breaks one is rejected.
pub proof fn sessions_delete_params_schema_accepts(x: SessionsDeleteParamsSchema)
    ensures
        x.check() is Ok <==> {
            &&& x.key@.len() > 0
            &&& (x.agent_id matches Some(s) ==> s@.len() > 0)
            &&& (x.expected_session_id matches Some(s) ==> s@.len() > 0)
            &&& (x.expected_lifecycle_revision matches Some(s) ==> s@.len() > 0)
            &&& (x.expected_session_updated_at matches Some(n) ==> !(n.negative))
        },
{
}

/// Every name of a list is a session label (1..=512 characters) exactly when
/// the list check passes.
pub proof fn each_session_label_all_pass(field: Seq<char>, values: Seq<String>, i: int)
    requires
        0 <= i <= values.len(),
    ensures
        each_session_label(field, values, i) is Ok
            <==> forall|k: int| i <= k < values.len() ==> 1 <= (#[trigger] values[k]@).len() <= 512,
    decreases values.len() - i,
{
    if i < values.len() {
        each_session_label_all_pass(field, values, i + 1);
    }
}

/// A sessions.patch request passes validation exactly when its key is
/// non-empty, every string it sets is non-empty (labels and categories of
/// 1..=512 characters), a set spawn depth is `>= 0`, and every item of a set
/// inherited tool list is non-empty. Clearing a field (`null`) always passes.
pub proof fn sessions_patch_params_schema_accepts(x: SessionsPatchParamsSchema)
    ensures
        x.check() is Ok <==> {
            &&& x.key@.len() > 0
            &&& (x.agent_id matches Some(s) ==> s@.len() > 0)
            &&& (x.label matches Some(Some(s)) ==> 1 <= s@.len() <= 512)
            &&& (x.category matches Some(Some(s)) ==> 1 <= s@.len() <= 512)
            &&& (x.thinking_level matches Some(Some(s)) ==> s@.len() > 0)
            &&& (x.verbose_level matches Some(Some(s)) ==> s@.len() > 0)
            &&& (x.trace_level matches Some(Some(s)) ==> s@.len() > 0)
            &&& (x.reasoning_level matches Some(Some(s)) ==> s@.len() > 0)
            &&& (x.elevated_level matches Some(Some(s)) ==> s@.len() > 0)
            &&& (x.exec_host matches Some(Some(s)) ==> s@.len() > 0)
            &&& (x.exec_security matches Some(Some(s)) ==> s@.len() > 0)
            &&& (x.exec_ask matches Some(Some(s)) ==> s@.len() > 0)
            &&& (x.exec_node matches Some(Some(s)) ==> s@.len() > 0)
            &&& (x.model matches Some(Some(s)) ==> s@.len() > 0)
            &&& (x.spawned_by matches Some(Some(s)) ==> s@.len() > 0)
            &&& (x.spawned_workspace_dir matches Some(Some(s)) ==> s@.len() > 0)
            &&& (x.spawned_cwd matches Some(Some(s)) ==> s@.len() > 0)
            &&& (x.spawn_depth matches Some(Some(n)) ==> n >= 0)
            &&& (x.inherited_tool_allow matches Some(Some(v)) ==>
                forall|k: int| 0 <= k < v@.len() ==> (#[trigger] v@[k]@).len() > 0)
            &&& (x.inherited_tool_deny matches Some(Some(v)) ==>
                forall|k: int| 0 <= k < v@.len() ==> (#[trigger] v@[k]@).len() > 0)
        },
{
    if let Some(Some(v)) = x.inherited_tool_allow {
        crate::checks::each_non_empty_all_pass("inheritedToolAllow"@, v@, 0);
    }
    if let Some(Some(v)) = x.inherited_tool_deny {
        crate::checks::each_non_empty_all_pass("inheritedToolDeny"@, v@, 0);
    }
}

/// A sessions.search request passes validation exactly when a set agent id is
/// non-empty, a set list of session keys holds 1..=200 non-empty keys, the
/// query has 1..=4096 characters and a set limit lies in `1..=25`.
pub proof fn sessions_search_params_schema_accepts(x: SessionsSearchParamsSchema)
    ensures
        x.check() is Ok <==> {
            &&& (x.agent_id matches Some(s) ==> s@.len() > 0)
            &&& (x.session_keys matches Some(keys) ==> 1 <= keys@.len() <= 200
                && forall|k: int| 0 <= k < keys@.len() ==> (#[trigger] keys@[k]@).len() > 0)
            &&& 1 <= x.query@.len() <= 4096
            &&& (x.limit matches Some(l) ==> 1 <= l <= 25)
        },
{
    if let Some(keys) = x.session_keys {
        crate::checks::each_non_empty_all_pass("sessionKeys"@, keys@, 0);
    }
}

/// A sessions.preview request passes validation exactly when it names at
/// least one key, none empty, a set limit is `>= 1` and a set `maxChars` is
/// `>= 20`.
pub proof fn sessions_preview_params_schema_accepts(x: SessionsPreviewParamsSchema)
    ensures
        x.check() is Ok <==> {
            &&& x.keys@.len() > 0
            &&& forall|k: int| 0 <= k < x.keys@.len() ==> (#[trigger] x.keys@[k]@).len() > 0
            &&& (x.limit matches Some(l) ==> l >= 1)
            &&& (x.max_chars matches Some(n) ==> n >= 20)
        },
{
    crate::checks::each_non_empty_all_pass("keys"@, x.keys@, 0);
}

/// A sessions.groups.put request passes validation exactly when it holds at
/// most 200 names, each of 1..=512 characters.
pub proof fn sessions_groups_put_params_schema_accepts(x: SessionsGroupsPutParamsSchema)
    ensures
        x.check() is Ok <==> {
            &&& x.names@.len() <= 200
            &&& forall|k: int| 0 <= k < x.names@.len() ==> 1 <= (#[trigger] x.names@[k]@).len() <= 512
        },
{
    each_session_label_all_pass("names"@, x.names@, 0);
}

} // verus!
