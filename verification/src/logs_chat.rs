//! Log tail and chat schemas: history, metadata, tool titles, message lookup,
//! sends, aborts, injections and the chat stream events.
use vstd::prelude::*;
use crate::checks::{
    also, bound_msg, count_bound_msg_text, count_in, index_label, index_label_text, non_empty, non_negative_integer, opt_int_in,
    opt_non_empty, opt_non_negative_integer, opt_positive_integer, outcome, prefixed, reject,
    require_count_in, require_non_empty, require_non_negative_integer, require_opt_int_in,
    require_opt_non_empty, require_opt_non_negative_integer, require_opt_positive_integer, within,
    Outcome,
};
use crate::primitives::{
    is_valid_chat_send_session_key, ChatSendSessionKeyString, InputProvenanceSchema, NonEmptyString,
    CHAT_SEND_SESSION_KEY_MAX_LENGTH,
};
use crate::text::{decimal, str_eq, usize_text};

verus! {

/// An optional string that must be non-empty when present; its message names
/// the field `optional non-empty`.
pub open spec fn opt_non_empty_unnamed(value: Option<String>) -> Outcome {
    opt_non_empty("optional non-empty"@, value)
}

fn validate_optional_non_empty_string(value: &Option<String>) -> (r: Result<(), String>)
    ensures
        outcome(r) == opt_non_empty_unnamed(*value),
{
    require_opt_non_empty("optional non-empty", value)
}

/// Reason returned when a single chat message lookup misses.
#[derive(Debug, Clone, Copy, PartialEq, Eq, Hash, Structural)]
pub enum ChatMessageGetUnavailableReasonSchema {
    NotFound,
    Oversized,
    NotVisible,
}

impl ChatMessageGetUnavailableReasonSchema {
    /// The wire text of each variant.
    pub open spec fn spec_as_str(&self) -> Seq<char> {
        match self {
            ChatMessageGetUnavailableReasonSchema::NotFound => "not_found"@,
            ChatMessageGetUnavailableReasonSchema::Oversized => "oversized"@,
            ChatMessageGetUnavailableReasonSchema::NotVisible => "not_visible"@,
        }
    }

    /// The wire text of this value.
    pub fn as_str(&self) -> (r: &'static str)
        ensures
            r@ == self.spec_as_str(),
    {
        match self {
            ChatMessageGetUnavailableReasonSchema::NotFound => "not_found",
            ChatMessageGetUnavailableReasonSchema::Oversized => "oversized",
            ChatMessageGetUnavailableReasonSchema::NotVisible => "not_visible",
        }
    }

    /// The value whose wire text is `s`, if any.
    pub open spec fn spec_from_str(s: Seq<char>) -> Option<ChatMessageGetUnavailableReasonSchema> {
        if s == "not_found"@ {
            Some(ChatMessageGetUnavailableReasonSchema::NotFound)
        } else if s == "oversized"@ {
            Some(ChatMessageGetUnavailableReasonSchema::Oversized)
        } else if s == "not_visible"@ {
            Some(ChatMessageGetUnavailableReasonSchema::NotVisible)
        } else {
            None
        }
    }

    /// Parses a wire text; `None` for unknown values.
    pub fn from_str(s: &str) -> (r: Option<ChatMessageGetUnavailableReasonSchema>)
        ensures
            r == ChatMessageGetUnavailableReasonSchema::spec_from_str(s@),
    {
        if str_eq(s, "not_found") {
            Some(ChatMessageGetUnavailableReasonSchema::NotFound)
        } else if str_eq(s, "oversized") {
            Some(ChatMessageGetUnavailableReasonSchema::Oversized)
        } else if str_eq(s, "not_visible") {
            Some(ChatMessageGetUnavailableReasonSchema::NotVisible)
        } else {
            None
        }
    }

    /// Every value, in declaration order.
    pub open spec fn spec_all() -> Seq<ChatMessageGetUnavailableReasonSchema> {
        seq![ChatMessageGetUnavailableReasonSchema::NotFound, ChatMessageGetUnavailableReasonSchema::Oversized, ChatMessageGetUnavailableReasonSchema::NotVisible]
    }

    /// Every value, in declaration order.
    pub fn all() -> (r: &'static [ChatMessageGetUnavailableReasonSchema])
        ensures
            r@ == ChatMessageGetUnavailableReasonSchema::spec_all(),
    {
        &[ChatMessageGetUnavailableReasonSchema::NotFound, ChatMessageGetUnavailableReasonSchema::Oversized, ChatMessageGetUnavailableReasonSchema::NotVisible]
    }
}
/// `ChatMessageGetUnavailableReasonSchema::all` lists every value, each once.
pub proof fn chat_message_get_unavailable_reason_schema_all_lists_every_value(v: ChatMessageGetUnavailableReasonSchema)
    ensures
        ChatMessageGetUnavailableReasonSchema::spec_all().contains(v),
        ChatMessageGetUnavailableReasonSchema::spec_all().no_duplicates(),
{
    let all = ChatMessageGetUnavailableReasonSchema::spec_all();
    match v {
        ChatMessageGetUnavailableReasonSchema::NotFound => assert(all[0] == v),
        ChatMessageGetUnavailableReasonSchema::Oversized => assert(all[1] == v),
        ChatMessageGetUnavailableReasonSchema::NotVisible => assert(all[2] == v),
    }
}


/// The wire texts of `ChatMessageGetUnavailableReasonSchema` are distinct: parsing the text of a value
/// gives that value back, and a text that parses is the text of what it
/// parses to.
pub proof fn chat_message_get_unavailable_reason_schema_text_round_trip(v: ChatMessageGetUnavailableReasonSchema, s: Seq<char>)
    ensures
        ChatMessageGetUnavailableReasonSchema::spec_from_str(v.spec_as_str()) == Some(v),
        ChatMessageGetUnavailableReasonSchema::spec_from_str(s) matches Some(w) ==> w.spec_as_str() == s,
{
    reveal_strlit("not_found");
    reveal_strlit("oversized");
    reveal_strlit("not_visible");
    assert("not_found"@.len() == 9);
    assert("oversized"@.len() == 9);
    assert("not_visible"@.len() == 11);
    assert("not_found"@[0] == 'n');
    assert("oversized"@[0] == 'o');
}

/// Returns true when `s` is the wire text of a `ChatMessageGetUnavailableReasonSchema`.
pub fn is_valid_chat_message_get_unavailable_reason(s: &str) -> (r: bool)
    ensures
        r == ChatMessageGetUnavailableReasonSchema::spec_from_str(s@) is Some,
{
    ChatMessageGetUnavailableReasonSchema::from_str(s).is_some()
}

/// Stable error categories exposed over the chat stream.
#[derive(Debug, Clone, Copy, PartialEq, Eq, Hash, Structural)]
pub enum ChatEventErrorKindSchema {
    Refusal,
    Timeout,
    RateLimit,
    ContextLength,
    Unknown,
}

impl ChatEventErrorKindSchema {
    /// The wire text of each variant.
    pub open spec fn spec_as_str(&self) -> Seq<char> {
        match self {
            ChatEventErrorKindSchema::Refusal => "refusal"@,
            ChatEventErrorKindSchema::Timeout => "timeout"@,
            ChatEventErrorKindSchema::RateLimit => "rate_limit"@,
            ChatEventErrorKindSchema::ContextLength => "context_length"@,
            ChatEventErrorKindSchema::Unknown => "unknown"@,
        }
    }

    /// The wire text of this value.
    pub fn as_str(&self) -> (r: &'static str)
        ensures
            r@ == self.spec_as_str(),
    {
        match self {
            ChatEventErrorKindSchema::Refusal => "refusal",
            ChatEventErrorKindSchema::Timeout => "timeout",
            ChatEventErrorKindSchema::RateLimit => "rate_limit",
            ChatEventErrorKindSchema::ContextLength => "context_length",
            ChatEventErrorKindSchema::Unknown => "unknown",
        }
    }

    /// The value whose wire text is `s`, if any.
    pub open spec fn spec_from_str(s: Seq<char>) -> Option<ChatEventErrorKindSchema> {
        if s == "refusal"@ {
            Some(ChatEventErrorKindSchema::Refusal)
        } else if s == "timeout"@ {
            Some(ChatEventErrorKindSchema::Timeout)
        } else if s == "rate_limit"@ {
            Some(ChatEventErrorKindSchema::RateLimit)
        } else if s == "context_length"@ {
            Some(ChatEventErrorKindSchema::ContextLength)
        } else if s == "unknown"@ {
            Some(ChatEventErrorKindSchema::Unknown)
        } else {
            None
        }
    }

    /// Parses a wire text; `None` for unknown values.
    pub fn from_str(s: &str) -> (r: Option<ChatEventErrorKindSchema>)
        ensures
            r == ChatEventErrorKindSchema::spec_from_str(s@),
    {
        if str_eq(s, "refusal") {
            Some(ChatEventErrorKindSchema::Refusal)
        } else if str_eq(s, "timeout") {
            Some(ChatEventErrorKindSchema::Timeout)
        } else if str_eq(s, "rate_limit") {
            Some(ChatEventErrorKindSchema::RateLimit)
        } else if str_eq(s, "context_length") {
            Some(ChatEventErrorKindSchema::ContextLength)
        } else if str_eq(s, "unknown") {
            Some(ChatEventErrorKindSchema::Unknown)
        } else {
            None
        }
    }

    /// Every value, in declaration order.
    pub open spec fn spec_all() -> Seq<ChatEventErrorKindSchema> {
        seq![ChatEventErrorKindSchema::Refusal, ChatEventErrorKindSchema::Timeout, ChatEventErrorKindSchema::RateLimit, ChatEventErrorKindSchema::ContextLength, ChatEventErrorKindSchema::Unknown]
    }

    /// Every value, in declaration order.
    pub fn all() -> (r: &'static [ChatEventErrorKindSchema])
        ensures
            r@ == ChatEventErrorKindSchema::spec_all(),
    {
        &[ChatEventErrorKindSchema::Refusal, ChatEventErrorKindSchema::Timeout, ChatEventErrorKindSchema::RateLimit, ChatEventErrorKindSchema::ContextLength, ChatEventErrorKindSchema::Unknown]
    }
}
/// `ChatEventErrorKindSchema::all` lists every value, each once.
pub proof fn chat_event_error_kind_schema_all_lists_every_value(v: ChatEventErrorKindSchema)
    ensures
        ChatEventErrorKindSchema::spec_all().contains(v),
        ChatEventErrorKindSchema::spec_all().no_duplicates(),
{
    let all = ChatEventErrorKindSchema::spec_all();
    match v {
        ChatEventErrorKindSchema::Refusal => assert(all[0] == v),
        ChatEventErrorKindSchema::Timeout => assert(all[1] == v),
        ChatEventErrorKindSchema::RateLimit => assert(all[2] == v),
        ChatEventErrorKindSchema::ContextLength => assert(all[3] == v),
        ChatEventErrorKindSchema::Unknown => assert(all[4] == v),
    }
}


/// The wire texts of `ChatEventErrorKindSchema` are distinct: parsing the text of a value
/// gives that value back, and a text that parses is the text of what it
/// parses to.
pub proof fn chat_event_error_kind_schema_text_round_trip(v: ChatEventErrorKindSchema, s: Seq<char>)
    ensures
        ChatEventErrorKindSchema::spec_from_str(v.spec_as_str()) == Some(v),
        ChatEventErrorKindSchema::spec_from_str(s) matches Some(w) ==> w.spec_as_str() == s,
{
    reveal_strlit("refusal");
    reveal_strlit("timeout");
    reveal_strlit("rate_limit");
    reveal_strlit("context_length");
    reveal_strlit("unknown");
    assert("refusal"@.len() == 7);
    assert("timeout"@.len() == 7);
    assert("rate_limit"@.len() == 10);
    assert("context_length"@.len() == 14);
    assert("unknown"@.len() == 7);
    assert("refusal"@[0] == 'r');
    assert("timeout"@[0] == 't');
    assert("unknown"@[0] == 'u');
}

/// Returns true when `s` is the wire text of a `ChatEventErrorKindSchema`.
pub fn is_valid_chat_event_error_kind(s: &str) -> (r: bool)
    ensures
        r == ChatEventErrorKindSchema::spec_from_str(s@) is Some,
{
    ChatEventErrorKindSchema::from_str(s).is_some()
}

/// The `delta` marker of `ChatDeltaEventSchema.state`.
#[derive(Debug, Clone, Copy, PartialEq, Eq, Hash, Structural)]
pub enum ChatDeltaEventState {
    Delta,
}

impl Default for ChatDeltaEventState {
    fn default() -> (r: Self)
        ensures
            r == ChatDeltaEventState::Delta,
    {
        ChatDeltaEventState::Delta
    }
}

/// The `final` marker of `ChatFinalEventSchema.state`.
#[derive(Debug, Clone, Copy, PartialEq, Eq, Hash, Structural)]
pub enum ChatFinalEventState {
    Final,
}

impl Default for ChatFinalEventState {
    fn default() -> (r: Self)
        ensures
            r == ChatFinalEventState::Final,
    {
        ChatFinalEventState::Final
    }
}

/// The `aborted` marker of `ChatAbortedEventSchema.state`.
#[derive(Debug, Clone, Copy, PartialEq, Eq, Hash, Structural)]
pub enum ChatAbortedEventState {
    Aborted,
}

impl Default for ChatAbortedEventState {
    fn default() -> (r: Self)
        ensures
            r == ChatAbortedEventState::Aborted,
    {
        ChatAbortedEventState::Aborted
    }
}

/// The `error` marker of `ChatErrorEventSchema.state`.
#[derive(Debug, Clone, Copy, PartialEq, Eq, Hash, Structural)]
pub enum ChatErrorEventState {
    Error,
}

impl Default for ChatErrorEventState {
    fn default() -> (r: Self)
        ensures
            r == ChatErrorEventState::Error,
    {
        ChatErrorEventState::Error
    }
}

// ---------------------------------------------------------------------------
// Log tail
// ---------------------------------------------------------------------------

/// Cursor-based request for the gateway log tail endpoint.
#[derive(Debug, Clone, Default)]
pub struct LogsTailParamsSchema {
    pub cursor: Option<i64>,
    pub limit: Option<i64>,
    pub max_bytes: Option<i64>,
}

impl LogsTailParamsSchema {
    /// `cursor >= 0`, `limit` in `[1, 5000]`, `maxBytes` in `[1, 1000000]`.
    pub open spec fn check(&self) -> Outcome {
        also(opt_non_negative_integer("cursor"@, self.cursor),
        also(opt_int_in("limit"@, ": expected integer in ["@, self.limit, 1, 5000, "], got "@),
        opt_int_in("maxBytes"@, ": expected integer in ["@, self.max_bytes, 1, 1_000_000, "], got "@)))
    }

    pub fn validate(&self) -> (r: Result<(), String>)
        ensures
            outcome(r) == self.check(),
    {
        let r = require_opt_non_negative_integer("cursor", self.cursor);
        if r.is_err() {
            return r;
        }
        let r = require_opt_int_in("limit", ": expected integer in [", self.limit, 1, 5000, "], got ");
        if r.is_err() {
            return r;
        }
        require_opt_int_in("maxBytes", ": expected integer in [", self.max_bytes, 1, 1_000_000, "], got ")
    }
}

/// Gateway log tail payload returned to dashboard clients.
#[derive(Debug, Clone, Default)]
pub struct LogsTailResultSchema {
    pub file: NonEmptyString,
    pub cursor: i64,
    pub size: i64,
    pub lines: Vec<String>,
    pub truncated: Option<bool>,
    pub reset: Option<bool>,
}

impl LogsTailResultSchema {
    /// `file` non-empty, `cursor >= 0`, `size >= 0`.
    pub open spec fn check(&self) -> Outcome {
        also(non_empty("file"@, self.file@),
        also(non_negative_integer("cursor"@, self.cursor as int),
        non_negative_integer("size"@, self.size as int)))
    }

    pub fn validate(&self) -> (r: Result<(), String>)
        ensures
            outcome(r) == self.check(),
    {
        let r = require_non_empty("file", self.file.as_str());
        if r.is_err() {
            return r;
        }
        let r = require_non_negative_integer("cursor", self.cursor);
        if r.is_err() {
            return r;
        }
        require_non_negative_integer("size", self.size)
    }
}

// ---------------------------------------------------------------------------
// History, metadata and tool titles
// ---------------------------------------------------------------------------

/// Session-scoped history request used by WebChat and native WebSocket clients.
#[derive(Debug, Clone, Default)]
pub struct ChatHistoryParamsSchema {
    pub session_key: NonEmptyString,
    pub agent_id: Option<NonEmptyString>,
    pub limit: Option<i64>,
    pub offset: Option<i64>,
    pub max_chars: Option<i64>,
}

impl ChatHistoryParamsSchema {
    /// Session key, agent id, `limit` in `[1, 1000]`, `offset >= 0`, `maxChars`
    /// in `[1, 500000]`.
    pub open spec fn check(&self) -> Outcome {
        also(non_empty("sessionKey"@, self.session_key@),
        also(opt_non_empty_unnamed(self.agent_id),
        also(opt_int_in("limit"@, ": expected integer in ["@, self.limit, 1, 1000, "], got "@),
        also(opt_non_negative_integer("offset"@, self.offset),
        opt_int_in("maxChars"@, ": expected integer in ["@, self.max_chars, 1, 500_000, "], got "@)))))
    }

    pub fn validate(&self) -> (r: Result<(), String>)
        ensures
            outcome(r) == self.check(),
    {
        let r = require_non_empty("sessionKey", self.session_key.as_str());
        if r.is_err() {
            return r;
        }
        let r = validate_optional_non_empty_string(&self.agent_id);
        if r.is_err() {
            return r;
        }
        let r = require_opt_int_in("limit", ": expected integer in [", self.limit, 1, 1000, "], got ");
        if r.is_err() {
            return r;
        }
        let r = require_opt_non_negative_integer("offset", self.offset);
        if r.is_err() {
            return r;
        }
        require_opt_int_in("maxChars", ": expected integer in [", self.max_chars, 1, 500_000, "], got ")
    }
}

/// Lightweight chat metadata request; the optional agent scope keeps selector
/// state explicit.
#[derive(Debug, Clone, Default)]
pub struct ChatMetadataParamsSchema {
    pub agent_id: Option<NonEmptyString>,
}

impl ChatMetadataParamsSchema {
    /// The agent id, when present, is non-empty.
    pub open spec fn check(&self) -> Outcome {
        opt_non_empty_unnamed(self.agent_id)
    }

    pub fn validate(&self) -> (r: Result<(), String>)
        ensures
            outcome(r) == self.check(),
    {
        validate_optional_non_empty_string(&self.agent_id)
    }
}

/// One tool call whose purpose title is requested.
#[derive(Debug, Clone, Default)]
pub struct ChatToolTitlesParamsItem {
    pub id: String,
    pub name: String,
    pub input: String,
}

/// `field` of item `i` holds `lo..=hi` characters:
/// `items[i].field: expected length in [lo, hi], got n`.
pub open spec fn item_length(i: int, field: Seq<char>, value: Seq<char>, lo: int, hi: int) -> Outcome {
    count_in(index_label("items"@, i) + field, ": expected length in ["@, value.len() as int, lo, hi, "], got "@)
}

/// The checks of item `i`: id of 1..=64, name of 1..=200, input of 1..=4000
/// characters.
pub open spec fn tool_title_item(i: int, item: ChatToolTitlesParamsItem) -> Outcome {
    also(item_length(i, ".id"@, item.id@, 1, 64),
    also(item_length(i, ".name"@, item.name@, 1, 200),
    item_length(i, ".input"@, item.input@, 1, 4000)))
}

/// The first failing item of `items[i..]`.
pub open spec fn each_tool_title_item(items: Seq<ChatToolTitlesParamsItem>, i: int) -> Outcome
    decreases items.len() - i,
{
    if 0 <= i < items.len() {
        also(tool_title_item(i, items[i]), each_tool_title_item(items, i + 1))
    } else {
        Ok(())
    }
}

fn validate_item_length(i: usize, field: &str, value: &str, lo: usize, hi: usize) -> (r: Result<(), String>)
    ensures
        outcome(r) == item_length(i as int, field@, value@, lo as int, hi as int),
{
    let mut label = index_label_text("items", i);
    label.append(field);
    require_count_in(label.as_str(), ": expected length in [", value.unicode_len(), lo, hi, "], got ")
}

/// Batched purpose-title request for tool calls rendered in the Control UI.
#[derive(Debug, Clone, Default)]
pub struct ChatToolTitlesParamsSchema {
    pub session_key: NonEmptyString,
    pub agent_id: Option<NonEmptyString>,
    pub items: Vec<ChatToolTitlesParamsItem>,
}

impl ChatToolTitlesParamsSchema {
    /// Session key, agent id, 1..=24 items, then each item in order.
    pub open spec fn check(&self) -> Outcome {
        also(non_empty("sessionKey"@, self.session_key@),
        also(opt_non_empty_unnamed(self.agent_id),
        also(count_in("items"@, ": expected array length in ["@, self.items@.len() as int, 1, 24, "], got "@),
        each_tool_title_item(self.items@, 0))))
    }

    pub fn validate(&self) -> (r: Result<(), String>)
        ensures
            outcome(r) == self.check(),
    {
        let r = require_non_empty("sessionKey", self.session_key.as_str());
        if r.is_err() {
            return r;
        }
        let r = validate_optional_non_empty_string(&self.agent_id);
        if r.is_err() {
            return r;
        }
        let r = require_count_in("items", ": expected array length in [", self.items.len(), 1, 24, "], got ");
        if r.is_err() {
            return r;
        }
        let n = self.items.len();
        let mut i: usize = 0;
        while i < n
            invariant
                n == self.items@.len(),
                i <= n,
                self.check() == each_tool_title_item(self.items@, 0),
                each_tool_title_item(self.items@, 0) == each_tool_title_item(self.items@, i as int),
            decreases n - i,
        {
            let item = &self.items[i];
            let r = validate_item_length(i, ".id", item.id.as_str(), 1, 64);
            if r.is_err() {
                return r;
            }
            let r = validate_item_length(i, ".name", item.name.as_str(), 1, 200);
            if r.is_err() {
                return r;
            }
            let r = validate_item_length(i, ".input", item.input.as_str(), 1, 4000);
            if r.is_err() {
                return r;
            }
            i = i + 1;
        }
        Ok(())
    }
}

/// Titles keyed by the caller-provided item id; missing ids mean no title.
/// `disabled: true` tells clients the gateway has tool titles switched off so
/// they stop requesting for the rest of the session.
#[derive(Debug, Clone, Default)]
pub struct ChatToolTitlesResultSchema {
    pub titles: std::collections::BTreeMap<String, String>,
    pub disabled: Option<bool>,
}

impl ChatToolTitlesResultSchema {
    /// A free-form map of titles: nothing to constrain.
    pub fn validate(&self) -> (r: Result<(), String>)
        ensures
            r is Ok,
    {
        Ok(())
    }
}

// ---------------------------------------------------------------------------
// Single message lookup
// ---------------------------------------------------------------------------

/// Fetches one stored chat message without forcing history callers to request
/// huge payloads.
#[derive(Debug, Clone, Default)]
pub struct ChatMessageGetParamsSchema {
    pub session_key: NonEmptyString,
    pub agent_id: Option<NonEmptyString>,
    pub message_id: NonEmptyString,
    pub max_chars: Option<i64>,
}

impl ChatMessageGetParamsSchema {
    /// Session key, agent id, message id, `maxChars` in `[1, 2000000]`.
    pub open spec fn check(&self) -> Outcome {
        also(non_empty("sessionKey"@, self.session_key@),
        also(opt_non_empty_unnamed(self.agent_id),
        also(non_empty("messageId"@, self.message_id@),
        opt_int_in("maxChars"@, ": expected integer in ["@, self.max_chars, 1, 2_000_000, "], got "@))))
    }

    pub fn validate(&self) -> (r: Result<(), String>)
        ensures
            outcome(r) == self.check(),
    {
        let r = require_non_empty("sessionKey", self.session_key.as_str());
        if r.is_err() {
            return r;
        }
        let r = validate_optional_non_empty_string(&self.agent_id);
        if r.is_err() {
            return r;
        }
        let r = require_non_empty("messageId", self.message_id.as_str());
        if r.is_err() {
            return r;
        }
        require_opt_int_in("maxChars", ": expected integer in [", self.max_chars, 1, 2_000_000, "], got ")
    }
}

/// Result envelope for single-message lookup, with the stable miss or
/// visibility reason.
#[derive(Debug, Clone)]
pub struct ChatMessageGetResultSchema {
    pub ok: bool,
    pub message: Option<serde_json::Value>,
    pub unavailable_reason: Option<ChatMessageGetUnavailableReasonSchema>,
}

impl ChatMessageGetResultSchema {
    /// The reason is a closed enum whose text always parses back, so every
    /// value passes.
    pub fn validate(&self) -> (r: Result<(), String>)
        ensures
            r is Ok,
    {
        if let Some(reason) = self.unavailable_reason {
            proof {
                chat_message_get_unavailable_reason_schema_text_round_trip(reason, reason.spec_as_str());
            }
            if ChatMessageGetUnavailableReasonSchema::from_str(reason.as_str()).is_none() {
                let mut m = String::from_str("unavailableReason: invalid value: ");
                m.append(reason.as_str());
                return Err(m);
            }
        }
        Ok(())
    }
}

// ---------------------------------------------------------------------------
// Sends, aborts and injections
// ---------------------------------------------------------------------------

/// `fastMode`: a boolean or the literal `auto`.
#[derive(Debug, Clone, Copy, PartialEq, Eq, Structural)]
pub enum ChatSendFastMode {
    Bool(bool),
    Auto,
}

impl ChatSendFastMode {
    /// `true`, `false` or `auto`.
    pub open spec fn spec_as_str(&self) -> Seq<char> {
        match self {
            ChatSendFastMode::Bool(b) => if *b { "true"@ } else { "false"@ },
            ChatSendFastMode::Auto => "auto"@,
        }
    }

    /// The text of this mode.
    pub fn as_str(&self) -> (r: &'static str)
        ensures
            r@ == self.spec_as_str(),
    {
        match self {
            ChatSendFastMode::Bool(b) => {
                if *b {
                    "true"
                } else {
                    "false"
                }
            },
            ChatSendFastMode::Auto => "auto",
        }
    }
}

/// User-to-agent send request; the idempotency key lets clients safely retry
/// transport failures.
#[derive(Debug, Clone)]
pub struct ChatSendParamsSchema {
    pub session_key: ChatSendSessionKeyString,
    pub agent_id: Option<NonEmptyString>,
    pub session_id: Option<NonEmptyString>,
    pub message: String,
    pub thinking: Option<String>,
    pub fast_mode: Option<ChatSendFastMode>,
    pub fast_auto_on_seconds: Option<i64>,
    pub deliver: Option<bool>,
    pub originating_channel: Option<String>,
    pub originating_to: Option<String>,
    pub originating_account_id: Option<String>,
    pub originating_thread_id: Option<String>,
    pub attachments: Option<Vec<serde_json::Value>>,
    pub timeout_ms: Option<i64>,
    pub system_input_provenance: Option<InputProvenanceSchema>,
    pub system_provenance_receipt: Option<String>,
    pub suppress_command_interpretation: Option<bool>,
    pub expected_session_routing_contract: Option<NonEmptyString>,
    pub idempotency_key: NonEmptyString,
}

impl ChatSendParamsSchema {
    /// Session key (1..=512 characters), agent id, session id,
    /// `fastAutoOnSeconds >= 1`,
    /// `timeoutMs >= 0`, the provenance (prefixed `systemInputProvenance: `),
    /// the routing contract, then the idempotency key.
    pub open spec fn check(&self) -> Outcome {
        also(non_empty("sessionKey"@, self.session_key@),
        also(reject(
            self.session_key@.len() > CHAT_SEND_SESSION_KEY_MAX_LENGTH,
            bound_msg("sessionKey"@, ": expected length <= "@, CHAT_SEND_SESSION_KEY_MAX_LENGTH as int, ", got "@, self.session_key@.len() as int),
        ),
        also(opt_non_empty_unnamed(self.agent_id),
        also(opt_non_empty_unnamed(self.session_id),
        also(opt_positive_integer("fastAutoOnSeconds"@, self.fast_auto_on_seconds),
        also(opt_non_negative_integer("timeoutMs"@, self.timeout_ms),
        also(match self.system_input_provenance {
            Some(p) => within("systemInputProvenance: "@, p.check()),
            None => Ok(()),
        },
        also(opt_non_empty_unnamed(self.expected_session_routing_contract),
        non_empty("idempotencyKey"@, self.idempotency_key@)))))))))
    }

    pub fn validate(&self) -> (r: Result<(), String>)
        ensures
            outcome(r) == self.check(),
    {
        let r = require_non_empty("sessionKey", self.session_key.as_str());
        if r.is_err() {
            return r;
        }
        if !is_valid_chat_send_session_key(self.session_key.as_str()) {
            return Err(count_bound_msg_text(
                "sessionKey",
                ": expected length <= ",
                CHAT_SEND_SESSION_KEY_MAX_LENGTH,
                ", got ",
                self.session_key.unicode_len(),
            ));
        }
        let r = validate_optional_non_empty_string(&self.agent_id);
        if r.is_err() {
            return r;
        }
        let r = validate_optional_non_empty_string(&self.session_id);
        if r.is_err() {
            return r;
        }
        let r = require_opt_positive_integer("fastAutoOnSeconds", self.fast_auto_on_seconds);
        if r.is_err() {
            return r;
        }
        let r = require_opt_non_negative_integer("timeoutMs", self.timeout_ms);
        if r.is_err() {
            return r;
        }
        if let Some(p) = &self.system_input_provenance {
            let r = prefixed("systemInputProvenance: ", p.validate());
            if r.is_err() {
                return r;
            }
        }
        let r = validate_optional_non_empty_string(&self.expected_session_routing_contract);
        if r.is_err() {
            return r;
        }
        require_non_empty("idempotencyKey", self.idempotency_key.as_str())
    }
}

/// Cancels the active or named run for a chat session.
#[derive(Debug, Clone, Default)]
pub struct ChatAbortParamsSchema {
    pub session_key: NonEmptyString,
    pub agent_id: Option<NonEmptyString>,
    pub run_id: Option<NonEmptyString>,
    pub preserve_side_runs: Option<bool>,
}

impl ChatAbortParamsSchema {
    /// Session key, agent id, run id.
    pub open spec fn check(&self) -> Outcome {
        also(non_empty("sessionKey"@, self.session_key@),
        also(opt_non_empty_unnamed(self.agent_id),
        opt_non_empty_unnamed(self.run_id)))
    }

    pub fn validate(&self) -> (r: Result<(), String>)
        ensures
            outcome(r) == self.check(),
    {
        let r = require_non_empty("sessionKey", self.session_key.as_str());
        if r.is_err() {
            return r;
        }
        let r = validate_optional_non_empty_string(&self.agent_id);
        if r.is_err() {
            return r;
        }
        validate_optional_non_empty_string(&self.run_id)
    }
}

/// An optional label of at most 100 characters:
/// `label: expected max length 100, got n`.
pub open spec fn inject_label(label: Option<String>) -> Outcome {
    match label {
        Some(l) => reject(l@.len() > 100, "label: expected max length 100, got "@ + decimal(l@.len() as int)),
        None => Ok(()),
    }
}

/// Inserts an operator-visible synthetic message into an existing chat
/// transcript.
#[derive(Debug, Clone, Default)]
pub struct ChatInjectParamsSchema {
    pub session_key: NonEmptyString,
    pub agent_id: Option<NonEmptyString>,
    pub message: NonEmptyString,
    pub label: Option<String>,
}

impl ChatInjectParamsSchema {
    /// Session key, agent id, message, then the label length.
    pub open spec fn check(&self) -> Outcome {
        also(non_empty("sessionKey"@, self.session_key@),
        also(opt_non_empty_unnamed(self.agent_id),
        also(non_empty("message"@, self.message@),
        inject_label(self.label))))
    }

    pub fn validate(&self) -> (r: Result<(), String>)
        ensures
            outcome(r) == self.check(),
    {
        let r = require_non_empty("sessionKey", self.session_key.as_str());
        if r.is_err() {
            return r;
        }
        let r = validate_optional_non_empty_string(&self.agent_id);
        if r.is_err() {
            return r;
        }
        let r = require_non_empty("message", self.message.as_str());
        if r.is_err() {
            return r;
        }
        if let Some(l) = &self.label {
            let len = l.unicode_len();
            if len > 100 {
                let digits = usize_text(len);
                let mut m = String::from_str("label: expected max length 100, got ");
                m.append(digits.as_str());
                return Err(m);
            }
        }
        Ok(())
    }
}

// ---------------------------------------------------------------------------
// Chat stream events
// ---------------------------------------------------------------------------

/// Fields shared by every chat event: they keep stream order and route the
/// event to its session.
#[derive(Debug, Clone, Default)]
pub struct ChatEventBaseSchema {
    pub run_id: NonEmptyString,
    pub session_key: NonEmptyString,
    pub agent_id: Option<NonEmptyString>,
    pub spawned_by: Option<NonEmptyString>,
    pub seq: i64,
}

impl ChatEventBaseSchema {
    /// Run id, session key, agent id, spawner, then `seq >= 0`.
    pub open spec fn check(&self) -> Outcome {
        also(non_empty("runId"@, self.run_id@),
        also(non_empty("sessionKey"@, self.session_key@),
        also(opt_non_empty_unnamed(self.agent_id),
        also(opt_non_empty_unnamed(self.spawned_by),
        non_negative_integer("seq"@, self.seq as int)))))
    }

    pub fn validate(&self) -> (r: Result<(), String>)
        ensures
            outcome(r) == self.check(),
    {
        let r = require_non_empty("runId", self.run_id.as_str());
        if r.is_err() {
            return r;
        }
        let r = require_non_empty("sessionKey", self.session_key.as_str());
        if r.is_err() {
            return r;
        }
        let r = validate_optional_non_empty_string(&self.agent_id);
        if r.is_err() {
            return r;
        }
        let r = validate_optional_non_empty_string(&self.spawned_by);
        if r.is_err() {
            return r;
        }
        require_non_negative_integer("seq", self.seq)
    }
}

/// Incremental assistant output; `replace` marks full-content refresh deltas.
#[derive(Debug, Clone)]
pub struct ChatDeltaEventSchema {
    pub base: ChatEventBaseSchema,
    pub state: ChatDeltaEventState,
    pub message: Option<serde_json::Value>,
    pub delta_text: String,
    pub replace: Option<bool>,
    pub usage: Option<serde_json::Value>,
}

impl ChatDeltaEventSchema {
    /// The shared event fields.
    pub open spec fn check(&self) -> Outcome {
        self.base.check()
    }

    pub fn validate(&self) -> (r: Result<(), String>)
        ensures
            outcome(r) == self.check(),
    {
        self.base.validate()
    }
}

/// Successful terminal event of a completed chat run.
#[derive(Debug, Clone)]
pub struct ChatFinalEventSchema {
    pub base: ChatEventBaseSchema,
    pub state: ChatFinalEventState,
    pub message: Option<serde_json::Value>,
    pub usage: Option<serde_json::Value>,
    pub stop_reason: Option<String>,
}

impl ChatFinalEventSchema {
    /// The shared event fields.
    pub open spec fn check(&self) -> Outcome {
        self.base.check()
    }

    pub fn validate(&self) -> (r: Result<(), String>)
        ensures
            outcome(r) == self.check(),
    {
        self.base.validate()
    }
}

/// Terminal event of a user- or coordinator-initiated cancellation.
#[derive(Debug, Clone)]
pub struct ChatAbortedEventSchema {
    pub base: ChatEventBaseSchema,
    pub state: ChatAbortedEventState,
    pub message: Option<serde_json::Value>,
    pub error_message: Option<String>,
    pub stop_reason: Option<String>,
}

impl ChatAbortedEventSchema {
    /// The shared event fields.
    pub open spec fn check(&self) -> Outcome {
        self.base.check()
    }

    pub fn validate(&self) -> (r: Result<(), String>)
        ensures
            outcome(r) == self.check(),
    {
        self.base.validate()
    }
}

/// Terminal event of a failed chat run, with an optional normalized kind.
#[derive(Debug, Clone)]
pub struct ChatErrorEventSchema {
    pub base: ChatEventBaseSchema,
    pub state: ChatErrorEventState,
    pub message: Option<serde_json::Value>,
    pub error_message: Option<String>,
    pub error_kind: Option<ChatEventErrorKindSchema>,
    pub usage: Option<serde_json::Value>,
    pub stop_reason: Option<String>,
}

impl ChatErrorEventSchema {
    /// The shared event fields.
    pub open spec fn check(&self) -> Outcome {
        self.base.check()
    }

    pub fn validate(&self) -> (r: Result<(), String>)
        ensures
            outcome(r) == self.check(),
    {
        self.base.validate()
    }
}

/// The chat stream event union; each variant carries its own `state` marker.
#[derive(Debug, Clone)]
pub enum ChatEventSchema {
    Delta(ChatDeltaEventSchema),
    Final(ChatFinalEventSchema),
    Aborted(ChatAbortedEventSchema),
    Error(ChatErrorEventSchema),
}

impl ChatEventSchema {
    /// The checks of the variant held.
    pub open spec fn check(&self) -> Outcome {
        match self {
            ChatEventSchema::Delta(e) => e.check(),
            ChatEventSchema::Final(e) => e.check(),
            ChatEventSchema::Aborted(e) => e.check(),
            ChatEventSchema::Error(e) => e.check(),
        }
    }

    pub fn validate(&self) -> (r: Result<(), String>)
        ensures
            outcome(r) == self.check(),
    {
        match self {
            ChatEventSchema::Delta(e) => e.validate(),
            ChatEventSchema::Final(e) => e.validate(),
            ChatEventSchema::Aborted(e) => e.validate(),
            ChatEventSchema::Error(e) => e.validate(),
        }
    }
}

/// Wire-type names of the schemas above.
pub type ChatMetadataParams = ChatMetadataParamsSchema;
pub type ChatToolTitlesParams = ChatToolTitlesParamsSchema;
pub type LogsTailParams = LogsTailParamsSchema;
pub type LogsTailResult = LogsTailResultSchema;
pub type ChatAbortParams = ChatAbortParamsSchema;
pub type ChatInjectParams = ChatInjectParamsSchema;

// ---------------------------------------------------------------------------
// What each schema accepts
// ---------------------------------------------------------------------------

/// A `LogsTailResultSchema` passes validation exactly when every condition below holds;
/// a value that breaks one is rejected.
pub proof fn logs_tail_result_schema_accepts(x: LogsTailResultSchema)
    ensures
        x.check() is Ok <==> {
            &&& x.file@.len() > 0
            &&& x.cursor as int >= 0
            &&& x.size as int >= 0
        },
{
}

/// A `ChatMetadataParamsSchema` passes validation exactly when every condition below holds;
/// a value that breaks one is rejected.
pub proof fn chat_metadata_params_schema_accepts(x: ChatMetadataParamsSchema)
    ensures
        x.check() is Ok <==> {
            &&& (x.agent_id matches Some(s) ==> s@.len() > 0)
        },
{
}

/// A `ChatSendParamsSchema` passes validation exactly when every condition below holds;
/// a value that breaks one is rejected.
pub proof fn chat_send_params_schema_accepts(x: ChatSendParamsSchema)
    ensures
        x.check() is Ok <==> {
            &&& x.session_key@.len() > 0
            &&& !(x.session_key@.len() > CHAT_SEND_SESSION_KEY_MAX_LENGTH)
            &&& (x.agent_id matches Some(s) ==> s@.len() > 0)
            &&& (x.session_id matches Some(s) ==> s@.len() > 0)
            &&& (x.fast_auto_on_seconds matches Some(n) ==> n >= 1)
            &&& (x.timeout_ms matches Some(n) ==> n >= 0)
            &&& (x.system_input_provenance matches Some(p) ==> p.check() is Ok)
            &&& (x.expected_session_routing_contract matches Some(s) ==> s@.len() > 0)
            &&& x.idempotency_key@.len() > 0
        },
{
}

/// A `ChatAbortParamsSchema` passes validation exactly when every condition below holds;
/// a value that breaks one is rejected.
pub proof fn chat_abort_params_schema_accepts(x: ChatAbortParamsSchema)
    ensures
        x.check() is Ok <==> {
            &&& x.session_key@.len() > 0
            &&& (x.agent_id matches Some(s) ==> s@.len() > 0)
            &&& (x.run_id matches Some(s) ==> s@.len() > 0)
        },
{
}

/// A `ChatEventBaseSchema` passes validation exactly when every condition below holds;
/// a value that breaks one is rejected.
pub proof fn chat_event_base_schema_accepts(x: ChatEventBaseSchema)
    ensures
        x.check() is Ok <==> {
            &&& x.run_id@.len() > 0
            &&& x.session_key@.len() > 0
            &&& (x.agent_id matches Some(s) ==> s@.len() > 0)
            &&& (x.spawned_by matches Some(s) ==> s@.len() > 0)
            &&& x.seq as int >= 0
        },
{
}

/// A `ChatDeltaEventSchema` passes validation exactly when every condition below holds;
/// a value that breaks one is rejected.
pub proof fn chat_delta_event_schema_accepts(x: ChatDeltaEventSchema)
    ensures
        x.check() is Ok <==> {
            &&& x.base.check() is Ok
        },
{
}

/// A `ChatFinalEventSchema` passes validation exactly when every condition below holds;
/// a value that breaks one is rejected.
pub proof fn chat_final_event_schema_accepts(x: ChatFinalEventSchema)
    ensures
        x.check() is Ok <==> {
            &&& x.base.check() is Ok
        },
{
}

/// A `ChatAbortedEventSchema` passes validation exactly when every condition below holds;
/// a value that breaks one is rejected.
pub proof fn chat_aborted_event_schema_accepts(x: ChatAbortedEventSchema)
    ensures
        x.check() is Ok <==> {
            &&& x.base.check() is Ok
        },
{
}

/// A `ChatErrorEventSchema` passes validation exactly when every condition below holds;
/// a value that breaks one is rejected.
pub proof fn chat_error_event_schema_accepts(x: ChatErrorEventSchema)
    ensures
        x.check() is Ok <==> {
            &&& x.base.check() is Ok
        },
{
}

/// A `LogsTailParamsSchema` passes validation exactly when every condition below holds;
/// a value that breaks one is rejected.
pub proof fn logs_tail_params_schema_accepts(x: LogsTailParamsSchema)
    ensures
        x.check() is Ok <==> {
            &&& (x.cursor matches Some(n) ==> n >= 0)
            &&& (x.limit matches Some(n) ==> 1 <= n <= 5000)
            &&& (x.max_bytes matches Some(n) ==> 1 <= n <= 1_000_000)
        },
{
}

/// A `ChatHistoryParamsSchema` passes validation exactly when every condition below holds;
/// a value that breaks one is rejected.
pub proof fn chat_history_params_schema_accepts(x: ChatHistoryParamsSchema)
    ensures
        x.check() is Ok <==> {
            &&& x.session_key@.len() > 0
            &&& (x.agent_id matches Some(s) ==> s@.len() > 0)
            &&& (x.limit matches Some(n) ==> 1 <= n <= 1000)
            &&& (x.offset matches Some(n) ==> n >= 0)
            &&& (x.max_chars matches Some(n) ==> 1 <= n <= 500_000)
        },
{
}

/// A `ChatMessageGetParamsSchema` passes validation exactly when every condition below holds;
/// a value that breaks one is rejected.
pub proof fn chat_message_get_params_schema_accepts(x: ChatMessageGetParamsSchema)
    ensures
        x.check() is Ok <==> {
            &&& x.session_key@.len() > 0
            &&& (x.agent_id matches Some(s) ==> s@.len() > 0)
            &&& x.message_id@.len() > 0
            &&& (x.max_chars matches Some(n) ==> 1 <= n <= 2_000_000)
        },
{
}

/// Every item of a list has an id of 1..=64, a name of 1..=200 and an input of
/// 1..=4000 characters exactly when the item check passes.
pub proof fn each_tool_title_item_all_pass(items: Seq<ChatToolTitlesParamsItem>, i: int)
    requires
        0 <= i <= items.len(),
    ensures
        each_tool_title_item(items, i) is Ok <==> forall|k: int| i <= k < items.len() ==> {
            let item = #[trigger] items[k];
            &&& 1 <= item.id@.len() <= 64
            &&& 1 <= item.name@.len() <= 200
            &&& 1 <= item.input@.len() <= 4000
        },
    decreases items.len() - i,
{
    if i < items.len() {
        each_tool_title_item_all_pass(items, i + 1);
    }
}

/// A chat.toolTitles request passes validation exactly when its session key
/// is non-empty, a set agent id is non-empty, and it holds 1..=24 items, each
/// with an id of 1..=64, a name of 1..=200 and an input of 1..=4000
/// characters.
pub proof fn chat_tool_titles_params_schema_accepts(x: ChatToolTitlesParamsSchema)
    ensures
        x.check() is Ok <==> {
            &&& x.session_key@.len() > 0
            &&& (x.agent_id matches Some(s) ==> s@.len() > 0)
            &&& 1 <= x.items@.len() <= 24
            &&& forall|k: int| 0 <= k < x.items@.len() ==> {
                let item = #[trigger] x.items@[k];
                &&& 1 <= item.id@.len() <= 64
                &&& 1 <= item.name@.len() <= 200
                &&& 1 <= item.input@.len() <= 4000
            }
        },
{
    each_tool_title_item_all_pass(x.items@, 0);
}

/// A chat.inject request passes validation exactly when its session key and
/// message are non-empty, a set agent id is non-empty and a set label has at
/// most 100 characters.
pub proof fn chat_inject_params_schema_accepts(x: ChatInjectParamsSchema)
    ensures
        x.check() is Ok <==> {
            &&& x.session_key@.len() > 0
            &&& (x.agent_id matches Some(s) ==> s@.len() > 0)
            &&& x.message@.len() > 0
            &&& (x.label matches Some(l) ==> l@.len() <= 100)
        },
{
}

/// A chat event passes validation exactly when the delta, final, aborted or
/// error event it holds passes its own validation.
pub proof fn chat_event_schema_accepts(x: ChatEventSchema)
    ensures
        x.check() is Ok <==> match x {
            ChatEventSchema::Delta(e) => e.check() is Ok,
            ChatEventSchema::Final(e) => e.check() is Ok,
            ChatEventSchema::Aborted(e) => e.check() is Ok,
            ChatEventSchema::Error(e) => e.check() is Ok,
        },
{
}

} // verus!
