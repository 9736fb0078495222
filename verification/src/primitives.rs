//! Shared schema primitives reused by gateway protocol request/result schemas.
//!
//! Keep these schemas small and transport-oriented; feature-specific
//! validation belongs in the owning schema module.
use vstd::prelude::*;
use crate::checks::{outcome, reject, Outcome};
use crate::text::{is_alnum, is_digit, is_lower, is_upper, str_eq};

pub mod secret_ref_sources;

verus! {

// ---------------------------------------------------------------------------
// Secret-ref grammar sources (kept as the JSON-schema texts they describe)
// ---------------------------------------------------------------------------

/// Canonical id for file secret providers that expose exactly one value.
pub const SINGLE_VALUE_FILE_REF_ID: &'static str = "value";

/// Source for the shared env/file/exec secret provider alias grammar.
pub const SECRET_PROVIDER_ALIAS_PATTERN: &'static str = "^[a-z][a-z0-9_-]{0,63}$";

/// JSON-schema fragment that rejects absolute file secret ref ids.
pub const FILE_SECRET_REF_ID_ABSOLUTE_JSON_SCHEMA_PATTERN: &'static str = "^/";

/// JSON-schema fragment that rejects invalid JSON-pointer escape sequences.
pub const FILE_SECRET_REF_ID_INVALID_ESCAPE_JSON_SCHEMA_PATTERN: &'static str = "~(?:[^01]|$)";

/// JSON-schema pattern for exec secret ref ids, excluding dot-path traversal.
pub const EXEC_SECRET_REF_ID_JSON_SCHEMA_PATTERN: &'static str =
    "^(?!.*(?:^|/)\\.{1,2}(?:/|$))[A-Za-z0-9][A-Za-z0-9._:/#-]{0,255}$";

/// Maximum stable session key length accepted by chat-send protocol requests.
pub const CHAT_SEND_SESSION_KEY_MAX_LENGTH: usize = 512;

/// Maximum stable session label length.
pub const SESSION_LABEL_MAX_LENGTH: usize = 512;

/// Non-empty string primitive for protocol fields that reject blank values.
pub type NonEmptyString = String;

/// Chat-send session key string primitive with bounded length.
pub type ChatSendSessionKeyString = String;

/// Human-readable session label primitive with bounded display length.
pub type SessionLabelString = String;

/// Closed gateway client id schema.
pub type GatewayClientIdSchema = String;

/// Closed gateway client mode schema.
pub type GatewayClientModeSchema = String;

/// Supported secret reference backing stores for protocol SecretRef payloads.
pub type SecretRefSourceSchema = String;

// ---------------------------------------------------------------------------
// String primitives
// ---------------------------------------------------------------------------

/// Returns true when `s` is a non-empty protocol string (`minLength: 1`).
pub fn is_non_empty_string(s: &str) -> (r: bool)
    ensures
        r == (s@.len() > 0),
{
    !s.is_empty()
}

/// Returns true when `s` fits the chat-send session key bounds (1..=512 characters).
pub fn is_valid_chat_send_session_key(s: &str) -> (r: bool)
    ensures
        r == (1 <= s@.len() <= CHAT_SEND_SESSION_KEY_MAX_LENGTH),
{
    !s.is_empty() && s.unicode_len() <= CHAT_SEND_SESSION_KEY_MAX_LENGTH
}

/// Returns true when `s` fits the session label bounds (1..=512 characters).
pub fn is_valid_session_label(s: &str) -> (r: bool)
    ensures
        r == (1 <= s@.len() <= SESSION_LABEL_MAX_LENGTH),
{
    !s.is_empty() && s.unicode_len() <= SESSION_LABEL_MAX_LENGTH
}

// ---------------------------------------------------------------------------
// InputProvenanceSchema
// ---------------------------------------------------------------------------

/// The closed enumeration of input provenance kinds.
pub open spec fn is_input_provenance_kind(kind: Seq<char>) -> bool {
    kind == "external_user"@ || kind == "inter_session"@ || kind == "internal_system"@
}

/// Returns true when `kind` is one of the closed enum values.
pub fn is_valid_input_provenance_kind(kind: &str) -> (r: bool)
    ensures
        r == is_input_provenance_kind(kind@),
{
    str_eq(kind, "external_user") || str_eq(kind, "inter_session") || str_eq(kind, "internal_system")
}

/// Provenance marker for content copied from another user/session/system source.
#[derive(Debug, Clone, Default)]
pub struct InputProvenanceSchema {
    pub kind: String,
    pub origin_session_id: Option<String>,
    pub source_session_key: Option<String>,
    pub source_channel: Option<String>,
    pub source_tool: Option<String>,
}

impl InputProvenanceSchema {
    /// `kind` must be one of the closed enum values; every other field is a
    /// free optional string.
    pub open spec fn check(&self) -> Outcome {
        reject(
            !is_input_provenance_kind(self.kind@),
            "invalid input provenance kind: "@ + self.kind@,
        )
    }

    /// Runtime validation; returns `Err` on the first failure.
    pub fn validate(&self) -> (r: Result<(), String>)
        ensures
            outcome(r) == self.check(),
    {
        if !is_valid_input_provenance_kind(self.kind.as_str()) {
            let mut m = String::from_str("invalid input provenance kind: ");
            m.append(self.kind.as_str());
            return Err(m);
        }
        Ok(())
    }
}

// ---------------------------------------------------------------------------
// SecretRefSourceSchema
// ---------------------------------------------------------------------------

/// Returns true when `source` is a recognized SecretRef backing store.
pub fn is_valid_secret_ref_source(source: &str) -> (r: bool)
    ensures
        r == secret_ref_sources::is_member(source@),
{
    secret_ref_sources::from_str(source).is_some()
}

// ---------------------------------------------------------------------------
// Secret-ref grammars
// ---------------------------------------------------------------------------

/// A character allowed after the first one of a provider alias: `[a-z0-9_-]`.
pub open spec fn is_alias_tail_char(c: char) -> bool {
    is_lower(c) || is_digit(c) || c == '_' || c == '-'
}

/// `^[a-z][a-z0-9_-]{0,63}$`.
pub open spec fn is_secret_provider_alias(s: Seq<char>) -> bool {
    &&& 1 <= s.len() <= 64
    &&& is_lower(s[0])
    &&& forall|i: int| 1 <= i < s.len() ==> is_alias_tail_char(#[trigger] s[i])
}

/// Returns true when `alias` matches the secret provider alias grammar.
pub fn is_valid_secret_provider_alias(alias: &str) -> (r: bool)
    ensures
        r == is_secret_provider_alias(alias@),
{
    let n = alias.unicode_len();
    if n < 1 || n > 64 {
        return false;
    }
    let first = alias.get_char(0);
    if !('a' <= first && first <= 'z') {
        return false;
    }
    let mut i: usize = 1;
    while i < n
        invariant
            n == alias@.len(),
            1 <= i <= n,
            forall|j: int| 1 <= j < i ==> is_alias_tail_char(#[trigger] alias@[j]),
        decreases n - i,
    {
        let c = alias.get_char(i);
        if !(('a' <= c && c <= 'z') || ('0' <= c && c <= '9') || c == '_' || c == '-') {
            assert(!is_alias_tail_char(alias@[i as int]));
            return false;
        }
        i = i + 1;
    }
    true
}

/// A character allowed after the first one of an env secret ref id: `[A-Z0-9_]`.
pub open spec fn is_env_id_tail_char(c: char) -> bool {
    is_upper(c) || is_digit(c) || c == '_'
}

/// `^[A-Z][A-Z0-9_]{0,127}$`.
pub open spec fn is_env_secret_ref_id(s: Seq<char>) -> bool {
    &&& 1 <= s.len() <= 128
    &&& is_upper(s[0])
    &&& forall|i: int| 1 <= i < s.len() ==> is_env_id_tail_char(#[trigger] s[i])
}

/// Returns true when `id` matches the env secret ref id grammar.
pub fn is_valid_env_secret_ref_id(id: &str) -> (r: bool)
    ensures
        r == is_env_secret_ref_id(id@),
{
    let n = id.unicode_len();
    if n < 1 || n > 128 {
        return false;
    }
    let first = id.get_char(0);
    if !('A' <= first && first <= 'Z') {
        return false;
    }
    let mut i: usize = 1;
    while i < n
        invariant
            n == id@.len(),
            1 <= i <= n,
            forall|j: int| 1 <= j < i ==> is_env_id_tail_char(#[trigger] id@[j]),
        decreases n - i,
    {
        let c = id.get_char(i);
        if !(('A' <= c && c <= 'Z') || ('0' <= c && c <= '9') || c == '_') {
            assert(!is_env_id_tail_char(id@[i as int]));
            return false;
        }
        i = i + 1;
    }
    true
}

/// A `~` at `i` that does not start a JSON-pointer escape (`~0` or `~1`):
/// a match of `~(?:[^01]|$)`.
pub open spec fn is_invalid_escape_at(s: Seq<char>, i: int) -> bool {
    &&& 0 <= i < s.len()
    &&& s[i] == '~'
    &&& (i + 1 == s.len() || (s[i + 1] != '0' && s[i + 1] != '1'))
}

/// The file secret ref id schema: the single-value id `value`, or an absolute
/// JSON pointer (`^/`) with no invalid `~` escape.
pub open spec fn is_file_secret_ref_id(s: Seq<char>) -> bool {
    ||| s == "value"@
    ||| (s.len() >= 1 && s[0] == '/' && !(exists|i: int| #[trigger] is_invalid_escape_at(s, i)))
}

/// Returns true when `id` matches the file secret ref id schema.
pub fn is_valid_file_secret_ref_id(id: &str) -> (r: bool)
    ensures
        r == is_file_secret_ref_id(id@),
{
    if str_eq(id, SINGLE_VALUE_FILE_REF_ID) {
        return true;
    }
    let n = id.unicode_len();
    if n < 1 || id.get_char(0) != '/' {
        return false;
    }
    let mut i: usize = 0;
    while i < n
        invariant
            n == id@.len(),
            i <= n,
            id@ != "value"@,
            forall|j: int| 0 <= j < i ==> !is_invalid_escape_at(id@, j),
        decreases n - i,
    {
        if id.get_char(i) == '~' {
            if i + 1 == n {
                assert(is_invalid_escape_at(id@, i as int));
                return false;
            }
            let next = id.get_char(i + 1);
            if next != '0' && next != '1' {
                assert(is_invalid_escape_at(id@, i as int));
                return false;
            }
        }
        i = i + 1;
    }
    assert forall|j: int| !is_invalid_escape_at(id@, j) by {
        if 0 <= j < n {
        }
    }
    true
}

/// A character allowed after the first one of an exec secret ref id:
/// `[A-Za-z0-9._:/#-]`.
pub open spec fn is_exec_id_tail_char(c: char) -> bool {
    is_alnum(c) || c == '.' || c == '_' || c == ':' || c == '/' || c == '#' || c == '-'
}

/// A path segment made of one or two dots starts at `i`: the match of
/// `(?:^|/)\.{1,2}(?:/|$)` that the exec id grammar rules out.
pub open spec fn is_dot_segment_at(s: Seq<char>, i: int) -> bool {
    &&& 0 <= i < s.len()
    &&& (i == 0 || s[i - 1] == '/')
    &&& s[i] == '.'
    &&& {
        ||| i + 1 == s.len()
        ||| s[i + 1] == '/'
        ||| (s[i + 1] == '.' && (i + 2 == s.len() || s[i + 2] == '/'))
    }
}

/// `^(?!.*(?:^|/)\.{1,2}(?:/|$))[A-Za-z0-9][A-Za-z0-9._:/#-]{0,255}$`: an
/// alphanumeric first character, at most 255 more from the tail class, and no
/// `.` or `..` path segment.
pub open spec fn is_exec_secret_ref_id(s: Seq<char>) -> bool {
    &&& 1 <= s.len() <= 256
    &&& is_alnum(s[0])
    &&& forall|i: int| 1 <= i < s.len() ==> is_exec_id_tail_char(#[trigger] s[i])
    &&& !(exists|i: int| #[trigger] is_dot_segment_at(s, i))
}

/// Returns true when `id` matches the exec secret ref id grammar.
pub fn is_valid_exec_secret_ref_id(id: &str) -> (r: bool)
    ensures
        r == is_exec_secret_ref_id(id@),
{
    let n = id.unicode_len();
    if n < 1 || n > 256 {
        return false;
    }
    let first = id.get_char(0);
    if !(('a' <= first && first <= 'z') || ('A' <= first && first <= 'Z') || ('0' <= first
        && first <= '9')) {
        return false;
    }
    let mut i: usize = 1;
    while i < n
        invariant
            n == id@.len(),
            1 <= i <= n,
            forall|j: int| 1 <= j < i ==> is_exec_id_tail_char(#[trigger] id@[j]),
        decreases n - i,
    {
        let c = id.get_char(i);
        if !(('a' <= c && c <= 'z') || ('A' <= c && c <= 'Z') || ('0' <= c && c <= '9') || c
            == '.' || c == '_' || c == ':' || c == '/' || c == '#' || c == '-') {
            assert(!is_exec_id_tail_char(id@[i as int]));
            return false;
        }
        i = i + 1;
    }
    let mut k: usize = 0;
    while k < n
        invariant
            n == id@.len(),
            k <= n,
            forall|j: int| 0 <= j < k ==> !is_dot_segment_at(id@, j),
        decreases n - k,
    {
        let starts_segment = k == 0 || id.get_char(k - 1) == '/';
        if starts_segment && id.get_char(k) == '.' {
            if k + 1 == n || id.get_char(k + 1) == '/' {
                assert(is_dot_segment_at(id@, k as int));
                return false;
            }
            if id.get_char(k + 1) == '.' && (k + 2 == n || id.get_char(k + 2) == '/') {
                assert(is_dot_segment_at(id@, k as int));
                return false;
            }
        }
        k = k + 1;
    }
    assert forall|j: int| !is_dot_segment_at(id@, j) by {
        if 0 <= j < n {
        }
    }
    true
}

// ---------------------------------------------------------------------------
// SecretRefSchema
// ---------------------------------------------------------------------------

/// Structured secret reference accepted by config and channel protocol
/// payloads, discriminated by `source`.
#[derive(Debug, Clone)]
pub enum SecretRefSchema {
    Env { provider: String, id: String },
    File { provider: String, id: String },
    Exec { provider: String, id: String },
}

impl SecretRefSchema {
    /// The provider alias of any variant.
    pub open spec fn provider(&self) -> Seq<char> {
        match self {
            SecretRefSchema::Env { provider, .. } => provider@,
            SecretRefSchema::File { provider, .. } => provider@,
            SecretRefSchema::Exec { provider, .. } => provider@,
        }
    }

    /// The provider alias must match the alias grammar, then the id the
    /// grammar of its source.
    pub open spec fn check(&self) -> Outcome {
        if !is_secret_provider_alias(self.provider()) {
            Err("invalid secret provider alias: "@ + self.provider())
        } else {
            match self {
                SecretRefSchema::Env { id, .. } => reject(
                    !is_env_secret_ref_id(id@),
                    "invalid env secret ref id: "@ + id@,
                ),
                SecretRefSchema::File { id, .. } => reject(
                    !is_file_secret_ref_id(id@),
                    "invalid file secret ref id: "@ + id@,
                ),
                SecretRefSchema::Exec { id, .. } => reject(
                    !is_exec_secret_ref_id(id@),
                    "invalid exec secret ref id: "@ + id@,
                ),
            }
        }
    }

    /// Runtime validation mirroring the `SecretRefSchema` constraints.
    pub fn validate(&self) -> (r: Result<(), String>)
        ensures
            outcome(r) == self.check(),
    {
        let provider: &String = match self {
            SecretRefSchema::Env { provider, .. } => provider,
            SecretRefSchema::File { provider, .. } => provider,
            SecretRefSchema::Exec { provider, .. } => provider,
        };
        if !is_valid_secret_provider_alias(provider.as_str()) {
            let mut m = String::from_str("invalid secret provider alias: ");
            m.append(provider.as_str());
            return Err(m);
        }
        match self {
            SecretRefSchema::Env { id, .. } => {
                if !is_valid_env_secret_ref_id(id.as_str()) {
                    let mut m = String::from_str("invalid env secret ref id: ");
                    m.append(id.as_str());
                    return Err(m);
                }
            },
            SecretRefSchema::File { id, .. } => {
                if !is_valid_file_secret_ref_id(id.as_str()) {
                    let mut m = String::from_str("invalid file secret ref id: ");
                    m.append(id.as_str());
                    return Err(m);
                }
            },
            SecretRefSchema::Exec { id, .. } => {
                if !is_valid_exec_secret_ref_id(id.as_str()) {
                    let mut m = String::from_str("invalid exec secret ref id: ");
                    m.append(id.as_str());
                    return Err(m);
                }
            },
        }
        Ok(())
    }
}

/// Secret input value: either an inline string or a structured SecretRef.
#[derive(Debug, Clone)]
pub enum SecretInputSchema {
    Inline(String),
    Ref(SecretRefSchema),
}

// ---------------------------------------------------------------------------
// What each schema accepts
// ---------------------------------------------------------------------------

/// A `InputProvenanceSchema` passes validation exactly when every condition below holds;
/// a value that breaks one is rejected.
pub proof fn input_provenance_schema_accepts(x: InputProvenanceSchema)
    ensures
        x.check() is Ok <==> {
            &&& !(!is_input_provenance_kind(x.kind@))
        },
{
}

/// A secret reference passes validation exactly when its provider alias
/// matches the alias grammar and its id the grammar of its source (env, file
/// or exec).
pub proof fn secret_ref_schema_accepts(x: SecretRefSchema)
    ensures
        x.check() is Ok <==> {
            &&& is_secret_provider_alias(x.provider())
            &&& match x {
                SecretRefSchema::Env { id, .. } => is_env_secret_ref_id(id@),
                SecretRefSchema::File { id, .. } => is_file_secret_ref_id(id@),
                SecretRefSchema::Exec { id, .. } => is_exec_secret_ref_id(id@),
            }
        },
{
}

} // verus!
