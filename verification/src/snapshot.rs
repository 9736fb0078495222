//! Gateway state snapshot schemas: node presence, health, session defaults
//! and version counters sent to clients during hello and later events.
use vstd::prelude::*;
use crate::checks::{also, index_label_text, outcome, reject, within, Outcome};
use crate::text::{debug_text, decimal, i64_text, str_debug, str_eq};

verus! {

/// A NonEmptyString (at least one character); the message names no field.
pub open spec fn non_empty_value(s: Seq<char>) -> Outcome {
    reject(s.len() == 0, "expected non-empty string, got "@ + str_debug(s))
}

/// An optional `non_empty_value`.
pub open spec fn opt_non_empty_value(s: Option<String>) -> Outcome {
    match s {
        Some(v) => non_empty_value(v@),
        None => Ok(()),
    }
}

/// Every item of `values[i..]` non-empty, failures reported as
/// `index k: ...`.
pub open spec fn each_non_empty_value(values: Seq<String>, i: int) -> Outcome
    decreases values.len() - i,
{
    if 0 <= i < values.len() {
        also(
            within("index "@ + decimal(i) + ": "@, non_empty_value(values[i]@)),
            each_non_empty_value(values, i + 1),
        )
    } else {
        Ok(())
    }
}

/// An optional list of `non_empty_value` items.
pub open spec fn opt_each_non_empty_value(values: Option<Vec<String>>) -> Outcome {
    match values {
        Some(v) => each_non_empty_value(v@, 0),
        None => Ok(()),
    }
}

/// `n >= 0`; the message names no field.
pub open spec fn non_negative_value(n: int) -> Outcome {
    reject(n < 0, "expected integer >= 0, got "@ + decimal(n))
}

/// An optional `non_negative_value`.
pub open spec fn opt_non_negative_value(n: Option<i64>) -> Outcome {
    match n {
        Some(v) => non_negative_value(v as int),
        None => Ok(()),
    }
}

fn is_non_empty_string(s: &str) -> (r: bool)
    ensures
        r == (s@.len() > 0),
{
    !s.is_empty()
}

fn validate_non_empty_string(s: &str) -> (r: Result<(), String>)
    ensures
        outcome(r) == non_empty_value(s@),
{
    if is_non_empty_string(s) {
        Ok(())
    } else {
        let shown = debug_text(s);
        let mut m = String::from_str("expected non-empty string, got ");
        m.append(shown.as_str());
        Err(m)
    }
}

fn validate_optional_non_empty_string(value: &Option<String>) -> (r: Result<(), String>)
    ensures
        outcome(r) == opt_non_empty_value(*value),
{
    match value {
        Some(s) => validate_non_empty_string(s.as_str()),
        None => Ok(()),
    }
}

fn validate_non_empty_string_list(values: &Vec<String>) -> (r: Result<(), String>)
    ensures
        outcome(r) == each_non_empty_value(values@, 0),
{
    let n = values.len();
    let mut i: usize = 0;
    while i < n
        invariant
            n == values@.len(),
            i <= n,
            each_non_empty_value(values@, 0) == each_non_empty_value(values@, i as int),
        decreases n - i,
    {
        let r = validate_non_empty_string(values[i].as_str());
        if let Err(e) = r {
            let digits = crate::text::usize_text(i);
            let mut m = String::from_str("index ");
            m.append(digits.as_str());
            m.append(": ");
            m.append(e.as_str());
            proof {
                reveal_strlit(": ");
            }
            assert(m@ =~= "index "@ + decimal(i as int) + ": "@ + e@);
            return Err(m);
        }
        i = i + 1;
    }
    Ok(())
}

fn validate_optional_non_empty_string_list(value: &Option<Vec<String>>) -> (r: Result<(), String>)
    ensures
        outcome(r) == opt_each_non_empty_value(*value),
{
    match value {
        Some(v) => validate_non_empty_string_list(v),
        None => Ok(()),
    }
}

fn validate_non_negative_integer(n: i64) -> (r: Result<(), String>)
    ensures
        outcome(r) == non_negative_value(n as int),
{
    if n >= 0 {
        Ok(())
    } else {
        let digits = i64_text(n);
        let mut m = String::from_str("expected integer >= 0, got ");
        m.append(digits.as_str());
        Err(m)
    }
}

fn validate_optional_non_negative_integer(value: Option<i64>) -> (r: Result<(), String>)
    ensures
        outcome(r) == opt_non_negative_value(value),
{
    match value {
        Some(n) => validate_non_negative_integer(n),
        None => Ok(()),
    }
}

/// One presence entry: a connected client or node.
#[derive(Debug, Clone)]
pub struct PresenceEntry {
    pub host: Option<String>,
    pub ip: Option<String>,
    pub version: Option<String>,
    pub platform: Option<String>,
    pub device_family: Option<String>,
    pub model_identifier: Option<String>,
    pub mode: Option<String>,
    pub last_input_seconds: Option<i64>,
    pub reason: Option<String>,
    pub tags: Option<Vec<String>>,
    pub text: Option<String>,
    pub ts: i64,
    pub device_id: Option<String>,
    pub roles: Option<Vec<String>>,
    pub scopes: Option<Vec<String>>,
    pub instance_id: Option<String>,
}

impl PresenceEntry {
    /// Optional strings and list items non-empty,
    /// `lastInputSeconds` and `ts` non-negative, in the order below.
    pub open spec fn check(&self) -> Outcome {
        also(opt_non_empty_value(self.host),
        also(opt_non_empty_value(self.ip),
        also(opt_non_empty_value(self.version),
        also(opt_non_empty_value(self.platform),
        also(opt_non_empty_value(self.device_family),
        also(opt_non_empty_value(self.model_identifier),
        also(opt_non_empty_value(self.mode),
        also(opt_non_negative_value(self.last_input_seconds),
        also(opt_non_empty_value(self.reason),
        also(opt_each_non_empty_value(self.tags),
        also(opt_each_non_empty_value(self.roles),
        also(opt_each_non_empty_value(self.scopes),
        also(opt_non_empty_value(self.device_id),
        also(opt_non_empty_value(self.instance_id),
        non_negative_value(self.ts as int)))))))))))))))
    }

    pub fn validate(&self) -> (r: Result<(), String>)
        ensures
            outcome(r) == self.check(),
    {
        let r = validate_optional_non_empty_string(&self.host);
        if r.is_err() {
            return r;
        }
        let r = validate_optional_non_empty_string(&self.ip);
        if r.is_err() {
            return r;
        }
        let r = validate_optional_non_empty_string(&self.version);
        if r.is_err() {
            return r;
        }
        let r = validate_optional_non_empty_string(&self.platform);
        if r.is_err() {
            return r;
        }
        let r = validate_optional_non_empty_string(&self.device_family);
        if r.is_err() {
            return r;
        }
        let r = validate_optional_non_empty_string(&self.model_identifier);
        if r.is_err() {
            return r;
        }
        let r = validate_optional_non_empty_string(&self.mode);
        if r.is_err() {
            return r;
        }
        let r = validate_optional_non_negative_integer(self.last_input_seconds);
        if r.is_err() {
            return r;
        }
        let r = validate_optional_non_empty_string(&self.reason);
        if r.is_err() {
            return r;
        }
        let r = validate_optional_non_empty_string_list(&self.tags);
        if r.is_err() {
            return r;
        }
        let r = validate_optional_non_empty_string_list(&self.roles);
        if r.is_err() {
            return r;
        }
        let r = validate_optional_non_empty_string_list(&self.scopes);
        if r.is_err() {
            return r;
        }
        let r = validate_optional_non_empty_string(&self.device_id);
        if r.is_err() {
            return r;
        }
        let r = validate_optional_non_empty_string(&self.instance_id);
        if r.is_err() {
            return r;
        }
        validate_non_negative_integer(self.ts)
    }
}

/// Default agent and session keys of the gateway.
#[derive(Debug, Clone)]
pub struct SessionDefaults {
    pub default_agent_id: String,
    pub main_key: String,
    pub main_session_key: String,
    pub scope: Option<String>,
}

impl SessionDefaults {
    /// Every key non-empty; `scope` too when present.
    pub open spec fn check(&self) -> Outcome {
        also(non_empty_value(self.default_agent_id@),
        also(non_empty_value(self.main_key@),
        also(non_empty_value(self.main_session_key@),
        opt_non_empty_value(self.scope))))
    }

    pub fn validate(&self) -> (r: Result<(), String>)
        ensures
            outcome(r) == self.check(),
    {
        let r = validate_non_empty_string(self.default_agent_id.as_str());
        if r.is_err() {
            return r;
        }
        let r = validate_non_empty_string(self.main_key.as_str());
        if r.is_err() {
            return r;
        }
        let r = validate_non_empty_string(self.main_session_key.as_str());
        if r.is_err() {
            return r;
        }
        validate_optional_non_empty_string(&self.scope)
    }
}

/// Version counters of the presence and health state.
#[derive(Debug, Clone)]
pub struct StateVersion {
    pub presence: i64,
    pub health: i64,
}

impl StateVersion {
    /// Both counters non-negative.
    pub open spec fn check(&self) -> Outcome {
        also(non_negative_value(self.presence as int), non_negative_value(self.health as int))
    }

    pub fn validate(&self) -> (r: Result<(), String>)
        ensures
            outcome(r) == self.check(),
    {
        let r = validate_non_negative_integer(self.presence);
        if r.is_err() {
            return r;
        }
        validate_non_negative_integer(self.health)
    }
}

/// Gateway authentication mode.
#[derive(Debug, Clone, Copy, PartialEq, Eq, Hash, Structural)]
pub enum AuthMode {
    NoAuth,
    Token,
    Password,
    TrustedProxy,
}

impl AuthMode {
    /// The wire text of each variant.
    pub open spec fn spec_as_str(&self) -> Seq<char> {
        match self {
            AuthMode::NoAuth => "none"@,
            AuthMode::Token => "token"@,
            AuthMode::Password => "password"@,
            AuthMode::TrustedProxy => "trusted-proxy"@,
        }
    }

    /// The wire text of this value.
    pub fn as_str(&self) -> (r: &'static str)
        ensures
            r@ == self.spec_as_str(),
    {
        match self {
            AuthMode::NoAuth => "none",
            AuthMode::Token => "token",
            AuthMode::Password => "password",
            AuthMode::TrustedProxy => "trusted-proxy",
        }
    }

    /// The value whose wire text is `s`, if any.
    pub open spec fn spec_from_str(s: Seq<char>) -> Option<AuthMode> {
        if s == "none"@ {
            Some(AuthMode::NoAuth)
        } else if s == "token"@ {
            Some(AuthMode::Token)
        } else if s == "password"@ {
            Some(AuthMode::Password)
        } else if s == "trusted-proxy"@ {
            Some(AuthMode::TrustedProxy)
        } else {
            None
        }
    }

    /// Parses a wire text; `None` for unknown values.
    pub fn from_str(s: &str) -> (r: Option<AuthMode>)
        ensures
            r == AuthMode::spec_from_str(s@),
    {
        if str_eq(s, "none") {
            Some(AuthMode::NoAuth)
        } else if str_eq(s, "token") {
            Some(AuthMode::Token)
        } else if str_eq(s, "password") {
            Some(AuthMode::Password)
        } else if str_eq(s, "trusted-proxy") {
            Some(AuthMode::TrustedProxy)
        } else {
            None
        }
    }

    /// Every value, in declaration order.
    pub open spec fn spec_all() -> Seq<AuthMode> {
        seq![AuthMode::NoAuth, AuthMode::Token, AuthMode::Password, AuthMode::TrustedProxy]
    }

    /// Every value, in declaration order.
    pub fn all() -> (r: &'static [AuthMode])
        ensures
            r@ == AuthMode::spec_all(),
    {
        &[AuthMode::NoAuth, AuthMode::Token, AuthMode::Password, AuthMode::TrustedProxy]
    }
}
/// `AuthMode::all` lists every value, each once.
pub proof fn auth_mode_all_lists_every_value(v: AuthMode)
    ensures
        AuthMode::spec_all().contains(v),
        AuthMode::spec_all().no_duplicates(),
{
    let all = AuthMode::spec_all();
    match v {
        AuthMode::NoAuth => assert(all[0] == v),
        AuthMode::Token => assert(all[1] == v),
        AuthMode::Password => assert(all[2] == v),
        AuthMode::TrustedProxy => assert(all[3] == v),
    }
}


/// The wire texts of `AuthMode` are distinct: parsing the text of a value
/// gives that value back, and a text that parses is the text of what it
/// parses to.
pub proof fn auth_mode_text_round_trip(v: AuthMode, s: Seq<char>)
    ensures
        AuthMode::spec_from_str(v.spec_as_str()) == Some(v),
        AuthMode::spec_from_str(s) matches Some(w) ==> w.spec_as_str() == s,
{
    reveal_strlit("none");
    reveal_strlit("token");
    reveal_strlit("password");
    reveal_strlit("trusted-proxy");
    assert("none"@.len() == 4);
    assert("token"@.len() == 5);
    assert("password"@.len() == 8);
    assert("trusted-proxy"@.len() == 13);
}

/// Available update notice.
#[derive(Debug, Clone)]
pub struct UpdateAvailable {
    pub current_version: String,
    pub latest_version: String,
    pub channel: String,
}

impl UpdateAvailable {
    /// Every field non-empty.
    pub open spec fn check(&self) -> Outcome {
        also(non_empty_value(self.current_version@),
        also(non_empty_value(self.latest_version@),
        non_empty_value(self.channel@)))
    }

    pub fn validate(&self) -> (r: Result<(), String>)
        ensures
            outcome(r) == self.check(),
    {
        let r = validate_non_empty_string(self.current_version.as_str());
        if r.is_err() {
            return r;
        }
        let r = validate_non_empty_string(self.latest_version.as_str());
        if r.is_err() {
            return r;
        }
        validate_non_empty_string(self.channel.as_str())
    }
}

/// Health snapshot: a JSON document carried unread.
pub type HealthSnapshot = serde_json::Value;

/// Gateway state snapshot.
#[derive(Debug)]
pub struct Snapshot {
    pub presence: Vec<PresenceEntry>,
    pub health: HealthSnapshot,
    pub state_version: StateVersion,
    pub uptime_ms: i64,
    pub config_path: Option<String>,
    pub state_dir: Option<String>,
    pub session_defaults: Option<SessionDefaults>,
    pub auth_mode: Option<AuthMode>,
    pub update_available: Option<UpdateAvailable>,
}

/// Every presence entry from `i` on, failures reported as `presence[k]: ...`.
pub open spec fn each_presence(entries: Seq<PresenceEntry>, i: int) -> Outcome
    decreases entries.len() - i,
{
    if 0 <= i < entries.len() {
        also(
            within("presence["@ + decimal(i) + "]: "@, entries[i].check()),
            each_presence(entries, i + 1),
        )
    } else {
        Ok(())
    }
}

impl Snapshot {
    /// Presence entries, `uptimeMs >= 0`, paths non-empty,
    /// session defaults, update notice and state version, in that order.
    pub open spec fn check(&self) -> Outcome {
        also(each_presence(self.presence@, 0),
        also(non_negative_value(self.uptime_ms as int),
        also(opt_non_empty_value(self.config_path),
        also(opt_non_empty_value(self.state_dir),
        also(match self.session_defaults {
            Some(sd) => within("sessionDefaults: "@, sd.check()),
            None => Ok(()),
        },
        also(match self.update_available {
            Some(ua) => within("updateAvailable: "@, ua.check()),
            None => Ok(()),
        },
        within("stateVersion: "@, self.state_version.check())))))))
    }

    pub fn validate(&self) -> (r: Result<(), String>)
        ensures
            outcome(r) == self.check(),
    {
        let n = self.presence.len();
        let mut i: usize = 0;
        while i < n
            invariant
                n == self.presence@.len(),
                i <= n,
                each_presence(self.presence@, 0) == each_presence(self.presence@, i as int),
            decreases n - i,
        {
            let r = self.presence[i].validate();
            if let Err(e) = r {
                let mut m = String::from_str("presence[");
                let digits = crate::text::usize_text(i);
                m.append(digits.as_str());
                m.append("]: ");
                m.append(e.as_str());
                assert(m@ =~= "presence["@ + decimal(i as int) + "]: "@ + e@);
                return Err(m);
            }
            i = i + 1;
        }
        let r = validate_non_negative_integer(self.uptime_ms);
        if r.is_err() {
            return r;
        }
        let r = validate_optional_non_empty_string(&self.config_path);
        if r.is_err() {
            return r;
        }
        let r = validate_optional_non_empty_string(&self.state_dir);
        if r.is_err() {
            return r;
        }
        if let Some(sd) = &self.session_defaults {
            let r = crate::checks::prefixed("sessionDefaults: ", sd.validate());
            if r.is_err() {
                return r;
            }
        }
        if let Some(ua) = &self.update_available {
            let r = crate::checks::prefixed("updateAvailable: ", ua.validate());
            if r.is_err() {
                return r;
            }
        }
        crate::checks::prefixed("stateVersion: ", self.state_version.validate())
    }
}

pub type SnapshotType = Snapshot;
pub type PresenceEntryType = PresenceEntry;
pub type StateVersionType = StateVersion;

// ---------------------------------------------------------------------------
// What each schema accepts
// ---------------------------------------------------------------------------

/// A `SessionDefaults` passes validation exactly when every condition below holds;
/// a value that breaks one is rejected.
pub proof fn session_defaults_accepts(x: SessionDefaults)
    ensures
        x.check() is Ok <==> {
            &&& x.default_agent_id@.len() > 0
            &&& x.main_key@.len() > 0
            &&& x.main_session_key@.len() > 0
            &&& (x.scope matches Some(s) ==> s@.len() > 0)
        },
{
}

/// A `StateVersion` passes validation exactly when every condition below holds;
/// a value that breaks one is rejected.
pub proof fn state_version_accepts(x: StateVersion)
    ensures
        x.check() is Ok <==> {
            &&& x.presence as int >= 0
            &&& x.health as int >= 0
        },
{
}

/// A `UpdateAvailable` passes validation exactly when every condition below holds;
/// a value that breaks one is rejected.
pub proof fn update_available_accepts(x: UpdateAvailable)
    ensures
        x.check() is Ok <==> {
            &&& x.current_version@.len() > 0
            &&& x.latest_version@.len() > 0
            &&& x.channel@.len() > 0
        },
{
}

/// Every string of a list is non-empty exactly when the list check passes.
pub proof fn each_non_empty_value_all_pass(values: Seq<String>, i: int)
    requires
        0 <= i <= values.len(),
    ensures
        each_non_empty_value(values, i) is Ok
            <==> forall|k: int| i <= k < values.len() ==> (#[trigger] values[k]@).len() > 0,
    decreases values.len() - i,
{
    if i < values.len() {
        each_non_empty_value_all_pass(values, i + 1);
    }
}

/// Every presence entry of a list passes exactly when the list check passes.
pub proof fn each_presence_all_pass(entries: Seq<PresenceEntry>, i: int)
    requires
        0 <= i <= entries.len(),
    ensures
        each_presence(entries, i) is Ok
            <==> forall|k: int| i <= k < entries.len() ==> (#[trigger] entries[k]).check() is Ok,
    decreases entries.len() - i,
{
    if i < entries.len() {
        each_presence_all_pass(entries, i + 1);
    }
}

/// A presence entry passes validation exactly when every optional text and
/// list item it sets is non-empty and `lastInputSeconds` and `ts` are `>= 0`.
pub proof fn presence_entry_accepts(x: PresenceEntry)
    ensures
        x.check() is Ok <==> {
            &&& (x.host matches Some(s) ==> s@.len() > 0)
            &&& (x.ip matches Some(s) ==> s@.len() > 0)
            &&& (x.version matches Some(s) ==> s@.len() > 0)
            &&& (x.platform matches Some(s) ==> s@.len() > 0)
            &&& (x.device_family matches Some(s) ==> s@.len() > 0)
            &&& (x.model_identifier matches Some(s) ==> s@.len() > 0)
            &&& (x.mode matches Some(s) ==> s@.len() > 0)
            &&& (x.last_input_seconds matches Some(n) ==> n >= 0)
            &&& (x.reason matches Some(s) ==> s@.len() > 0)
            &&& (x.tags matches Some(v) ==> forall|k: int| 0 <= k < v@.len() ==> (#[trigger] v@[k]@).len() > 0)
            &&& (x.roles matches Some(v) ==> forall|k: int| 0 <= k < v@.len() ==> (#[trigger] v@[k]@).len() > 0)
            &&& (x.scopes matches Some(v) ==> forall|k: int| 0 <= k < v@.len() ==> (#[trigger] v@[k]@).len() > 0)
            &&& (x.device_id matches Some(s) ==> s@.len() > 0)
            &&& (x.instance_id matches Some(s) ==> s@.len() > 0)
            &&& x.ts >= 0
        },
{
    if let Some(v) = x.tags {
        each_non_empty_value_all_pass(v@, 0);
    }
    if let Some(v) = x.roles {
        each_non_empty_value_all_pass(v@, 0);
    }
    if let Some(v) = x.scopes {
        each_non_empty_value_all_pass(v@, 0);
    }
}

/// A snapshot passes validation exactly when every presence entry passes,
/// `uptimeMs >= 0`, the paths it sets are non-empty, and the session
/// defaults, update notice and state version pass their own validation.
pub proof fn snapshot_accepts(x: Snapshot)
    ensures
        x.check() is Ok <==> {
            &&& forall|k: int| 0 <= k < x.presence@.len() ==> (#[trigger] x.presence@[k]).check() is Ok
            &&& x.uptime_ms >= 0
            &&& (x.config_path matches Some(s) ==> s@.len() > 0)
            &&& (x.state_dir matches Some(s) ==> s@.len() > 0)
            &&& (x.session_defaults matches Some(sd) ==> sd.check() is Ok)
            &&& (x.update_available matches Some(ua) ==> ua.check() is Ok)
            &&& x.state_version.check() is Ok
        },
{
    each_presence_all_pass(x.presence@, 0);
}

} // verus!
