//! Push notification schemas: APNs test pushes and Web Push subscriptions.
use vstd::prelude::*;
use crate::checks::{also, count_in, non_empty, outcome, reject, require_count_in, require_non_empty, within, Outcome};
use crate::primitives::NonEmptyString;
use crate::text::{debug_text, starts_with, str_debug, str_eq, str_starts_with};

pub mod apns_environments;
pub mod push_transports;

verus! {

pub const WEB_PUSH_KEY_MAX_LENGTH: usize = 512;
pub const WEB_PUSH_KEY_MIN_LENGTH: usize = 1;
pub const WEB_PUSH_ENDPOINT_MAX_LENGTH: usize = 2048;
pub const WEB_PUSH_ENDPOINT_MIN_LENGTH: usize = 1;
pub const WEB_PUSH_ENDPOINT_PATTERN: &'static str = "^https://";

/// A Web Push key of 1..=512 characters.
pub open spec fn web_push_key(field: Seq<char>, value: Seq<char>) -> Outcome {
    count_in(
        field,
        ": expected length ["@,
        value.len() as int,
        WEB_PUSH_KEY_MIN_LENGTH as int,
        WEB_PUSH_KEY_MAX_LENGTH as int,
        "], got "@,
    )
}

fn validate_web_push_key(field: &str, value: &str) -> (r: Result<(), String>)
    ensures
        outcome(r) == web_push_key(field@, value@),
{
    require_count_in(field, ": expected length [", value.unicode_len(), WEB_PUSH_KEY_MIN_LENGTH, WEB_PUSH_KEY_MAX_LENGTH, "], got ")
}

/// A Web Push endpoint: 1..=2048 characters starting with `https://`.
pub open spec fn web_push_endpoint(field: Seq<char>, value: Seq<char>) -> Outcome {
    also(
        count_in(
            field,
            ": expected length ["@,
            value.len() as int,
            WEB_PUSH_ENDPOINT_MIN_LENGTH as int,
            WEB_PUSH_ENDPOINT_MAX_LENGTH as int,
            "], got "@,
        ),
        reject(
            !starts_with(value, "https://"@),
            field + ": expected string matching "@ + str_debug("^https://"@) + ", got "@ + str_debug(value),
        ),
    )
}

fn validate_web_push_endpoint(field: &str, value: &str) -> (r: Result<(), String>)
    ensures
        outcome(r) == web_push_endpoint(field@, value@),
{
    let r = require_count_in(
        field,
        ": expected length [",
        value.unicode_len(),
        WEB_PUSH_ENDPOINT_MIN_LENGTH,
        WEB_PUSH_ENDPOINT_MAX_LENGTH,
        "], got ",
    );
    if r.is_err() {
        return r;
    }
    if !str_starts_with(value, "https://") {
        let pattern = debug_text(WEB_PUSH_ENDPOINT_PATTERN);
        let shown = debug_text(value);
        let mut m = String::from_str(field);
        m.append(": expected string matching ");
        m.append(pattern.as_str());
        m.append(", got ");
        m.append(shown.as_str());
        return Err(m);
    }
    Ok(())
}

/// Returns true when `env` is an APNs environment name.
pub fn is_valid_apns_environment(env: &str) -> (r: bool)
    ensures
        r == apns_environments::is_member(env@),
{
    apns_environments::from_str(env).is_some()
}

/// Returns true when `t` is a push transport name.
pub fn is_valid_push_transport(t: &str) -> (r: bool)
    ensures
        r == push_transports::is_member(t@),
{
    push_transports::from_str(t).is_some()
}

/// APNs environment of a push.
#[derive(Debug, Clone, Copy, PartialEq, Eq, Hash, Structural)]
pub enum ApnsEnvironmentSchema {
    Sandbox,
    Production,
}

impl ApnsEnvironmentSchema {
    /// The wire text of each variant.
    pub open spec fn spec_as_str(&self) -> Seq<char> {
        match self {
            ApnsEnvironmentSchema::Sandbox => "sandbox"@,
            ApnsEnvironmentSchema::Production => "production"@,
        }
    }

    /// The wire text of this value.
    pub fn as_str(&self) -> (r: &'static str)
        ensures
            r@ == self.spec_as_str(),
    {
        match self {
            ApnsEnvironmentSchema::Sandbox => "sandbox",
            ApnsEnvironmentSchema::Production => "production",
        }
    }

    /// The value whose wire text is `s`, if any.
    pub open spec fn spec_from_str(s: Seq<char>) -> Option<ApnsEnvironmentSchema> {
        if s == "sandbox"@ {
            Some(ApnsEnvironmentSchema::Sandbox)
        } else if s == "production"@ {
            Some(ApnsEnvironmentSchema::Production)
        } else {
            None
        }
    }
}

/// The wire texts of `ApnsEnvironmentSchema` are distinct: parsing the text of a value
/// gives that value back, and a text that parses is the text of what it
/// parses to.
pub proof fn apns_environment_schema_text_round_trip(v: ApnsEnvironmentSchema, s: Seq<char>)
    ensures
        ApnsEnvironmentSchema::spec_from_str(v.spec_as_str()) == Some(v),
        ApnsEnvironmentSchema::spec_from_str(s) matches Some(w) ==> w.spec_as_str() == s,
{
    reveal_strlit("sandbox");
    reveal_strlit("production");
    assert("sandbox"@.len() == 7);
    assert("production"@.len() == 10);
}

/// How a push reached APNs: directly or through the relay.
#[derive(Debug, Clone, Copy, PartialEq, Eq, Hash, Structural)]
pub enum PushTransport {
    Direct,
    Relay,
}

impl PushTransport {
    /// The wire text of each variant.
    pub open spec fn spec_as_str(&self) -> Seq<char> {
        match self {
            PushTransport::Direct => "direct"@,
            PushTransport::Relay => "relay"@,
        }
    }

    /// The wire text of this value.
    pub fn as_str(&self) -> (r: &'static str)
        ensures
            r@ == self.spec_as_str(),
    {
        match self {
            PushTransport::Direct => "direct",
            PushTransport::Relay => "relay",
        }
    }

    /// The value whose wire text is `s`, if any.
    pub open spec fn spec_from_str(s: Seq<char>) -> Option<PushTransport> {
        if s == "direct"@ {
            Some(PushTransport::Direct)
        } else if s == "relay"@ {
            Some(PushTransport::Relay)
        } else {
            None
        }
    }
}

/// The wire texts of `PushTransport` are distinct: parsing the text of a value
/// gives that value back, and a text that parses is the text of what it
/// parses to.
pub proof fn push_transport_text_round_trip(v: PushTransport, s: Seq<char>)
    ensures
        PushTransport::spec_from_str(v.spec_as_str()) == Some(v),
        PushTransport::spec_from_str(s) matches Some(w) ==> w.spec_as_str() == s,
{
    reveal_strlit("direct");
    reveal_strlit("relay");
    assert("direct"@.len() == 6);
    assert("relay"@.len() == 5);
}
/// Parameters of `push.test`.
#[derive(Debug, Clone, Default)]
pub struct PushTestParams {
    pub node_id: NonEmptyString,
    pub title: Option<String>,
    pub body: Option<String>,
    pub environment: Option<ApnsEnvironmentSchema>,
}

impl PushTestParams {
    /// `nodeId` non-empty.
    pub open spec fn check(&self) -> Outcome {
        non_empty("nodeId"@, self.node_id@)
    }

    pub fn validate(&self) -> (r: Result<(), String>)
        ensures
            outcome(r) == self.check(),
    {
        require_non_empty("nodeId", self.node_id.as_str())
    }
}

/// Result of `push.test`.
#[derive(Debug, Clone)]
pub struct PushTestResult {
    pub ok: bool,
    pub status: i64,
    pub apns_id: Option<String>,
    pub reason: Option<String>,
    pub token_suffix: String,
    pub topic: String,
    pub environment: ApnsEnvironmentSchema,
    pub transport: PushTransport,
}

/// Web Push subscription keys.
#[derive(Debug, Clone)]
pub struct WebPushKeysSchema {
    pub p256dh: String,
    pub auth: String,
}

impl WebPushKeysSchema {
    /// Both keys 1..=512 characters.
    pub open spec fn check(&self) -> Outcome {
        also(web_push_key("p256dh"@, self.p256dh@), web_push_key("auth"@, self.auth@))
    }

    pub fn validate(&self) -> (r: Result<(), String>)
        ensures
            outcome(r) == self.check(),
    {
        let r = validate_web_push_key("p256dh", self.p256dh.as_str());
        if r.is_err() {
            return r;
        }
        validate_web_push_key("auth", self.auth.as_str())
    }
}

/// Parameters of `webPush.vapidPublicKey` (empty object).
#[derive(Debug, Clone, Default)]
pub struct WebPushVapidPublicKeyParams {}

impl WebPushVapidPublicKeyParams {
    /// Nothing to check.
    pub fn validate(&self) -> (r: Result<(), String>)
        ensures
            r is Ok,
    {
        Ok(())
    }
}

/// Parameters of `webPush.subscribe`.
#[derive(Debug, Clone)]
pub struct WebPushSubscribeParams {
    pub endpoint: String,
    pub keys: WebPushKeysSchema,
}

impl WebPushSubscribeParams {
    /// A well-formed endpoint, then the keys (`keys: ...`).
    pub open spec fn check(&self) -> Outcome {
        also(web_push_endpoint("endpoint"@, self.endpoint@), within("keys: "@, self.keys.check()))
    }

    pub fn validate(&self) -> (r: Result<(), String>)
        ensures
            outcome(r) == self.check(),
    {
        let r = validate_web_push_endpoint("endpoint", self.endpoint.as_str());
        if r.is_err() {
            return r;
        }
        crate::checks::prefixed("keys: ", self.keys.validate())
    }
}

/// Parameters of `webPush.unsubscribe`.
#[derive(Debug, Clone)]
pub struct WebPushUnsubscribeParams {
    pub endpoint: String,
}

impl WebPushUnsubscribeParams {
    /// A well-formed endpoint.
    pub open spec fn check(&self) -> Outcome {
        web_push_endpoint("endpoint"@, self.endpoint@)
    }

    pub fn validate(&self) -> (r: Result<(), String>)
        ensures
            outcome(r) == self.check(),
    {
        validate_web_push_endpoint("endpoint", self.endpoint.as_str())
    }
}

/// Parameters of `webPush.test`.
#[derive(Debug, Clone, Default)]
pub struct WebPushTestParams {
    pub title: Option<String>,
    pub body: Option<String>,
}

pub type PushTestParamsType = PushTestParams;
pub type PushTestResultType = PushTestResult;
pub type WebPushVapidPublicKeyParamsType = WebPushVapidPublicKeyParams;
pub type WebPushSubscribeParamsType = WebPushSubscribeParams;
pub type WebPushUnsubscribeParamsType = WebPushUnsubscribeParams;
pub type WebPushTestParamsType = WebPushTestParams;

// ---------------------------------------------------------------------------
// What each schema accepts
// ---------------------------------------------------------------------------

/// A `PushTestParams` passes validation exactly when every condition below holds;
/// a value that breaks one is rejected.
pub proof fn push_test_params_accepts(x: PushTestParams)
    ensures
        x.check() is Ok <==> {
            &&& x.node_id@.len() > 0
        },
{
}

/// A `WebPushKeysSchema` passes validation exactly when every condition below holds;
/// a value that breaks one is rejected.
pub proof fn web_push_keys_schema_accepts(x: WebPushKeysSchema)
    ensures
        x.check() is Ok <==> {
            &&& 1 <= x.p256dh@.len() <= 512
            &&& 1 <= x.auth@.len() <= 512
        },
{
}

/// A `WebPushSubscribeParams` passes validation exactly when every condition below holds;
/// a value that breaks one is rejected.
pub proof fn web_push_subscribe_params_accepts(x: WebPushSubscribeParams)
    ensures
        x.check() is Ok <==> {
            &&& (1 <= x.endpoint@.len() <= 2048 && starts_with(x.endpoint@, "https://"@))
            &&& x.keys.check() is Ok
        },
{
}

/// A `WebPushUnsubscribeParams` passes validation exactly when every condition below holds;
/// a value that breaks one is rejected.
pub proof fn web_push_unsubscribe_params_accepts(x: WebPushUnsubscribeParams)
    ensures
        x.check() is Ok <==> {
            &&& (1 <= x.endpoint@.len() <= 2048 && starts_with(x.endpoint@, "https://"@))
        },
{
}

} // verus!
