//! Device pairing and device token protocol schemas.
use vstd::prelude::*;
use crate::checks::{
    also, count_in, each_non_empty, non_empty, non_empty_msg, non_negative_integer, opt_each_non_empty,
    opt_non_empty, outcome, reject, require_count_in, require_each_non_empty, require_non_empty,
    require_non_negative_integer, require_opt_each_non_empty, require_opt_non_empty, Outcome,
};
use crate::text::{debug_text, decimal, starts_with, str_debug, str_eq, str_starts_with, usize_text};
use vstd::utf8::encode_utf8;

verus! {

pub const DEVICE_PAIR_LABEL_MAX_LENGTH: usize = 64;
pub const DEVICE_PAIR_LABEL_MIN_LENGTH: usize = 1;

pub const SETUP_CODE_QR_DATA_URL_MAX_LENGTH: usize = 16384;
pub const SETUP_CODE_QR_DATA_URL_PATTERN: &'static str = "^data:image/png;base64,";

pub const DEVICE_PAIR_GATEWAY_URLS_MIN_ITEMS: usize = 2;
pub const DEVICE_PAIR_GATEWAY_URLS_MAX_ITEMS: usize = 8;

/// A device-pair label holds 1..=64 characters.
pub open spec fn device_pair_label(field: Seq<char>, value: Seq<char>) -> Outcome {
    count_in(
        field,
        ": expected length ["@,
        value.len() as int,
        DEVICE_PAIR_LABEL_MIN_LENGTH as int,
        DEVICE_PAIR_LABEL_MAX_LENGTH as int,
        "], got "@,
    )
}

fn validate_device_pair_label(field: &str, value: &str) -> (r: Result<(), String>)
    ensures
        outcome(r) == device_pair_label(field@, value@),
{
    require_count_in(
        field,
        ": expected length [",
        value.unicode_len(),
        DEVICE_PAIR_LABEL_MIN_LENGTH,
        DEVICE_PAIR_LABEL_MAX_LENGTH,
        "], got ",
    )
}

/// A QR data URL: at most 16384 bytes of UTF-8, starting with
/// `data:image/png;base64,`.
pub open spec fn setup_code_qr_data_url(field: Seq<char>, value: Seq<char>) -> Outcome {
    also(
        reject(
            encode_utf8(value).len() > SETUP_CODE_QR_DATA_URL_MAX_LENGTH,
            field + ": expected length <= "@ + decimal(SETUP_CODE_QR_DATA_URL_MAX_LENGTH as int)
                + ", got "@ + decimal(encode_utf8(value).len() as int),
        ),
        reject(
            !starts_with(value, "data:image/png;base64,"@),
            field + ": expected string matching "@ + str_debug("^data:image/png;base64,"@)
                + ", got "@ + str_debug(value),
        ),
    )
}

fn validate_setup_code_qr_data_url(field: &str, value: &str) -> (r: Result<(), String>)
    ensures
        outcome(r) == setup_code_qr_data_url(field@, value@),
{
    let bytes = value.as_bytes().len();
    if bytes > SETUP_CODE_QR_DATA_URL_MAX_LENGTH {
        let bound = usize_text(SETUP_CODE_QR_DATA_URL_MAX_LENGTH);
        let got = usize_text(bytes);
        let mut m = String::from_str(field);
        m.append(": expected length <= ");
        m.append(bound.as_str());
        m.append(", got ");
        m.append(got.as_str());
        return Err(m);
    }
    if !str_starts_with(value, "data:image/png;base64,") {
        let pattern = debug_text(SETUP_CODE_QR_DATA_URL_PATTERN);
        let shown = debug_text(value);
        let mut m = String::from_str(field);
        m.append(": expected string matching ");
        m.append(pattern.as_str());
        m.append(", got ");
        m.append(shown.as_str());
        return Err(m);
    }
    Ok(())
}

/// Bootstrap profile a setup code provisions.
#[derive(Debug, Clone, Copy, PartialEq, Eq, Hash, Structural)]
pub enum DevicePairSetupCodeBootstrapProfile {
    Node,
}

impl DevicePairSetupCodeBootstrapProfile {
    /// The wire text of each variant.
    pub open spec fn spec_as_str(&self) -> Seq<char> {
        match self {
            DevicePairSetupCodeBootstrapProfile::Node => "node"@,
        }
    }

    /// The wire text of this value.
    pub fn as_str(&self) -> (r: &'static str)
        ensures
            r@ == self.spec_as_str(),
    {
        match self {
            DevicePairSetupCodeBootstrapProfile::Node => "node",
        }
    }

    /// The value whose wire text is `s`, if any.
    pub open spec fn spec_from_str(s: Seq<char>) -> Option<DevicePairSetupCodeBootstrapProfile> {
        if s == "node"@ {
            Some(DevicePairSetupCodeBootstrapProfile::Node)
        } else {
            None
        }
    }

    /// Parses a wire text; `None` for unknown values.
    pub fn from_str(s: &str) -> (r: Option<DevicePairSetupCodeBootstrapProfile>)
        ensures
            r == DevicePairSetupCodeBootstrapProfile::spec_from_str(s@),
    {
        if str_eq(s, "node") {
            Some(DevicePairSetupCodeBootstrapProfile::Node)
        } else {
            None
        }
    }

    /// Every value, in declaration order.
    pub open spec fn spec_all() -> Seq<DevicePairSetupCodeBootstrapProfile> {
        seq![DevicePairSetupCodeBootstrapProfile::Node]
    }

    /// Every value, in declaration order.
    pub fn all() -> (r: &'static [DevicePairSetupCodeBootstrapProfile])
        ensures
            r@ == DevicePairSetupCodeBootstrapProfile::spec_all(),
    {
        &[DevicePairSetupCodeBootstrapProfile::Node]
    }
}
/// `DevicePairSetupCodeBootstrapProfile::all` lists every value, each once.
pub proof fn device_pair_setup_code_bootstrap_profile_all_lists_every_value(v: DevicePairSetupCodeBootstrapProfile)
    ensures
        DevicePairSetupCodeBootstrapProfile::spec_all().contains(v),
        DevicePairSetupCodeBootstrapProfile::spec_all().no_duplicates(),
{
    let all = DevicePairSetupCodeBootstrapProfile::spec_all();
    match v {
        DevicePairSetupCodeBootstrapProfile::Node => assert(all[0] == v),
    }
}


/// The wire texts of `DevicePairSetupCodeBootstrapProfile` are distinct: parsing the text of a value
/// gives that value back, and a text that parses is the text of what it
/// parses to.
pub proof fn device_pair_setup_code_bootstrap_profile_text_round_trip(v: DevicePairSetupCodeBootstrapProfile, s: Seq<char>)
    ensures
        DevicePairSetupCodeBootstrapProfile::spec_from_str(v.spec_as_str()) == Some(v),
        DevicePairSetupCodeBootstrapProfile::spec_from_str(s) matches Some(w) ==> w.spec_as_str() == s,
{
    reveal_strlit("node");
    assert("node"@.len() == 4);
}

/// Returns true when `profile` is the wire text of a `DevicePairSetupCodeBootstrapProfile`.
pub fn is_valid_device_pair_setup_code_bootstrap_profile(profile: &str) -> (r: bool)
    ensures
        r == DevicePairSetupCodeBootstrapProfile::spec_from_str(profile@) is Some,
{
    DevicePairSetupCodeBootstrapProfile::from_str(profile).is_some()
}

/// How a setup code authenticates to the gateway.
#[derive(Debug, Clone, Copy, PartialEq, Eq, Hash, Structural)]
pub enum DevicePairSetupCodeAuth {
    Token,
    Password,
}

impl DevicePairSetupCodeAuth {
    /// The wire text of each variant.
    pub open spec fn spec_as_str(&self) -> Seq<char> {
        match self {
            DevicePairSetupCodeAuth::Token => "token"@,
            DevicePairSetupCodeAuth::Password => "password"@,
        }
    }

    /// The wire text of this value.
    pub fn as_str(&self) -> (r: &'static str)
        ensures
            r@ == self.spec_as_str(),
    {
        match self {
            DevicePairSetupCodeAuth::Token => "token",
            DevicePairSetupCodeAuth::Password => "password",
        }
    }

    /// The value whose wire text is `s`, if any.
    pub open spec fn spec_from_str(s: Seq<char>) -> Option<DevicePairSetupCodeAuth> {
        if s == "token"@ {
            Some(DevicePairSetupCodeAuth::Token)
        } else if s == "password"@ {
            Some(DevicePairSetupCodeAuth::Password)
        } else {
            None
        }
    }

    /// Parses a wire text; `None` for unknown values.
    pub fn from_str(s: &str) -> (r: Option<DevicePairSetupCodeAuth>)
        ensures
            r == DevicePairSetupCodeAuth::spec_from_str(s@),
    {
        if str_eq(s, "token") {
            Some(DevicePairSetupCodeAuth::Token)
        } else if str_eq(s, "password") {
            Some(DevicePairSetupCodeAuth::Password)
        } else {
            None
        }
    }

    /// Every value, in declaration order.
    pub open spec fn spec_all() -> Seq<DevicePairSetupCodeAuth> {
        seq![DevicePairSetupCodeAuth::Token, DevicePairSetupCodeAuth::Password]
    }

    /// Every value, in declaration order.
    pub fn all() -> (r: &'static [DevicePairSetupCodeAuth])
        ensures
            r@ == DevicePairSetupCodeAuth::spec_all(),
    {
        &[DevicePairSetupCodeAuth::Token, DevicePairSetupCodeAuth::Password]
    }
}
/// `DevicePairSetupCodeAuth::all` lists every value, each once.
pub proof fn device_pair_setup_code_auth_all_lists_every_value(v: DevicePairSetupCodeAuth)
    ensures
        DevicePairSetupCodeAuth::spec_all().contains(v),
        DevicePairSetupCodeAuth::spec_all().no_duplicates(),
{
    let all = DevicePairSetupCodeAuth::spec_all();
    match v {
        DevicePairSetupCodeAuth::Token => assert(all[0] == v),
        DevicePairSetupCodeAuth::Password => assert(all[1] == v),
    }
}


/// The wire texts of `DevicePairSetupCodeAuth` are distinct: parsing the text of a value
/// gives that value back, and a text that parses is the text of what it
/// parses to.
pub proof fn device_pair_setup_code_auth_text_round_trip(v: DevicePairSetupCodeAuth, s: Seq<char>)
    ensures
        DevicePairSetupCodeAuth::spec_from_str(v.spec_as_str()) == Some(v),
        DevicePairSetupCodeAuth::spec_from_str(s) matches Some(w) ==> w.spec_as_str() == s,
{
    reveal_strlit("token");
    reveal_strlit("password");
    assert("token"@.len() == 5);
    assert("password"@.len() == 8);
}

/// Returns true when `auth` is the wire text of a `DevicePairSetupCodeAuth`.
pub fn is_valid_device_pair_setup_code_auth(auth: &str) -> (r: bool)
    ensures
        r == DevicePairSetupCodeAuth::spec_from_str(auth@) is Some,
{
    DevicePairSetupCodeAuth::from_str(auth).is_some()
}

/// Parameters of `device.pair.list` (empty object).
#[derive(Debug, Clone, Default)]
pub struct DevicePairListParams {}

impl DevicePairListParams {
    /// Nothing to check.
    pub fn validate(&self) -> (r: Result<(), String>)
        ensures
            r is Ok,
    {
        Ok(())
    }
}

/// Parameters of `device.pair.approve`.
#[derive(Debug, Clone)]
pub struct DevicePairApproveParams {
    pub request_id: String,
}

impl DevicePairApproveParams {
    /// `requestId` non-empty.
    pub open spec fn check(&self) -> Outcome {
        non_empty("requestId"@, self.request_id@)
    }

    pub fn validate(&self) -> (r: Result<(), String>)
        ensures
            outcome(r) == self.check(),
    {
        require_non_empty("requestId", self.request_id.as_str())
    }
}

/// Parameters of `device.pair.reject`.
#[derive(Debug, Clone)]
pub struct DevicePairRejectParams {
    pub request_id: String,
}

impl DevicePairRejectParams {
    /// `requestId` non-empty.
    pub open spec fn check(&self) -> Outcome {
        non_empty("requestId"@, self.request_id@)
    }

    pub fn validate(&self) -> (r: Result<(), String>)
        ensures
            outcome(r) == self.check(),
    {
        require_non_empty("requestId", self.request_id.as_str())
    }
}

/// Parameters of `device.pair.remove`.
#[derive(Debug, Clone)]
pub struct DevicePairRemoveParams {
    pub device_id: String,
}

impl DevicePairRemoveParams {
    /// `deviceId` non-empty.
    pub open spec fn check(&self) -> Outcome {
        non_empty("deviceId"@, self.device_id@)
    }

    pub fn validate(&self) -> (r: Result<(), String>)
        ensures
            outcome(r) == self.check(),
    {
        require_non_empty("deviceId", self.device_id.as_str())
    }
}

/// Parameters of `device.pair.rename`.
#[derive(Debug, Clone)]
pub struct DevicePairRenameParams {
    pub device_id: String,
    pub label: String,
}

impl DevicePairRenameParams {
    /// `deviceId` non-empty, `label` 1..=64 characters.
    pub open spec fn check(&self) -> Outcome {
        also(non_empty("deviceId"@, self.device_id@), device_pair_label("label"@, self.label@))
    }

    pub fn validate(&self) -> (r: Result<(), String>)
        ensures
            outcome(r) == self.check(),
    {
        let r = require_non_empty("deviceId", self.device_id.as_str());
        if r.is_err() {
            return r;
        }
        validate_device_pair_label("label", self.label.as_str())
    }
}

/// Parameters of `device.token.rotate`.
#[derive(Debug, Clone)]
pub struct DeviceTokenRotateParams {
    pub device_id: String,
    pub role: String,
    pub scopes: Option<Vec<String>>,
}

impl DeviceTokenRotateParams {
    /// `deviceId` and `role` non-empty; every scope non-empty.
    pub open spec fn check(&self) -> Outcome {
        also(
            non_empty("deviceId"@, self.device_id@),
            also(non_empty("role"@, self.role@), opt_each_non_empty("scopes"@, self.scopes)),
        )
    }

    pub fn validate(&self) -> (r: Result<(), String>)
        ensures
            outcome(r) == self.check(),
    {
        let r = require_non_empty("deviceId", self.device_id.as_str());
        if r.is_err() {
            return r;
        }
        let r = require_non_empty("role", self.role.as_str());
        if r.is_err() {
            return r;
        }
        require_opt_each_non_empty("scopes", &self.scopes)
    }
}

/// Parameters of `device.token.revoke`.
#[derive(Debug, Clone)]
pub struct DeviceTokenRevokeParams {
    pub device_id: String,
    pub role: String,
}

impl DeviceTokenRevokeParams {
    /// `deviceId` and `role` non-empty.
    pub open spec fn check(&self) -> Outcome {
        also(non_empty("deviceId"@, self.device_id@), non_empty("role"@, self.role@))
    }

    pub fn validate(&self) -> (r: Result<(), String>)
        ensures
            outcome(r) == self.check(),
    {
        let r = require_non_empty("deviceId", self.device_id.as_str());
        if r.is_err() {
            return r;
        }
        require_non_empty("role", self.role.as_str())
    }
}

/// Event broadcast when a device asks to pair.
#[derive(Debug, Clone)]
pub struct DevicePairRequestedEvent {
    pub request_id: String,
    pub device_id: String,
    pub public_key: String,
    pub display_name: Option<String>,
    pub platform: Option<String>,
    pub device_family: Option<String>,
    pub client_id: Option<String>,
    pub client_mode: Option<String>,
    pub role: Option<String>,
    pub roles: Option<Vec<String>>,
    pub scopes: Option<Vec<String>>,
    pub remote_ip: Option<String>,
    pub silent: Option<bool>,
    pub is_repair: Option<bool>,
    pub ts: i64,
}

impl DevicePairRequestedEvent {
    /// Ids and key non-empty, optional strings and list items non-empty,
    /// `ts >= 0`, in field order.
    pub open spec fn check(&self) -> Outcome {
        also(non_empty("requestId"@, self.request_id@),
        also(non_empty("deviceId"@, self.device_id@),
        also(non_empty("publicKey"@, self.public_key@),
        also(opt_non_empty("displayName"@, self.display_name),
        also(opt_non_empty("platform"@, self.platform),
        also(opt_non_empty("deviceFamily"@, self.device_family),
        also(opt_non_empty("clientId"@, self.client_id),
        also(opt_non_empty("clientMode"@, self.client_mode),
        also(opt_non_empty("role"@, self.role),
        also(opt_each_non_empty("roles"@, self.roles),
        also(opt_each_non_empty("scopes"@, self.scopes),
        also(opt_non_empty("remoteIp"@, self.remote_ip),
        non_negative_integer("ts"@, self.ts as int)))))))))))))
    }

    pub fn validate(&self) -> (r: Result<(), String>)
        ensures
            outcome(r) == self.check(),
    {
        let r = require_non_empty("requestId", self.request_id.as_str());
        if r.is_err() {
            return r;
        }
        let r = require_non_empty("deviceId", self.device_id.as_str());
        if r.is_err() {
            return r;
        }
        let r = require_non_empty("publicKey", self.public_key.as_str());
        if r.is_err() {
            return r;
        }
        let r = require_opt_non_empty("displayName", &self.display_name);
        if r.is_err() {
            return r;
        }
        let r = require_opt_non_empty("platform", &self.platform);
        if r.is_err() {
            return r;
        }
        let r = require_opt_non_empty("deviceFamily", &self.device_family);
        if r.is_err() {
            return r;
        }
        let r = require_opt_non_empty("clientId", &self.client_id);
        if r.is_err() {
            return r;
        }
        let r = require_opt_non_empty("clientMode", &self.client_mode);
        if r.is_err() {
            return r;
        }
        let r = require_opt_non_empty("role", &self.role);
        if r.is_err() {
            return r;
        }
        let r = require_opt_each_non_empty("roles", &self.roles);
        if r.is_err() {
            return r;
        }
        let r = require_opt_each_non_empty("scopes", &self.scopes);
        if r.is_err() {
            return r;
        }
        let r = require_opt_non_empty("remoteIp", &self.remote_ip);
        if r.is_err() {
            return r;
        }
        require_non_negative_integer("ts", self.ts)
    }
}

/// Event broadcast when a pairing request is decided.
#[derive(Debug, Clone)]
pub struct DevicePairResolvedEvent {
    pub request_id: String,
    pub device_id: String,
    pub decision: String,
    pub ts: i64,
}

impl DevicePairResolvedEvent {
    /// Ids and decision non-empty, `ts >= 0`.
    pub open spec fn check(&self) -> Outcome {
        also(non_empty("requestId"@, self.request_id@),
        also(non_empty("deviceId"@, self.device_id@),
        also(non_empty("decision"@, self.decision@),
        non_negative_integer("ts"@, self.ts as int))))
    }

    pub fn validate(&self) -> (r: Result<(), String>)
        ensures
            outcome(r) == self.check(),
    {
        let r = require_non_empty("requestId", self.request_id.as_str());
        if r.is_err() {
            return r;
        }
        let r = require_non_empty("deviceId", self.device_id.as_str());
        if r.is_err() {
            return r;
        }
        let r = require_non_empty("decision", self.decision.as_str());
        if r.is_err() {
            return r;
        }
        require_non_negative_integer("ts", self.ts)
    }
}

/// Parameters of `device.pair.setupCode`.
#[derive(Debug, Clone, Default)]
pub struct DevicePairSetupCodeParams {
    pub public_url: Option<String>,
    pub prefer_remote_url: Option<bool>,
    pub include_qr: Option<bool>,
    pub bootstrap_profile: Option<DevicePairSetupCodeBootstrapProfile>,
}

impl DevicePairSetupCodeParams {
    /// `publicUrl` non-empty when present.
    pub open spec fn check(&self) -> Outcome {
        opt_non_empty("publicUrl"@, self.public_url)
    }

    pub fn validate(&self) -> (r: Result<(), String>)
        ensures
            outcome(r) == self.check(),
    {
        require_opt_non_empty("publicUrl", &self.public_url)
    }
}

/// The first gateway URL from position `j` on that repeats an earlier one.
pub open spec fn unique_urls(urls: Seq<String>, j: int) -> Outcome
    decreases urls.len() - j,
{
    if 0 <= j < urls.len() {
        if exists|k: int| 0 <= k < j && #[trigger] urls[k]@ == urls[j]@ {
            Err("gatewayUrls: expected unique items, duplicate "@ + str_debug(urls[j]@))
        } else {
            unique_urls(urls, j + 1)
        }
    } else {
        Ok(())
    }
}

/// Checks for a repeated gateway URL, reporting the first repeat.
fn validate_unique_urls(urls: &Vec<String>) -> (r: Result<(), String>)
    ensures
        outcome(r) == unique_urls(urls@, 0),
{
    let n = urls.len();
    let mut j: usize = 0;
    while j < n
        invariant
            n == urls@.len(),
            j <= n,
            unique_urls(urls@, 0) == unique_urls(urls@, j as int),
        decreases n - j,
    {
        let mut k: usize = 0;
        while k < j
            invariant
                n == urls@.len(),
                k <= j < n,
                unique_urls(urls@, 0) == unique_urls(urls@, j as int),
                forall|i: int| 0 <= i < k ==> urls@[i]@ != urls@[j as int]@,
            decreases j - k,
        {
            if str_eq(urls[k].as_str(), urls[j].as_str()) {
                assert(urls@[k as int]@ == urls@[j as int]@);
                let shown = debug_text(urls[j].as_str());
                let mut m = String::from_str("gatewayUrls: expected unique items, duplicate ");
                m.append(shown.as_str());
                return Err(m);
            }
            k = k + 1;
        }
        j = j + 1;
    }
    Ok(())
}

/// Result of `device.pair.setupCode`.
#[derive(Debug, Clone)]
pub struct DevicePairSetupCodeResult {
    pub setup_code: String,
    pub qr_data_url: Option<String>,
    pub gateway_url: String,
    pub gateway_urls: Option<Vec<String>>,
    pub auth: DevicePairSetupCodeAuth,
    pub url_source: String,
}

impl DevicePairSetupCodeResult {
    /// The optional gateway URL list: 2..=8 items, each non-empty, no repeats.
    pub open spec fn gateway_urls_check(urls: Option<Vec<String>>) -> Outcome {
        match urls {
            Some(v) => also(
                count_in(
                    "gatewayUrls"@,
                    ": expected length ["@,
                    v@.len() as int,
                    DEVICE_PAIR_GATEWAY_URLS_MIN_ITEMS as int,
                    DEVICE_PAIR_GATEWAY_URLS_MAX_ITEMS as int,
                    "], got "@,
                ),
                also(each_non_empty("gatewayUrls"@, v@, 0), unique_urls(v@, 0)),
            ),
            None => Ok(()),
        }
    }

    /// `setupCode` non-empty, QR data URL well formed, `gatewayUrl`
    /// non-empty, the URL list as above, `urlSource` non-empty.
    pub open spec fn check(&self) -> Outcome {
        also(non_empty("setupCode"@, self.setup_code@),
        also(match self.qr_data_url {
            Some(q) => setup_code_qr_data_url("qrDataUrl"@, q@),
            None => Ok(()),
        },
        also(non_empty("gatewayUrl"@, self.gateway_url@),
        also(Self::gateway_urls_check(self.gateway_urls),
        non_empty("urlSource"@, self.url_source@)))))
    }

    pub fn validate(&self) -> (r: Result<(), String>)
        ensures
            outcome(r) == self.check(),
    {
        let r = require_non_empty("setupCode", self.setup_code.as_str());
        if r.is_err() {
            return r;
        }
        if let Some(qr) = &self.qr_data_url {
            let r = validate_setup_code_qr_data_url("qrDataUrl", qr.as_str());
            if r.is_err() {
                return r;
            }
        }
        let r = require_non_empty("gatewayUrl", self.gateway_url.as_str());
        if r.is_err() {
            return r;
        }
        if let Some(urls) = &self.gateway_urls {
            let r = require_count_in(
                "gatewayUrls",
                ": expected length [",
                urls.len(),
                DEVICE_PAIR_GATEWAY_URLS_MIN_ITEMS,
                DEVICE_PAIR_GATEWAY_URLS_MAX_ITEMS,
                "], got ",
            );
            if r.is_err() {
                return r;
            }
            let r = require_each_non_empty("gatewayUrls", urls);
            if r.is_err() {
                return r;
            }
            let r = validate_unique_urls(urls);
            if r.is_err() {
                return r;
            }
        }
        require_non_empty("urlSource", self.url_source.as_str())
    }
}

/// From position `j` on, no gateway URL repeats an earlier one exactly when
/// the repeat check passes.
proof fn unique_urls_passes_iff_distinct(urls: Seq<String>, j: int)
    requires
        0 <= j <= urls.len(),
    ensures
        unique_urls(urls, j) is Ok <==> forall|k: int, l: int|
            0 <= k < l < urls.len() && j <= l ==> #[trigger] urls[k]@ != #[trigger] urls[l]@,
    decreases urls.len() - j,
{
    if j < urls.len() {
        unique_urls_passes_iff_distinct(urls, j + 1);
        if exists|k: int| 0 <= k < j && #[trigger] urls[k]@ == urls[j]@ {
            let k = choose|k: int| 0 <= k < j && #[trigger] urls[k]@ == urls[j]@;
            assert(urls[k]@ == urls[j]@);
        }
    }
}

/// A setup code result passes validation exactly when the setup code, the
/// gateway URL and the URL source are non-empty, the QR data URL (when
/// present) is at most 16384 bytes and starts with `data:image/png;base64,`,
/// and the gateway URL list (when present) holds two to eight URLs, none empty
/// and no two the same.
pub proof fn setup_code_result_passes_iff(r: DevicePairSetupCodeResult)
    ensures
        r.check() is Ok <==> {
            &&& r.setup_code@.len() > 0
            &&& r.qr_data_url matches Some(q) ==> encode_utf8(q@).len() <= SETUP_CODE_QR_DATA_URL_MAX_LENGTH
                && starts_with(q@, "data:image/png;base64,"@)
            &&& r.gateway_url@.len() > 0
            &&& r.gateway_urls matches Some(v) ==> {
                &&& DEVICE_PAIR_GATEWAY_URLS_MIN_ITEMS <= v@.len() <= DEVICE_PAIR_GATEWAY_URLS_MAX_ITEMS
                &&& forall|k: int| 0 <= k < v@.len() ==> (#[trigger] v@[k])@.len() > 0
                &&& forall|k: int, l: int| 0 <= k < l < v@.len() ==> #[trigger] v@[k]@ != #[trigger] v@[l]@
            }
            &&& r.url_source@.len() > 0
        },
{
    if let Some(v) = r.gateway_urls {
        crate::checks::each_non_empty_all_pass("gatewayUrls"@, v@, 0);
        unique_urls_passes_iff_distinct(v@, 0);
    }
}

pub type DevicePairListParamsType = DevicePairListParams;
pub type DevicePairApproveParamsType = DevicePairApproveParams;
pub type DevicePairRejectParamsType = DevicePairRejectParams;
pub type DevicePairRemoveParamsType = DevicePairRemoveParams;
pub type DevicePairRenameParamsType = DevicePairRenameParams;
pub type DeviceTokenRotateParamsType = DeviceTokenRotateParams;
pub type DeviceTokenRevokeParamsType = DeviceTokenRevokeParams;
pub type DevicePairRequestedEventType = DevicePairRequestedEvent;
pub type DevicePairResolvedEventType = DevicePairResolvedEvent;
pub type DevicePairSetupCodeParamsType = DevicePairSetupCodeParams;
pub type DevicePairSetupCodeResultType = DevicePairSetupCodeResult;

// ---------------------------------------------------------------------------
// What each schema accepts
// ---------------------------------------------------------------------------

/// A `DevicePairApproveParams` passes validation exactly when every condition below holds;
/// a value that breaks one is rejected.
pub proof fn device_pair_approve_params_accepts(x: DevicePairApproveParams)
    ensures
        x.check() is Ok <==> {
            &&& x.request_id@.len() > 0
        },
{
}

/// A `DevicePairRejectParams` passes validation exactly when every condition below holds;
/// a value that breaks one is rejected.
pub proof fn device_pair_reject_params_accepts(x: DevicePairRejectParams)
    ensures
        x.check() is Ok <==> {
            &&& x.request_id@.len() > 0
        },
{
}

/// A `DevicePairRemoveParams` passes validation exactly when every condition below holds;
/// a value that breaks one is rejected.
pub proof fn device_pair_remove_params_accepts(x: DevicePairRemoveParams)
    ensures
        x.check() is Ok <==> {
            &&& x.device_id@.len() > 0
        },
{
}

/// A `DeviceTokenRotateParams` passes validation exactly when every condition below holds;
/// a value that breaks one is rejected.
pub proof fn device_token_rotate_params_accepts(x: DeviceTokenRotateParams)
    ensures
        x.check() is Ok <==> {
            &&& x.device_id@.len() > 0
            &&& x.role@.len() > 0
            &&& (x.scopes matches Some(v) ==> forall|k: int| 0 <= k < v@.len() ==> (#[trigger] v@[k])@.len() > 0)
        },
{
    if let Some(v) = x.scopes { crate::checks::each_non_empty_all_pass("scopes"@, v@, 0); }
}

/// A `DeviceTokenRevokeParams` passes validation exactly when every condition below holds;
/// a value that breaks one is rejected.
pub proof fn device_token_revoke_params_accepts(x: DeviceTokenRevokeParams)
    ensures
        x.check() is Ok <==> {
            &&& x.device_id@.len() > 0
            &&& x.role@.len() > 0
        },
{
}

/// A `DevicePairRequestedEvent` passes validation exactly when every condition below holds;
/// a value that breaks one is rejected.
pub proof fn device_pair_requested_event_accepts(x: DevicePairRequestedEvent)
    ensures
        x.check() is Ok <==> {
            &&& x.request_id@.len() > 0
            &&& x.device_id@.len() > 0
            &&& x.public_key@.len() > 0
            &&& (x.display_name matches Some(s) ==> s@.len() > 0)
            &&& (x.platform matches Some(s) ==> s@.len() > 0)
            &&& (x.device_family matches Some(s) ==> s@.len() > 0)
            &&& (x.client_id matches Some(s) ==> s@.len() > 0)
            &&& (x.client_mode matches Some(s) ==> s@.len() > 0)
            &&& (x.role matches Some(s) ==> s@.len() > 0)
            &&& (x.roles matches Some(v) ==> forall|k: int| 0 <= k < v@.len() ==> (#[trigger] v@[k])@.len() > 0)
            &&& (x.scopes matches Some(v) ==> forall|k: int| 0 <= k < v@.len() ==> (#[trigger] v@[k])@.len() > 0)
            &&& (x.remote_ip matches Some(s) ==> s@.len() > 0)
            &&& x.ts as int >= 0
        },
{
    if let Some(v) = x.roles { crate::checks::each_non_empty_all_pass("roles"@, v@, 0); }
    if let Some(v) = x.scopes { crate::checks::each_non_empty_all_pass("scopes"@, v@, 0); }
}

/// A `DevicePairResolvedEvent` passes validation exactly when every condition below holds;
/// a value that breaks one is rejected.
pub proof fn device_pair_resolved_event_accepts(x: DevicePairResolvedEvent)
    ensures
        x.check() is Ok <==> {
            &&& x.request_id@.len() > 0
            &&& x.device_id@.len() > 0
            &&& x.decision@.len() > 0
            &&& x.ts as int >= 0
        },
{
}

/// A `DevicePairSetupCodeParams` passes validation exactly when every condition below holds;
/// a value that breaks one is rejected.
pub proof fn device_pair_setup_code_params_accepts(x: DevicePairSetupCodeParams)
    ensures
        x.check() is Ok <==> {
            &&& (x.public_url matches Some(s) ==> s@.len() > 0)
        },
{
}

/// A `DevicePairRenameParams` passes validation exactly when every condition below holds;
/// a value that breaks one is rejected.
pub proof fn device_pair_rename_params_accepts(x: DevicePairRenameParams)
    ensures
        x.check() is Ok <==> {
            &&& x.device_id@.len() > 0
            &&& 1 <= x.label@.len() <= 64
        },
{
}

} // verus!
