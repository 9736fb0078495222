//! Node presence, pairing, plugin tool and skill catalogs, command invocation,
//! event envelopes, and pending work drain and enqueue schemas.
use vstd::prelude::*;
use crate::checks::{
    also, bound_msg, bound_msg_text, count_bound_msg_text, each_checked, each_non_empty, int_in,
    non_empty, opt_int_in, opt_non_empty, outcome, prefixed, reject, require_count_in,
    require_each_non_empty, require_int_in, require_non_empty, require_opt_int_in,
    require_opt_non_empty, validate_each, within, Checked, Outcome, count_in,
};
use crate::json::NumberValue;
use crate::primitives::NonEmptyString;
use crate::text::{debug_text, decimal, is_digit, is_lower, is_upper, str_debug, str_eq};

verus! {

/// Plugin tool names hold 1..=64 characters.
pub const NODE_PLUGIN_TOOL_NAME_MAX_LENGTH: usize = 64;
pub const NODE_PLUGIN_TOOL_NAME_MIN_LENGTH: usize = 1;

/// Skill names hold 1..=64 characters.
pub const NODE_SKILL_NAME_MAX_LENGTH: usize = 64;
pub const NODE_SKILL_NAME_MIN_LENGTH: usize = 1;

/// Skill descriptions hold 1..=1024 characters.
pub const NODE_SKILL_DESCRIPTION_MAX_LENGTH: usize = 1024;
pub const NODE_SKILL_DESCRIPTION_MIN_LENGTH: usize = 1;

/// Skill contents hold 1..=65536 characters.
pub const NODE_SKILL_CONTENT_MAX_LENGTH: usize = 65536;
pub const NODE_SKILL_CONTENT_MIN_LENGTH: usize = 1;

/// Longest idle time a node may report: 30 days.
pub const NODE_PRESENCE_IDLE_SECONDS_MAX: i64 = 2_592_000;

/// Bounds of `maxItems` in a drain request.
pub const NODE_PENDING_DRAIN_MAX_ITEMS_MAX: i64 = 10;
pub const NODE_PENDING_DRAIN_MAX_ITEMS_MIN: i64 = 1;

/// Most skills one node may advertise.
pub const NODE_SKILL_LIST_MAX_ITEMS: usize = 64;

// ---------------------------------------------------------------------------
// Name grammars
// ---------------------------------------------------------------------------

/// A character allowed after the first one of a tool name: `[A-Za-z0-9_-]`.
pub open spec fn is_tool_name_tail_char(c: char) -> bool {
    is_lower(c) || is_upper(c) || is_digit(c) || c == '_' || c == '-'
}

/// `^[A-Za-z][A-Za-z0-9_-]{0,63}$`.
pub open spec fn is_node_plugin_tool_name(s: Seq<char>) -> bool {
    &&& NODE_PLUGIN_TOOL_NAME_MIN_LENGTH <= s.len() <= NODE_PLUGIN_TOOL_NAME_MAX_LENGTH
    &&& (is_lower(s[0]) || is_upper(s[0]))
    &&& forall|i: int| 1 <= i < s.len() ==> is_tool_name_tail_char(#[trigger] s[i])
}

/// Returns true when `name` matches the node plugin tool name grammar.
pub fn is_valid_node_plugin_tool_name(name: &str) -> (r: bool)
    ensures
        r == is_node_plugin_tool_name(name@),
{
    let n = name.unicode_len();
    if n < NODE_PLUGIN_TOOL_NAME_MIN_LENGTH || n > NODE_PLUGIN_TOOL_NAME_MAX_LENGTH {
        return false;
    }
    let first = name.get_char(0);
    if !(('a' <= first && first <= 'z') || ('A' <= first && first <= 'Z')) {
        return false;
    }
    let mut i: usize = 1;
    while i < n
        invariant
            n == name@.len(),
            1 <= i <= n,
            forall|j: int| 1 <= j < i ==> is_tool_name_tail_char(#[trigger] name@[j]),
        decreases n - i,
    {
        let c = name.get_char(i);
        if !(('a' <= c && c <= 'z') || ('A' <= c && c <= 'Z') || ('0' <= c && c <= '9') || c == '_'
            || c == '-') {
            assert(!is_tool_name_tail_char(name@[i as int]));
            return false;
        }
        i = i + 1;
    }
    true
}

/// A character of a skill name: `[a-z0-9-]`.
pub open spec fn is_skill_name_char(c: char) -> bool {
    is_lower(c) || is_digit(c) || c == '-'
}

/// Two hyphens in a row start at `i`.
pub open spec fn is_double_hyphen_at(s: Seq<char>, i: int) -> bool {
    0 <= i && i + 1 < s.len() && s[i] == '-' && s[i + 1] == '-'
}

/// `^(?!.*--)[a-z0-9](?:[a-z0-9-]{0,62}[a-z0-9])?$`: lower-case letters,
/// digits and hyphens, 1..=64 of them, starting and ending with a letter or
/// digit, with no two hyphens in a row.
pub open spec fn is_node_skill_name(s: Seq<char>) -> bool {
    &&& NODE_SKILL_NAME_MIN_LENGTH <= s.len() <= NODE_SKILL_NAME_MAX_LENGTH
    &&& forall|i: int| 0 <= i < s.len() ==> is_skill_name_char(#[trigger] s[i])
    &&& s[0] != '-'
    &&& s[s.len() - 1] != '-'
    &&& !(exists|i: int| #[trigger] is_double_hyphen_at(s, i))
}

/// Returns true when `name` matches the node skill name grammar.
pub fn is_valid_node_skill_name(name: &str) -> (r: bool)
    ensures
        r == is_node_skill_name(name@),
{
    let n = name.unicode_len();
    if n < NODE_SKILL_NAME_MIN_LENGTH || n > NODE_SKILL_NAME_MAX_LENGTH {
        return false;
    }
    if name.get_char(0) == '-' || name.get_char(n - 1) == '-' {
        return false;
    }
    let mut i: usize = 0;
    while i < n
        invariant
            n == name@.len(),
            i <= n,
            forall|j: int| 0 <= j < i ==> is_skill_name_char(#[trigger] name@[j]),
            forall|j: int| 0 <= j && j + 1 < i ==> !is_double_hyphen_at(name@, j),
        decreases n - i,
    {
        let c = name.get_char(i);
        if !(('a' <= c && c <= 'z') || ('0' <= c && c <= '9') || c == '-') {
            assert(!is_skill_name_char(name@[i as int]));
            return false;
        }
        if i > 0 && c == '-' && name.get_char(i - 1) == '-' {
            assert(is_double_hyphen_at(name@, i - 1));
            return false;
        }
        i = i + 1;
    }
    assert forall|j: int| !is_double_hyphen_at(name@, j) by {
        if 0 <= j && j + 1 < n {
        }
    }
    true
}

/// A plugin tool name (validated by `is_valid_node_plugin_tool_name`).
pub type NodePluginToolNameSchema = String;

/// A skill name (validated by `is_valid_node_skill_name`).
pub type NodeSkillNameSchema = String;

// ---------------------------------------------------------------------------
// Field checks
// ---------------------------------------------------------------------------

/// `n >= 0`, reported as `field: expected >= 0, got n`.
pub open spec fn non_negative(field: Seq<char>, n: int) -> Outcome {
    reject(n < 0, bound_msg(field, ": expected >= "@, 0, ", got "@, n))
}

/// An optional `non_negative` integer.
pub open spec fn opt_non_negative(field: Seq<char>, n: Option<i64>) -> Outcome {
    match n {
        Some(v) => non_negative(field, v as int),
        None => Ok(()),
    }
}

fn validate_non_negative_integer(field: &str, n: i64) -> (r: Result<(), String>)
    ensures
        outcome(r) == non_negative(field@, n as int),
{
    if n < 0 {
        Err(bound_msg_text(field, ": expected >= ", 0, ", got ", n))
    } else {
        Ok(())
    }
}

fn validate_opt_non_negative_integer(field: &str, n: Option<i64>) -> (r: Result<(), String>)
    ensures
        outcome(r) == opt_non_negative(field@, n),
{
    match n {
        Some(v) => validate_non_negative_integer(field, v),
        None => Ok(()),
    }
}

/// Closed enumeration of pending node work classes.
#[derive(Debug, Clone, Copy, PartialEq, Eq, Hash, Structural)]
pub enum NodePendingWorkTypeSchema {
    StatusRequest,
    LocationRequest,
}

impl NodePendingWorkTypeSchema {
    /// The wire text of each variant.
    pub open spec fn spec_as_str(&self) -> Seq<char> {
        match self {
            NodePendingWorkTypeSchema::StatusRequest => "status.request"@,
            NodePendingWorkTypeSchema::LocationRequest => "location.request"@,
        }
    }

    /// The wire text of this value.
    pub fn as_str(&self) -> (r: &'static str)
        ensures
            r@ == self.spec_as_str(),
    {
        match self {
            NodePendingWorkTypeSchema::StatusRequest => "status.request",
            NodePendingWorkTypeSchema::LocationRequest => "location.request",
        }
    }

    /// The value whose wire text is `s`, if any.
    pub open spec fn spec_from_str(s: Seq<char>) -> Option<NodePendingWorkTypeSchema> {
        if s == "status.request"@ {
            Some(NodePendingWorkTypeSchema::StatusRequest)
        } else if s == "location.request"@ {
            Some(NodePendingWorkTypeSchema::LocationRequest)
        } else {
            None
        }
    }

    /// Parses a wire text; `None` for unknown values.
    pub fn from_str(s: &str) -> (r: Option<NodePendingWorkTypeSchema>)
        ensures
            r == NodePendingWorkTypeSchema::spec_from_str(s@),
    {
        if str_eq(s, "status.request") {
            Some(NodePendingWorkTypeSchema::StatusRequest)
        } else if str_eq(s, "location.request") {
            Some(NodePendingWorkTypeSchema::LocationRequest)
        } else {
            None
        }
    }

    /// Every value, in declaration order.
    pub open spec fn spec_all() -> Seq<NodePendingWorkTypeSchema> {
        seq![NodePendingWorkTypeSchema::StatusRequest, NodePendingWorkTypeSchema::LocationRequest]
    }

    /// Every value, in declaration order.
    pub fn all() -> (r: &'static [NodePendingWorkTypeSchema])
        ensures
            r@ == NodePendingWorkTypeSchema::spec_all(),
    {
        &[NodePendingWorkTypeSchema::StatusRequest, NodePendingWorkTypeSchema::LocationRequest]
    }
}
/// `NodePendingWorkTypeSchema::all` lists every value, each once.
pub proof fn node_pending_work_type_schema_all_lists_every_value(v: NodePendingWorkTypeSchema)
    ensures
        NodePendingWorkTypeSchema::spec_all().contains(v),
        NodePendingWorkTypeSchema::spec_all().no_duplicates(),
{
    let all = NodePendingWorkTypeSchema::spec_all();
    match v {
        NodePendingWorkTypeSchema::StatusRequest => assert(all[0] == v),
        NodePendingWorkTypeSchema::LocationRequest => assert(all[1] == v),
    }
}


/// The wire texts of `NodePendingWorkTypeSchema` are distinct: parsing the text of a value
/// gives that value back, and a text that parses is the text of what it
/// parses to.
pub proof fn node_pending_work_type_schema_text_round_trip(v: NodePendingWorkTypeSchema, s: Seq<char>)
    ensures
        NodePendingWorkTypeSchema::spec_from_str(v.spec_as_str()) == Some(v),
        NodePendingWorkTypeSchema::spec_from_str(s) matches Some(w) ==> w.spec_as_str() == s,
{
    reveal_strlit("status.request");
    reveal_strlit("location.request");
    assert("status.request"@.len() == 14);
    assert("location.request"@.len() == 16);
}

/// Returns true when `s` is the wire text of a `NodePendingWorkTypeSchema`.
pub fn is_valid_node_pending_work_type(s: &str) -> (r: bool)
    ensures
        r == NodePendingWorkTypeSchema::spec_from_str(s@) is Some,
{
    NodePendingWorkTypeSchema::from_str(s).is_some()
}

/// Closed enumeration of pending node work priorities.
#[derive(Debug, Clone, Copy, PartialEq, Eq, Hash, Structural)]
pub enum NodePendingWorkPrioritySchema {
    Normal,
    High,
}

impl NodePendingWorkPrioritySchema {
    /// The wire text of each variant.
    pub open spec fn spec_as_str(&self) -> Seq<char> {
        match self {
            NodePendingWorkPrioritySchema::Normal => "normal"@,
            NodePendingWorkPrioritySchema::High => "high"@,
        }
    }

    /// The wire text of this value.
    pub fn as_str(&self) -> (r: &'static str)
        ensures
            r@ == self.spec_as_str(),
    {
        match self {
            NodePendingWorkPrioritySchema::Normal => "normal",
            NodePendingWorkPrioritySchema::High => "high",
        }
    }

    /// The value whose wire text is `s`, if any.
    pub open spec fn spec_from_str(s: Seq<char>) -> Option<NodePendingWorkPrioritySchema> {
        if s == "normal"@ {
            Some(NodePendingWorkPrioritySchema::Normal)
        } else if s == "high"@ {
            Some(NodePendingWorkPrioritySchema::High)
        } else {
            None
        }
    }

    /// Parses a wire text; `None` for unknown values.
    pub fn from_str(s: &str) -> (r: Option<NodePendingWorkPrioritySchema>)
        ensures
            r == NodePendingWorkPrioritySchema::spec_from_str(s@),
    {
        if str_eq(s, "normal") {
            Some(NodePendingWorkPrioritySchema::Normal)
        } else if str_eq(s, "high") {
            Some(NodePendingWorkPrioritySchema::High)
        } else {
            None
        }
    }

    /// Every value, in declaration order.
    pub open spec fn spec_all() -> Seq<NodePendingWorkPrioritySchema> {
        seq![NodePendingWorkPrioritySchema::Normal, NodePendingWorkPrioritySchema::High]
    }

    /// Every value, in declaration order.
    pub fn all() -> (r: &'static [NodePendingWorkPrioritySchema])
        ensures
            r@ == NodePendingWorkPrioritySchema::spec_all(),
    {
        &[NodePendingWorkPrioritySchema::Normal, NodePendingWorkPrioritySchema::High]
    }
}
/// `NodePendingWorkPrioritySchema::all` lists every value, each once.
pub proof fn node_pending_work_priority_schema_all_lists_every_value(v: NodePendingWorkPrioritySchema)
    ensures
        NodePendingWorkPrioritySchema::spec_all().contains(v),
        NodePendingWorkPrioritySchema::spec_all().no_duplicates(),
{
    let all = NodePendingWorkPrioritySchema::spec_all();
    match v {
        NodePendingWorkPrioritySchema::Normal => assert(all[0] == v),
        NodePendingWorkPrioritySchema::High => assert(all[1] == v),
    }
}


/// The wire texts of `NodePendingWorkPrioritySchema` are distinct: parsing the text of a value
/// gives that value back, and a text that parses is the text of what it
/// parses to.
pub proof fn node_pending_work_priority_schema_text_round_trip(v: NodePendingWorkPrioritySchema, s: Seq<char>)
    ensures
        NodePendingWorkPrioritySchema::spec_from_str(v.spec_as_str()) == Some(v),
        NodePendingWorkPrioritySchema::spec_from_str(s) matches Some(w) ==> w.spec_as_str() == s,
{
    reveal_strlit("normal");
    reveal_strlit("high");
    assert("normal"@.len() == 6);
    assert("high"@.len() == 4);
}

/// Returns true when `s` is the wire text of a `NodePendingWorkPrioritySchema`.
pub fn is_valid_node_pending_work_priority(s: &str) -> (r: bool)
    ensures
        r == NodePendingWorkPrioritySchema::spec_from_str(s@) is Some,
{
    NodePendingWorkPrioritySchema::from_str(s).is_some()
}

/// Priorities reported by drain responses: `default` besides `normal` and `high`, kept apart so that enqueue stays closed.
#[derive(Debug, Clone, Copy, PartialEq, Eq, Hash, Structural)]
pub enum NodePendingDrainPrioritySchema {
    Default,
    Normal,
    High,
}

impl NodePendingDrainPrioritySchema {
    /// The wire text of each variant.
    pub open spec fn spec_as_str(&self) -> Seq<char> {
        match self {
            NodePendingDrainPrioritySchema::Default => "default"@,
            NodePendingDrainPrioritySchema::Normal => "normal"@,
            NodePendingDrainPrioritySchema::High => "high"@,
        }
    }

    /// The wire text of this value.
    pub fn as_str(&self) -> (r: &'static str)
        ensures
            r@ == self.spec_as_str(),
    {
        match self {
            NodePendingDrainPrioritySchema::Default => "default",
            NodePendingDrainPrioritySchema::Normal => "normal",
            NodePendingDrainPrioritySchema::High => "high",
        }
    }

    /// The value whose wire text is `s`, if any.
    pub open spec fn spec_from_str(s: Seq<char>) -> Option<NodePendingDrainPrioritySchema> {
        if s == "default"@ {
            Some(NodePendingDrainPrioritySchema::Default)
        } else if s == "normal"@ {
            Some(NodePendingDrainPrioritySchema::Normal)
        } else if s == "high"@ {
            Some(NodePendingDrainPrioritySchema::High)
        } else {
            None
        }
    }

    /// Parses a wire text; `None` for unknown values.
    pub fn from_str(s: &str) -> (r: Option<NodePendingDrainPrioritySchema>)
        ensures
            r == NodePendingDrainPrioritySchema::spec_from_str(s@),
    {
        if str_eq(s, "default") {
            Some(NodePendingDrainPrioritySchema::Default)
        } else if str_eq(s, "normal") {
            Some(NodePendingDrainPrioritySchema::Normal)
        } else if str_eq(s, "high") {
            Some(NodePendingDrainPrioritySchema::High)
        } else {
            None
        }
    }
}

/// The wire texts of `NodePendingDrainPrioritySchema` are distinct: parsing the text of a value
/// gives that value back, and a text that parses is the text of what it
/// parses to.
pub proof fn node_pending_drain_priority_schema_text_round_trip(v: NodePendingDrainPrioritySchema, s: Seq<char>)
    ensures
        NodePendingDrainPrioritySchema::spec_from_str(v.spec_as_str()) == Some(v),
        NodePendingDrainPrioritySchema::spec_from_str(s) matches Some(w) ==> w.spec_as_str() == s,
{
    reveal_strlit("default");
    reveal_strlit("normal");
    reveal_strlit("high");
    assert("default"@.len() == 7);
    assert("normal"@.len() == 6);
    assert("high"@.len() == 4);
}

/// Returns true when `s` is the wire text of a `NodePendingDrainPrioritySchema`.
pub fn is_valid_node_pending_drain_priority(s: &str) -> (r: bool)
    ensures
        r == NodePendingDrainPrioritySchema::spec_from_str(s@) is Some,
{
    NodePendingDrainPrioritySchema::from_str(s).is_some()
}

/// Reasons a node can report itself alive without implying an operator action.
#[derive(Debug, Clone, Copy, PartialEq, Eq, Hash, Structural)]
pub enum NodePresenceAliveReasonSchema {
    Background,
    SilentPush,
    BgAppRefresh,
    SignificantLocation,
    Manual,
    Connect,
}

impl NodePresenceAliveReasonSchema {
    /// The wire text of each variant.
    pub open spec fn spec_as_str(&self) -> Seq<char> {
        match self {
            NodePresenceAliveReasonSchema::Background => "background"@,
            NodePresenceAliveReasonSchema::SilentPush => "silent_push"@,
            NodePresenceAliveReasonSchema::BgAppRefresh => "bg_app_refresh"@,
            NodePresenceAliveReasonSchema::SignificantLocation => "significant_location"@,
            NodePresenceAliveReasonSchema::Manual => "manual"@,
            NodePresenceAliveReasonSchema::Connect => "connect"@,
        }
    }

    /// The wire text of this value.
    pub fn as_str(&self) -> (r: &'static str)
        ensures
            r@ == self.spec_as_str(),
    {
        match self {
            NodePresenceAliveReasonSchema::Background => "background",
            NodePresenceAliveReasonSchema::SilentPush => "silent_push",
            NodePresenceAliveReasonSchema::BgAppRefresh => "bg_app_refresh",
            NodePresenceAliveReasonSchema::SignificantLocation => "significant_location",
            NodePresenceAliveReasonSchema::Manual => "manual",
            NodePresenceAliveReasonSchema::Connect => "connect",
        }
    }

    /// The value whose wire text is `s`, if any.
    pub open spec fn spec_from_str(s: Seq<char>) -> Option<NodePresenceAliveReasonSchema> {
        if s == "background"@ {
            Some(NodePresenceAliveReasonSchema::Background)
        } else if s == "silent_push"@ {
            Some(NodePresenceAliveReasonSchema::SilentPush)
        } else if s == "bg_app_refresh"@ {
            Some(NodePresenceAliveReasonSchema::BgAppRefresh)
        } else if s == "significant_location"@ {
            Some(NodePresenceAliveReasonSchema::SignificantLocation)
        } else if s == "manual"@ {
            Some(NodePresenceAliveReasonSchema::Manual)
        } else if s == "connect"@ {
            Some(NodePresenceAliveReasonSchema::Connect)
        } else {
            None
        }
    }

    /// Parses a wire text; `None` for unknown values.
    pub fn from_str(s: &str) -> (r: Option<NodePresenceAliveReasonSchema>)
        ensures
            r == NodePresenceAliveReasonSchema::spec_from_str(s@),
    {
        if str_eq(s, "background") {
            Some(NodePresenceAliveReasonSchema::Background)
        } else if str_eq(s, "silent_push") {
            Some(NodePresenceAliveReasonSchema::SilentPush)
        } else if str_eq(s, "bg_app_refresh") {
            Some(NodePresenceAliveReasonSchema::BgAppRefresh)
        } else if str_eq(s, "significant_location") {
            Some(NodePresenceAliveReasonSchema::SignificantLocation)
        } else if str_eq(s, "manual") {
            Some(NodePresenceAliveReasonSchema::Manual)
        } else if str_eq(s, "connect") {
            Some(NodePresenceAliveReasonSchema::Connect)
        } else {
            None
        }
    }

    /// Every value, in declaration order.
    pub open spec fn spec_all() -> Seq<NodePresenceAliveReasonSchema> {
        seq![NodePresenceAliveReasonSchema::Background, NodePresenceAliveReasonSchema::SilentPush, NodePresenceAliveReasonSchema::BgAppRefresh, NodePresenceAliveReasonSchema::SignificantLocation, NodePresenceAliveReasonSchema::Manual, NodePresenceAliveReasonSchema::Connect]
    }

    /// Every value, in declaration order.
    pub fn all() -> (r: &'static [NodePresenceAliveReasonSchema])
        ensures
            r@ == NodePresenceAliveReasonSchema::spec_all(),
    {
        &[NodePresenceAliveReasonSchema::Background, NodePresenceAliveReasonSchema::SilentPush, NodePresenceAliveReasonSchema::BgAppRefresh, NodePresenceAliveReasonSchema::SignificantLocation, NodePresenceAliveReasonSchema::Manual, NodePresenceAliveReasonSchema::Connect]
    }
}
/// `NodePresenceAliveReasonSchema::all` lists every value, each once.
pub proof fn node_presence_alive_reason_schema_all_lists_every_value(v: NodePresenceAliveReasonSchema)
    ensures
        NodePresenceAliveReasonSchema::spec_all().contains(v),
        NodePresenceAliveReasonSchema::spec_all().no_duplicates(),
{
    let all = NodePresenceAliveReasonSchema::spec_all();
    match v {
        NodePresenceAliveReasonSchema::Background => assert(all[0] == v),
        NodePresenceAliveReasonSchema::SilentPush => assert(all[1] == v),
        NodePresenceAliveReasonSchema::BgAppRefresh => assert(all[2] == v),
        NodePresenceAliveReasonSchema::SignificantLocation => assert(all[3] == v),
        NodePresenceAliveReasonSchema::Manual => assert(all[4] == v),
        NodePresenceAliveReasonSchema::Connect => assert(all[5] == v),
    }
}


/// The wire texts of `NodePresenceAliveReasonSchema` are distinct: parsing the text of a value
/// gives that value back, and a text that parses is the text of what it
/// parses to.
pub proof fn node_presence_alive_reason_schema_text_round_trip(v: NodePresenceAliveReasonSchema, s: Seq<char>)
    ensures
        NodePresenceAliveReasonSchema::spec_from_str(v.spec_as_str()) == Some(v),
        NodePresenceAliveReasonSchema::spec_from_str(s) matches Some(w) ==> w.spec_as_str() == s,
{
    reveal_strlit("background");
    reveal_strlit("silent_push");
    reveal_strlit("bg_app_refresh");
    reveal_strlit("significant_location");
    reveal_strlit("manual");
    reveal_strlit("connect");
    assert("background"@.len() == 10);
    assert("silent_push"@.len() == 11);
    assert("bg_app_refresh"@.len() == 14);
    assert("significant_location"@.len() == 20);
    assert("manual"@.len() == 6);
    assert("connect"@.len() == 7);
}

/// Returns true when `s` is the wire text of a `NodePresenceAliveReasonSchema`.
pub fn is_valid_node_presence_alive_reason(s: &str) -> (r: bool)
    ensures
        r == NodePresenceAliveReasonSchema::spec_from_str(s@) is Some,
{
    NodePresenceAliveReasonSchema::from_str(s).is_some()
}

// ---------------------------------------------------------------------------
// Presence
// ---------------------------------------------------------------------------

/// Presence heartbeat payload sent by remote nodes to refresh gateway state.
#[derive(Debug, Clone)]
pub struct NodePresenceAlivePayloadSchema {
    pub trigger: NodePresenceAliveReasonSchema,
    pub sent_at_ms: Option<i64>,
    pub display_name: Option<NonEmptyString>,
    pub version: Option<NonEmptyString>,
    pub platform: Option<NonEmptyString>,
    pub device_family: Option<NonEmptyString>,
    pub model_identifier: Option<NonEmptyString>,
    pub push_transport: Option<NonEmptyString>,
}

impl NodePresenceAlivePayloadSchema {
    /// `sentAtMs >= 0`, then each optional string non-empty.
    pub open spec fn check(&self) -> Outcome {
        also(opt_non_negative("sentAtMs"@, self.sent_at_ms),
        also(opt_non_empty("displayName"@, self.display_name),
        also(opt_non_empty("version"@, self.version),
        also(opt_non_empty("platform"@, self.platform),
        also(opt_non_empty("deviceFamily"@, self.device_family),
        also(opt_non_empty("modelIdentifier"@, self.model_identifier),
        opt_non_empty("pushTransport"@, self.push_transport)))))))
    }

    pub fn validate(&self) -> (r: Result<(), String>)
        ensures
            outcome(r) == self.check(),
    {
        let r = validate_opt_non_negative_integer("sentAtMs", self.sent_at_ms);
        if r.is_err() {
            return r;
        }
        let r = require_opt_non_empty("displayName", &self.display_name);
        if r.is_err() {
            return r;
        }
        let r = require_opt_non_empty("version", &self.version);
        if r.is_err() {
            return r;
        }
        let r = require_opt_non_empty("platform", &self.platform);
        if r.is_err() {
            return r;
        }
        let r = require_opt_non_empty("deviceFamily", &self.device_family);
        if r.is_err() {
            return r;
        }
        let r = require_opt_non_empty("modelIdentifier", &self.model_identifier);
        if r.is_err() {
            return r;
        }
        require_opt_non_empty("pushTransport", &self.push_transport)
    }
}

/// Recent operator input activity reported by an interactive node.
#[derive(Debug, Clone, Default)]
pub struct NodePresenceActivityPayloadSchema {
    pub idle_seconds: i64,
    pub saturated: Option<bool>,
}

impl NodePresenceActivityPayloadSchema {
    /// `idleSeconds` in `[0, 2592000]`.
    pub open spec fn check(&self) -> Outcome {
        int_in("idleSeconds"@, ": expected ["@, self.idle_seconds as int, 0, NODE_PRESENCE_IDLE_SECONDS_MAX as int, "], got "@)
    }

    pub fn validate(&self) -> (r: Result<(), String>)
        ensures
            outcome(r) == self.check(),
    {
        require_int_in("idleSeconds", ": expected [", self.idle_seconds, 0, NODE_PRESENCE_IDLE_SECONDS_MAX, "], got ")
    }
}

/// Normalized result of a node-originated event after gateway dispatch.
#[derive(Debug, Clone, Default)]
pub struct NodeEventResultSchema {
    pub ok: bool,
    pub event: NonEmptyString,
    pub handled: bool,
    pub reason: Option<NonEmptyString>,
}

impl NodeEventResultSchema {
    /// `event` non-empty, then `reason` when present.
    pub open spec fn check(&self) -> Outcome {
        also(non_empty("event"@, self.event@), opt_non_empty("reason"@, self.reason))
    }

    pub fn validate(&self) -> (r: Result<(), String>)
        ensures
            outcome(r) == self.check(),
    {
        let r = require_non_empty("event", self.event.as_str());
        if r.is_err() {
            return r;
        }
        require_opt_non_empty("reason", &self.reason)
    }
}

// ---------------------------------------------------------------------------
// Pairing and listing
// ---------------------------------------------------------------------------

/// Lists pending node-pairing requests.
#[derive(Debug, Clone, Default)]
pub struct NodePairListParamsSchema {}

impl NodePairListParamsSchema {
    /// No fields to check.
    pub fn validate(&self) -> (r: Result<(), String>)
        ensures
            r is Ok,
    {
        Ok(())
    }
}

/// Approves a pending node-pairing request by request id.
#[derive(Debug, Clone, Default)]
pub struct NodePairApproveParamsSchema {
    pub request_id: NonEmptyString,
}

impl NodePairApproveParamsSchema {
    /// `requestId` non-empty.
    pub open spec fn check(&self) -> Outcome {
        non_empty("requestId"@, self.request_id@)
    }

    pub fn validate(&self) -> (r: Result<(), String>)
        ensures
            outcome(r) == self.check(),
    {
        require_non_empty("requestId", self.request_id.as_str())
    }
}

/// Rejects a pending node-pairing request by request id.
#[derive(Debug, Clone, Default)]
pub struct NodePairRejectParamsSchema {
    pub request_id: NonEmptyString,
}

impl NodePairRejectParamsSchema {
    /// `requestId` non-empty.
    pub open spec fn check(&self) -> Outcome {
        non_empty("requestId"@, self.request_id@)
    }

    pub fn validate(&self) -> (r: Result<(), String>)
        ensures
            outcome(r) == self.check(),
    {
        require_non_empty("requestId", self.request_id.as_str())
    }
}

/// Removes an already paired node from the gateway trust set.
#[derive(Debug, Clone, Default)]
pub struct NodePairRemoveParamsSchema {
    pub node_id: NonEmptyString,
}

impl NodePairRemoveParamsSchema {
    /// `nodeId` non-empty.
    pub open spec fn check(&self) -> Outcome {
        non_empty("nodeId"@, self.node_id@)
    }

    pub fn validate(&self) -> (r: Result<(), String>)
        ensures
            outcome(r) == self.check(),
    {
        require_non_empty("nodeId", self.node_id.as_str())
    }
}

/// Renames a paired node while preserving its stable node id.
#[derive(Debug, Clone, Default)]
pub struct NodeRenameParamsSchema {
    pub node_id: NonEmptyString,
    pub display_name: NonEmptyString,
}

impl NodeRenameParamsSchema {
    /// `nodeId`, then `displayName`, non-empty.
    pub open spec fn check(&self) -> Outcome {
        also(non_empty("nodeId"@, self.node_id@), non_empty("displayName"@, self.display_name@))
    }

    pub fn validate(&self) -> (r: Result<(), String>)
        ensures
            outcome(r) == self.check(),
    {
        let r = require_non_empty("nodeId", self.node_id.as_str());
        if r.is_err() {
            return r;
        }
        require_non_empty("displayName", self.display_name.as_str())
    }
}

/// Lists paired nodes known to the gateway.
#[derive(Debug, Clone, Default)]
pub struct NodeListParamsSchema {}

impl NodeListParamsSchema {
    /// No fields to check.
    pub fn validate(&self) -> (r: Result<(), String>)
        ensures
            r is Ok,
    {
        Ok(())
    }
}

// ---------------------------------------------------------------------------
// Plugin tool and skill catalogs
// ---------------------------------------------------------------------------

/// MCP tool routing block attached to a plugin tool descriptor.
#[derive(Debug, Clone, Default)]
pub struct NodePluginToolMcpSchema {
    pub server: NonEmptyString,
    pub tool: NonEmptyString,
}

impl NodePluginToolMcpSchema {
    /// `server`, then `tool`, non-empty.
    pub open spec fn check(&self) -> Outcome {
        also(non_empty("server"@, self.server@), non_empty("tool"@, self.tool@))
    }

    pub fn validate(&self) -> (r: Result<(), String>)
        ensures
            outcome(r) == self.check(),
    {
        let r = require_non_empty("server", self.server.as_str());
        if r.is_err() {
            return r;
        }
        require_non_empty("tool", self.tool.as_str())
    }
}

/// Agent-visible tool descriptor advertised by a connected node.
#[derive(Debug, Clone)]
pub struct NodePluginToolDescriptorSchema {
    pub plugin_id: NonEmptyString,
    pub name: NodePluginToolNameSchema,
    pub description: NonEmptyString,
    pub parameters: Option<std::collections::BTreeMap<String, serde_json::Value>>,
    pub command: Option<NonEmptyString>,
    pub mcp: Option<NodePluginToolMcpSchema>,
}

impl NodePluginToolDescriptorSchema {
    /// Plugin id, the tool name grammar, description, command, then the MCP
    /// block (prefixed `mcp: `).
    pub open spec fn check(&self) -> Outcome {
        also(non_empty("pluginId"@, self.plugin_id@),
        also(reject(!is_node_plugin_tool_name(self.name@), "name: invalid plugin tool name: "@ + str_debug(self.name@)),
        also(non_empty("description"@, self.description@),
        also(opt_non_empty("command"@, self.command),
        match self.mcp {
            Some(m) => within("mcp: "@, m.check()),
            None => Ok(()),
        }))))
    }

    pub fn validate(&self) -> (r: Result<(), String>)
        ensures
            outcome(r) == self.check(),
    {
        let r = require_non_empty("pluginId", self.plugin_id.as_str());
        if r.is_err() {
            return r;
        }
        if !is_valid_node_plugin_tool_name(self.name.as_str()) {
            let shown = debug_text(self.name.as_str());
            let mut m = String::from_str("name: invalid plugin tool name: ");
            m.append(shown.as_str());
            return Err(m);
        }
        let r = require_non_empty("description", self.description.as_str());
        if r.is_err() {
            return r;
        }
        let r = require_opt_non_empty("command", &self.command);
        if r.is_err() {
            return r;
        }
        match &self.mcp {
            Some(m) => prefixed("mcp: ", m.validate()),
            None => Ok(()),
        }
    }
}

impl Checked for NodePluginToolDescriptorSchema {
    open spec fn checks(&self) -> Outcome {
        self.check()
    }

    fn run_checks(&self) -> (r: Result<(), String>) {
        self.validate()
    }
}

/// Replaces the connected node's dynamic agent-visible plugin and MCP tool
/// catalog.
#[derive(Debug, Clone, Default)]
pub struct NodePluginToolsUpdateParamsSchema {
    pub tools: Vec<NodePluginToolDescriptorSchema>,
}

impl NodePluginToolsUpdateParamsSchema {
    /// Each tool in order, reported as `tools[i]: message`.
    pub open spec fn check(&self) -> Outcome {
        each_checked("tools"@, self.tools@, 0)
    }

    pub fn validate(&self) -> (r: Result<(), String>)
        ensures
            outcome(r) == self.check(),
    {
        validate_each("tools", &self.tools)
    }
}

/// Agent-visible skill descriptor advertised by a connected node.
#[derive(Debug, Clone, Default)]
pub struct NodeSkillDescriptorSchema {
    pub name: NodeSkillNameSchema,
    pub description: String,
    pub content: String,
}

impl NodeSkillDescriptorSchema {
    /// The skill name grammar, a description of 1..=1024 and a content of
    /// 1..=65536 characters.
    pub open spec fn check(&self) -> Outcome {
        also(reject(!is_node_skill_name(self.name@), "name: invalid skill name: "@ + str_debug(self.name@)),
        also(count_in(
            "description"@,
            ": expected length ["@,
            self.description@.len() as int,
            NODE_SKILL_DESCRIPTION_MIN_LENGTH as int,
            NODE_SKILL_DESCRIPTION_MAX_LENGTH as int,
            "], got "@,
        ),
        count_in(
            "content"@,
            ": expected length ["@,
            self.content@.len() as int,
            NODE_SKILL_CONTENT_MIN_LENGTH as int,
            NODE_SKILL_CONTENT_MAX_LENGTH as int,
            "], got "@,
        )))
    }

    pub fn validate(&self) -> (r: Result<(), String>)
        ensures
            outcome(r) == self.check(),
    {
        if !is_valid_node_skill_name(self.name.as_str()) {
            let shown = debug_text(self.name.as_str());
            let mut m = String::from_str("name: invalid skill name: ");
            m.append(shown.as_str());
            return Err(m);
        }
        let r = require_count_in(
            "description",
            ": expected length [",
            self.description.unicode_len(),
            NODE_SKILL_DESCRIPTION_MIN_LENGTH,
            NODE_SKILL_DESCRIPTION_MAX_LENGTH,
            "], got ",
        );
        if r.is_err() {
            return r;
        }
        require_count_in(
            "content",
            ": expected length [",
            self.content.unicode_len(),
            NODE_SKILL_CONTENT_MIN_LENGTH,
            NODE_SKILL_CONTENT_MAX_LENGTH,
            "], got ",
        )
    }
}

impl Checked for NodeSkillDescriptorSchema {
    open spec fn checks(&self) -> Outcome {
        self.check()
    }

    fn run_checks(&self) -> (r: Result<(), String>) {
        self.validate()
    }
}

/// Replaces the connected node's agent-visible skill catalog.
#[derive(Debug, Clone, Default)]
pub struct NodeSkillsUpdateParamsSchema {
    pub skills: Vec<NodeSkillDescriptorSchema>,
}

impl NodeSkillsUpdateParamsSchema {
    /// At most 64 skills (`skills: maxItems 64, got n`), then each skill in
    /// order, reported as `skills[i]: message`.
    pub open spec fn check(&self) -> Outcome {
        also(
            reject(
                self.skills@.len() > NODE_SKILL_LIST_MAX_ITEMS,
                bound_msg("skills"@, ": maxItems "@, NODE_SKILL_LIST_MAX_ITEMS as int, ", got "@, self.skills@.len() as int),
            ),
            each_checked("skills"@, self.skills@, 0),
        )
    }

    pub fn validate(&self) -> (r: Result<(), String>)
        ensures
            outcome(r) == self.check(),
    {
        if self.skills.len() > NODE_SKILL_LIST_MAX_ITEMS {
            return Err(count_bound_msg_text("skills", ": maxItems ", NODE_SKILL_LIST_MAX_ITEMS, ", got ", self.skills.len()));
        }
        validate_each("skills", &self.skills)
    }
}

// ---------------------------------------------------------------------------
// Pending work acknowledgement and description
// ---------------------------------------------------------------------------

/// Acknowledges queued node work that the node has consumed.
#[derive(Debug, Clone, Default)]
pub struct NodePendingAckParamsSchema {
    pub ids: Vec<NonEmptyString>,
}

impl NodePendingAckParamsSchema {
    /// At least one id (`ids: minItems 1, got 0`), each non-empty.
    pub open spec fn check(&self) -> Outcome {
        also(reject(self.ids@.len() == 0, "ids: minItems 1, got 0"@), each_non_empty("ids"@, self.ids@, 0))
    }

    pub fn validate(&self) -> (r: Result<(), String>)
        ensures
            outcome(r) == self.check(),
    {
        if self.ids.len() == 0 {
            return Err(String::from_str("ids: minItems 1, got 0"));
        }
        require_each_non_empty("ids", &self.ids)
    }
}

/// Requests detailed metadata for one paired node.
#[derive(Debug, Clone, Default)]
pub struct NodeDescribeParamsSchema {
    pub node_id: NonEmptyString,
}

impl NodeDescribeParamsSchema {
    /// `nodeId` non-empty.
    pub open spec fn check(&self) -> Outcome {
        non_empty("nodeId"@, self.node_id@)
    }

    pub fn validate(&self) -> (r: Result<(), String>)
        ensures
            outcome(r) == self.check(),
    {
        require_non_empty("nodeId", self.node_id.as_str())
    }
}

// ---------------------------------------------------------------------------
// Command invocation
// ---------------------------------------------------------------------------

/// `turnSourceThreadId`: a string or a number.
#[derive(Debug, Clone)]
pub enum NodeInvokeThreadId {
    Text(String),
    Number(NumberValue),
}

/// Invokes a command on a paired node; idempotency allows safe retries.
#[derive(Debug, Clone)]
pub struct NodeInvokeParamsSchema {
    pub node_id: NonEmptyString,
    pub command: NonEmptyString,
    pub params: Option<serde_json::Value>,
    pub timeout_ms: Option<i64>,
    pub idempotency_key: NonEmptyString,
    pub turn_source_channel: Option<String>,
    pub turn_source_to: Option<String>,
    pub turn_source_account_id: Option<String>,
    pub turn_source_thread_id: Option<NodeInvokeThreadId>,
}

impl NodeInvokeParamsSchema {
    /// Node id, command, `timeoutMs >= 0`, then the idempotency key.
    pub open spec fn check(&self) -> Outcome {
        also(non_empty("nodeId"@, self.node_id@),
        also(non_empty("command"@, self.command@),
        also(opt_non_negative("timeoutMs"@, self.timeout_ms),
        non_empty("idempotencyKey"@, self.idempotency_key@))))
    }

    pub fn validate(&self) -> (r: Result<(), String>)
        ensures
            outcome(r) == self.check(),
    {
        let r = require_non_empty("nodeId", self.node_id.as_str());
        if r.is_err() {
            return r;
        }
        let r = require_non_empty("command", self.command.as_str());
        if r.is_err() {
            return r;
        }
        let r = validate_opt_non_negative_integer("timeoutMs", self.timeout_ms);
        if r.is_err() {
            return r;
        }
        require_non_empty("idempotencyKey", self.idempotency_key.as_str())
    }
}

/// A `node.invoke` request names the node and the command it runs: one that
/// passes has a non-empty node id, command and idempotency key, and with a
/// node id present an empty command fails with `command: expected non-empty
/// string, got ""`.
pub proof fn invoke_params_name_a_command(p: NodeInvokeParamsSchema)
    ensures
        p.check() is Ok ==> p.node_id@.len() > 0 && p.command@.len() > 0 && p.idempotency_key@.len() > 0,
        p.node_id@.len() > 0 && p.command@.len() == 0 ==> p.check() == Err::<(), Seq<char>>(
            crate::checks::non_empty_msg("command"@, Seq::empty()),
        ),
{
    if p.command@.len() == 0 {
        assert(p.command@ =~= Seq::<char>::empty());
    }
}

/// Error block attached to invocation result payloads.
#[derive(Debug, Clone, Default)]
pub struct NodeInvokeResultErrorSchema {
    pub code: Option<NonEmptyString>,
    pub message: Option<NonEmptyString>,
}

impl NodeInvokeResultErrorSchema {
    /// `code`, then `message`, non-empty when present.
    pub open spec fn check(&self) -> Outcome {
        also(opt_non_empty("code"@, self.code), opt_non_empty("message"@, self.message))
    }

    pub fn validate(&self) -> (r: Result<(), String>)
        ensures
            outcome(r) == self.check(),
    {
        let r = require_opt_non_empty("code", &self.code);
        if r.is_err() {
            return r;
        }
        require_opt_non_empty("message", &self.message)
    }
}

/// Result callback payload of a node command invocation.
#[derive(Debug, Clone)]
pub struct NodeInvokeResultParamsSchema {
    pub id: NonEmptyString,
    pub node_id: NonEmptyString,
    pub ok: bool,
    pub payload: Option<serde_json::Value>,
    pub payload_json: Option<String>,
    pub error: Option<NodeInvokeResultErrorSchema>,
}

impl NodeInvokeResultParamsSchema {
    /// `id`, `nodeId`, then the error block (prefixed `error: `).
    pub open spec fn check(&self) -> Outcome {
        also(non_empty("id"@, self.id@),
        also(non_empty("nodeId"@, self.node_id@),
        match self.error {
            Some(e) => within("error: "@, e.check()),
            None => Ok(()),
        }))
    }

    pub fn validate(&self) -> (r: Result<(), String>)
        ensures
            outcome(r) == self.check(),
    {
        let r = require_non_empty("id", self.id.as_str());
        if r.is_err() {
            return r;
        }
        let r = require_non_empty("nodeId", self.node_id.as_str());
        if r.is_err() {
            return r;
        }
        match &self.error {
            Some(e) => prefixed("error: ", e.validate()),
            None => Ok(()),
        }
    }
}

/// Generic node event envelope accepted by the gateway.
#[derive(Debug, Clone)]
pub struct NodeEventParamsSchema {
    pub event: NonEmptyString,
    pub payload: Option<serde_json::Value>,
    pub payload_json: Option<String>,
}

impl NodeEventParamsSchema {
    /// `event` non-empty.
    pub open spec fn check(&self) -> Outcome {
        non_empty("event"@, self.event@)
    }

    pub fn validate(&self) -> (r: Result<(), String>)
        ensures
            outcome(r) == self.check(),
    {
        require_non_empty("event", self.event.as_str())
    }
}

// ---------------------------------------------------------------------------
// Pending work drain and enqueue
// ---------------------------------------------------------------------------

/// Request for a bounded batch of queued work assigned to the calling node.
#[derive(Debug, Clone, Default)]
pub struct NodePendingDrainParamsSchema {
    pub max_items: Option<i64>,
}

impl NodePendingDrainParamsSchema {
    /// `maxItems` in `[1, 10]`.
    pub open spec fn check(&self) -> Outcome {
        opt_int_in(
            "maxItems"@,
            ": expected ["@,
            self.max_items,
            NODE_PENDING_DRAIN_MAX_ITEMS_MIN as int,
            NODE_PENDING_DRAIN_MAX_ITEMS_MAX as int,
            "], got "@,
        )
    }

    pub fn validate(&self) -> (r: Result<(), String>)
        ensures
            outcome(r) == self.check(),
    {
        require_opt_int_in(
            "maxItems",
            ": expected [",
            self.max_items,
            NODE_PENDING_DRAIN_MAX_ITEMS_MIN,
            NODE_PENDING_DRAIN_MAX_ITEMS_MAX,
            "], got ",
        )
    }
}

/// `expiresAtMs`: a non-negative integer or `null`.
#[derive(Debug)]
pub enum NodeExpiresAtMs {
    Millis(i64),
    Null(serde_json::Value),
}

/// One queued node-work item returned by pending-work drain calls.
#[derive(Debug)]
pub struct NodePendingDrainItemSchema {
    pub id: NonEmptyString,
    pub work_type: NodePendingWorkTypeSchema,
    pub priority: NodePendingDrainPrioritySchema,
    pub created_at_ms: i64,
    pub expires_at_ms: Option<NodeExpiresAtMs>,
    pub payload: Option<std::collections::BTreeMap<String, serde_json::Value>>,
}

impl NodePendingDrainItemSchema {
    /// `id`, `createdAtMs >= 0`, then an integer `expiresAtMs >= 0`.
    pub open spec fn check(&self) -> Outcome {
        also(non_empty("id"@, self.id@),
        also(non_negative("createdAtMs"@, self.created_at_ms as int),
        match self.expires_at_ms {
            Some(NodeExpiresAtMs::Millis(m)) => non_negative("expiresAtMs"@, m as int),
            _ => Ok(()),
        }))
    }

    pub fn validate(&self) -> (r: Result<(), String>)
        ensures
            outcome(r) == self.check(),
    {
        let r = require_non_empty("id", self.id.as_str());
        if r.is_err() {
            return r;
        }
        let r = validate_non_negative_integer("createdAtMs", self.created_at_ms);
        if r.is_err() {
            return r;
        }
        match &self.expires_at_ms {
            Some(NodeExpiresAtMs::Millis(m)) => validate_non_negative_integer("expiresAtMs", *m),
            _ => Ok(()),
        }
    }
}

impl Checked for NodePendingDrainItemSchema {
    open spec fn checks(&self) -> Outcome {
        self.check()
    }

    fn run_checks(&self) -> (r: Result<(), String>) {
        self.validate()
    }
}

/// Drain response with a revision marker of the node queue state.
#[derive(Debug)]
pub struct NodePendingDrainResultSchema {
    pub node_id: NonEmptyString,
    pub revision: i64,
    pub items: Vec<NodePendingDrainItemSchema>,
    pub has_more: bool,
}

impl NodePendingDrainResultSchema {
    /// `nodeId`, `revision >= 0`, then each item (`items[i]: message`).
    pub open spec fn check(&self) -> Outcome {
        also(non_empty("nodeId"@, self.node_id@),
        also(non_negative("revision"@, self.revision as int),
        each_checked("items"@, self.items@, 0)))
    }

    pub fn validate(&self) -> (r: Result<(), String>)
        ensures
            outcome(r) == self.check(),
    {
        let r = require_non_empty("nodeId", self.node_id.as_str());
        if r.is_err() {
            return r;
        }
        let r = validate_non_negative_integer("revision", self.revision);
        if r.is_err() {
            return r;
        }
        validate_each("items", &self.items)
    }
}

/// Enqueues gateway-initiated work for a paired node.
#[derive(Debug, Clone)]
pub struct NodePendingEnqueueParamsSchema {
    pub node_id: NonEmptyString,
    pub work_type: NodePendingWorkTypeSchema,
    pub priority: Option<NodePendingWorkPrioritySchema>,
    pub expires_in_ms: Option<i64>,
    pub wake: Option<bool>,
}

impl NodePendingEnqueueParamsSchema {
    /// `nodeId`, then `expiresInMs` in `[1000, 86400000]`.
    pub open spec fn check(&self) -> Outcome {
        also(
            non_empty("nodeId"@, self.node_id@),
            opt_int_in("expiresInMs"@, ": expected ["@, self.expires_in_ms, 1_000, 86_400_000, "], got "@),
        )
    }

    pub fn validate(&self) -> (r: Result<(), String>)
        ensures
            outcome(r) == self.check(),
    {
        let r = require_non_empty("nodeId", self.node_id.as_str());
        if r.is_err() {
            return r;
        }
        require_opt_int_in("expiresInMs", ": expected [", self.expires_in_ms, 1_000, 86_400_000, "], got ")
    }
}

/// Enqueue result echoing the queue revision and whether a wake was
/// attempted.
#[derive(Debug)]
pub struct NodePendingEnqueueResultSchema {
    pub node_id: NonEmptyString,
    pub revision: i64,
    pub queued: NodePendingDrainItemSchema,
    pub wake_triggered: bool,
}

impl NodePendingEnqueueResultSchema {
    /// `nodeId`, `revision >= 0`, then the queued item (prefixed `queued: `).
    pub open spec fn check(&self) -> Outcome {
        also(non_empty("nodeId"@, self.node_id@),
        also(non_negative("revision"@, self.revision as int),
        within("queued: "@, self.queued.check())))
    }

    pub fn validate(&self) -> (r: Result<(), String>)
        ensures
            outcome(r) == self.check(),
    {
        let r = require_non_empty("nodeId", self.node_id.as_str());
        if r.is_err() {
            return r;
        }
        let r = validate_non_negative_integer("revision", self.revision);
        if r.is_err() {
            return r;
        }
        prefixed("queued: ", self.queued.validate())
    }
}

/// Event payload the gateway uses to ask a node to run a command.
#[derive(Debug, Clone, Default)]
pub struct NodeInvokeRequestEventSchema {
    pub id: NonEmptyString,
    pub node_id: NonEmptyString,
    pub command: NonEmptyString,
    pub params_json: Option<String>,
    pub timeout_ms: Option<i64>,
    pub idempotency_key: Option<NonEmptyString>,
}

impl NodeInvokeRequestEventSchema {
    /// `id`, `nodeId`, `command`, `timeoutMs >= 0`, then the idempotency key
    /// when present.
    pub open spec fn check(&self) -> Outcome {
        also(non_empty("id"@, self.id@),
        also(non_empty("nodeId"@, self.node_id@),
        also(non_empty("command"@, self.command@),
        also(opt_non_negative("timeoutMs"@, self.timeout_ms),
        opt_non_empty("idempotencyKey"@, self.idempotency_key)))))
    }

    pub fn validate(&self) -> (r: Result<(), String>)
        ensures
            outcome(r) == self.check(),
    {
        let r = require_non_empty("id", self.id.as_str());
        if r.is_err() {
            return r;
        }
        let r = require_non_empty("nodeId", self.node_id.as_str());
        if r.is_err() {
            return r;
        }
        let r = require_non_empty("command", self.command.as_str());
        if r.is_err() {
            return r;
        }
        let r = validate_opt_non_negative_integer("timeoutMs", self.timeout_ms);
        if r.is_err() {
            return r;
        }
        require_opt_non_empty("idempotencyKey", &self.idempotency_key)
    }
}

/// Wire-type names of the schemas above.
pub type NodePairListParams = NodePairListParamsSchema;
pub type NodePairApproveParams = NodePairApproveParamsSchema;
pub type NodePairRejectParams = NodePairRejectParamsSchema;
pub type NodePairRemoveParams = NodePairRemoveParamsSchema;
pub type NodeRenameParams = NodeRenameParamsSchema;
pub type NodeListParams = NodeListParamsSchema;
pub type NodePendingAckParams = NodePendingAckParamsSchema;
pub type NodeDescribeParams = NodeDescribeParamsSchema;
pub type NodeInvokeParams = NodeInvokeParamsSchema;
pub type NodeInvokeResultParams = NodeInvokeResultParamsSchema;
pub type NodeEventParams = NodeEventParamsSchema;
pub type NodeEventResult = NodeEventResultSchema;
pub type NodePresenceAlivePayload = NodePresenceAlivePayloadSchema;
pub type NodePresenceAliveReason = NodePresenceAliveReasonSchema;
pub type NodePresenceActivityPayload = NodePresenceActivityPayloadSchema;
pub type NodePendingDrainParams = NodePendingDrainParamsSchema;
pub type NodePendingDrainResult = NodePendingDrainResultSchema;
pub type NodePendingEnqueueParams = NodePendingEnqueueParamsSchema;
pub type NodePendingEnqueueResult = NodePendingEnqueueResultSchema;
pub type NodePluginToolDescriptor = NodePluginToolDescriptorSchema;
pub type NodePluginToolsUpdateParams = NodePluginToolsUpdateParamsSchema;
pub type NodeSkillDescriptor = NodeSkillDescriptorSchema;

// ---------------------------------------------------------------------------
// What each schema accepts
// ---------------------------------------------------------------------------

/// A `NodePresenceAlivePayloadSchema` passes validation exactly when every condition below holds;
/// a value that breaks one is rejected.
pub proof fn node_presence_alive_payload_schema_accepts(x: NodePresenceAlivePayloadSchema)
    ensures
        x.check() is Ok <==> {
            &&& (x.sent_at_ms matches Some(n) ==> n >= 0)
            &&& (x.display_name matches Some(s) ==> s@.len() > 0)
            &&& (x.version matches Some(s) ==> s@.len() > 0)
            &&& (x.platform matches Some(s) ==> s@.len() > 0)
            &&& (x.device_family matches Some(s) ==> s@.len() > 0)
            &&& (x.model_identifier matches Some(s) ==> s@.len() > 0)
            &&& (x.push_transport matches Some(s) ==> s@.len() > 0)
        },
{
}

/// A `NodeEventResultSchema` passes validation exactly when every condition below holds;
/// a value that breaks one is rejected.
pub proof fn node_event_result_schema_accepts(x: NodeEventResultSchema)
    ensures
        x.check() is Ok <==> {
            &&& x.event@.len() > 0
            &&& (x.reason matches Some(s) ==> s@.len() > 0)
        },
{
}

/// A `NodePairApproveParamsSchema` passes validation exactly when every condition below holds;
/// a value that breaks one is rejected.
pub proof fn node_pair_approve_params_schema_accepts(x: NodePairApproveParamsSchema)
    ensures
        x.check() is Ok <==> {
            &&& x.request_id@.len() > 0
        },
{
}

/// A `NodePairRejectParamsSchema` passes validation exactly when every condition below holds;
/// a value that breaks one is rejected.
pub proof fn node_pair_reject_params_schema_accepts(x: NodePairRejectParamsSchema)
    ensures
        x.check() is Ok <==> {
            &&& x.request_id@.len() > 0
        },
{
}

/// A `NodePairRemoveParamsSchema` passes validation exactly when every condition below holds;
/// a value that breaks one is rejected.
pub proof fn node_pair_remove_params_schema_accepts(x: NodePairRemoveParamsSchema)
    ensures
        x.check() is Ok <==> {
            &&& x.node_id@.len() > 0
        },
{
}

/// A `NodeRenameParamsSchema` passes validation exactly when every condition below holds;
/// a value that breaks one is rejected.
pub proof fn node_rename_params_schema_accepts(x: NodeRenameParamsSchema)
    ensures
        x.check() is Ok <==> {
            &&& x.node_id@.len() > 0
            &&& x.display_name@.len() > 0
        },
{
}

/// A `NodePluginToolMcpSchema` passes validation exactly when every condition below holds;
/// a value that breaks one is rejected.
pub proof fn node_plugin_tool_mcp_schema_accepts(x: NodePluginToolMcpSchema)
    ensures
        x.check() is Ok <==> {
            &&& x.server@.len() > 0
            &&& x.tool@.len() > 0
        },
{
}

/// A `NodePluginToolDescriptorSchema` passes validation exactly when every condition below holds;
/// a value that breaks one is rejected.
pub proof fn node_plugin_tool_descriptor_schema_accepts(x: NodePluginToolDescriptorSchema)
    ensures
        x.check() is Ok <==> {
            &&& x.plugin_id@.len() > 0
            &&& !(!is_node_plugin_tool_name(x.name@))
            &&& x.description@.len() > 0
            &&& (x.command matches Some(s) ==> s@.len() > 0)
            &&& (x.mcp matches Some(m) ==> m.check() is Ok)
        },
{
}

/// A `NodePluginToolsUpdateParamsSchema` passes validation exactly when every condition below holds;
/// a value that breaks one is rejected.
pub proof fn node_plugin_tools_update_params_schema_accepts(x: NodePluginToolsUpdateParamsSchema)
    ensures
        x.check() is Ok <==> {
            &&& (forall|k: int| 0 <= k < x.tools@.len() ==> (#[trigger] x.tools@[k]).checks() is Ok)
        },
{
    crate::checks::each_checked_first_failure("tools"@, x.tools@, 0);
}

/// A `NodeSkillsUpdateParamsSchema` passes validation exactly when every condition below holds;
/// a value that breaks one is rejected.
pub proof fn node_skills_update_params_schema_accepts(x: NodeSkillsUpdateParamsSchema)
    ensures
        x.check() is Ok <==> {
            &&& !(x.skills@.len() > NODE_SKILL_LIST_MAX_ITEMS)
            &&& (forall|k: int| 0 <= k < x.skills@.len() ==> (#[trigger] x.skills@[k]).checks() is Ok)
        },
{
    crate::checks::each_checked_first_failure("skills"@, x.skills@, 0);
}

/// A `NodeDescribeParamsSchema` passes validation exactly when every condition below holds;
/// a value that breaks one is rejected.
pub proof fn node_describe_params_schema_accepts(x: NodeDescribeParamsSchema)
    ensures
        x.check() is Ok <==> {
            &&& x.node_id@.len() > 0
        },
{
}

/// A `NodeInvokeParamsSchema` passes validation exactly when every condition below holds;
/// a value that breaks one is rejected.
pub proof fn node_invoke_params_schema_accepts(x: NodeInvokeParamsSchema)
    ensures
        x.check() is Ok <==> {
            &&& x.node_id@.len() > 0
            &&& x.command@.len() > 0
            &&& (x.timeout_ms matches Some(n) ==> n >= 0)
            &&& x.idempotency_key@.len() > 0
        },
{
}

/// A `NodeInvokeResultErrorSchema` passes validation exactly when every condition below holds;
/// a value that breaks one is rejected.
pub proof fn node_invoke_result_error_schema_accepts(x: NodeInvokeResultErrorSchema)
    ensures
        x.check() is Ok <==> {
            &&& (x.code matches Some(s) ==> s@.len() > 0)
            &&& (x.message matches Some(s) ==> s@.len() > 0)
        },
{
}

/// A `NodeInvokeResultParamsSchema` passes validation exactly when every condition below holds;
/// a value that breaks one is rejected.
pub proof fn node_invoke_result_params_schema_accepts(x: NodeInvokeResultParamsSchema)
    ensures
        x.check() is Ok <==> {
            &&& x.id@.len() > 0
            &&& x.node_id@.len() > 0
            &&& (x.error matches Some(e) ==> e.check() is Ok)
        },
{
}

/// A `NodeEventParamsSchema` passes validation exactly when every condition below holds;
/// a value that breaks one is rejected.
pub proof fn node_event_params_schema_accepts(x: NodeEventParamsSchema)
    ensures
        x.check() is Ok <==> {
            &&& x.event@.len() > 0
        },
{
}

/// A `NodePendingDrainResultSchema` passes validation exactly when every condition below holds;
/// a value that breaks one is rejected.
pub proof fn node_pending_drain_result_schema_accepts(x: NodePendingDrainResultSchema)
    ensures
        x.check() is Ok <==> {
            &&& x.node_id@.len() > 0
            &&& x.revision as int >= 0
            &&& (forall|k: int| 0 <= k < x.items@.len() ==> (#[trigger] x.items@[k]).checks() is Ok)
        },
{
    crate::checks::each_checked_first_failure("items"@, x.items@, 0);
}

/// A `NodePendingEnqueueResultSchema` passes validation exactly when every condition below holds;
/// a value that breaks one is rejected.
pub proof fn node_pending_enqueue_result_schema_accepts(x: NodePendingEnqueueResultSchema)
    ensures
        x.check() is Ok <==> {
            &&& x.node_id@.len() > 0
            &&& x.revision as int >= 0
            &&& x.queued.check() is Ok
        },
{
}

/// A `NodeInvokeRequestEventSchema` passes validation exactly when every condition below holds;
/// a value that breaks one is rejected.
pub proof fn node_invoke_request_event_schema_accepts(x: NodeInvokeRequestEventSchema)
    ensures
        x.check() is Ok <==> {
            &&& x.id@.len() > 0
            &&& x.node_id@.len() > 0
            &&& x.command@.len() > 0
            &&& (x.timeout_ms matches Some(n) ==> n >= 0)
            &&& (x.idempotency_key matches Some(s) ==> s@.len() > 0)
        },
{
}

/// A `NodePresenceActivityPayloadSchema` passes validation exactly when every condition below holds;
/// a value that breaks one is rejected.
pub proof fn node_presence_activity_payload_schema_accepts(x: NodePresenceActivityPayloadSchema)
    ensures
        x.check() is Ok <==> {
            &&& 0 <= x.idle_seconds as int <= NODE_PRESENCE_IDLE_SECONDS_MAX as int
        },
{
}

/// A `NodeSkillDescriptorSchema` passes validation exactly when every condition below holds;
/// a value that breaks one is rejected.
pub proof fn node_skill_descriptor_schema_accepts(x: NodeSkillDescriptorSchema)
    ensures
        x.check() is Ok <==> {
            &&& !(!is_node_skill_name(x.name@))
            &&& NODE_SKILL_DESCRIPTION_MIN_LENGTH as int <= x.description@.len() as int <= NODE_SKILL_DESCRIPTION_MAX_LENGTH as int
            &&& NODE_SKILL_CONTENT_MIN_LENGTH as int <= x.content@.len() as int <= NODE_SKILL_CONTENT_MAX_LENGTH as int
        },
{
}

/// A `NodePendingAckParamsSchema` passes validation exactly when every condition below holds;
/// a value that breaks one is rejected.
pub proof fn node_pending_ack_params_schema_accepts(x: NodePendingAckParamsSchema)
    ensures
        x.check() is Ok <==> {
            &&& !(x.ids@.len() == 0)
            &&& (forall|k: int| 0 <= k < x.ids@.len() ==> (#[trigger] x.ids@[k])@.len() > 0)
        },
{
    crate::checks::each_non_empty_all_pass("ids"@, x.ids@, 0);
}

/// A `NodePendingDrainParamsSchema` passes validation exactly when every condition below holds;
/// a value that breaks one is rejected.
pub proof fn node_pending_drain_params_schema_accepts(x: NodePendingDrainParamsSchema)
    ensures
        x.check() is Ok <==> {
            &&& (x.max_items matches Some(n) ==> NODE_PENDING_DRAIN_MAX_ITEMS_MIN as int <= n <= NODE_PENDING_DRAIN_MAX_ITEMS_MAX as int)
        },
{
}

/// A `NodePendingEnqueueParamsSchema` passes validation exactly when every condition below holds;
/// a value that breaks one is rejected.
pub proof fn node_pending_enqueue_params_schema_accepts(x: NodePendingEnqueueParamsSchema)
    ensures
        x.check() is Ok <==> {
            &&& x.node_id@.len() > 0
            &&& (x.expires_in_ms matches Some(n) ==> 1_000 <= n <= 86_400_000)
        },
{
}

/// A drained work item passes validation exactly when its id is non-empty,
/// `createdAtMs >= 0` and an integer expiry is `>= 0`.
pub proof fn node_pending_drain_item_schema_accepts(x: NodePendingDrainItemSchema)
    ensures
        x.check() is Ok <==> {
            &&& x.id@.len() > 0
            &&& x.created_at_ms >= 0
            &&& (x.expires_at_ms matches Some(NodeExpiresAtMs::Millis(m)) ==> m >= 0)
        },
{
}

} // verus!
