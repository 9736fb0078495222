//! Approver decisions accepted for plugin approvals.
use vstd::prelude::*;
use crate::text::str_eq;

verus! {

pub const ALLOW_ONCE: &'static str = "allow-once";
pub const ALLOW_ALWAYS: &'static str = "allow-always";
pub const DENY: &'static str = "deny";

/// The allowed values, in order.
pub open spec fn spec_all() -> Seq<Seq<char>> {
    seq!["allow-once"@, "allow-always"@, "deny"@]
}

/// All allowed values.
pub fn all() -> (r: &'static [&'static str])
    ensures
        r@.map_values(|s: &str| s@) == spec_all(),
{
    let r: &'static [&'static str] = &[ALLOW_ONCE, ALLOW_ALWAYS, DENY];
    assert(r@.map_values(|s: &str| s@) =~= spec_all());
    r
}

/// `s` is one of the allowed values.
pub open spec fn is_member(s: Seq<char>) -> bool {
    s == "allow-once"@ || s == "allow-always"@ || s == "deny"@
}

/// Parses a value; `None` for unknown ones.
pub fn from_str(s: &str) -> (r: Option<&'static str>)
    ensures
        r is Some <==> is_member(s@),
        r matches Some(t) ==> t@ == s@,
{
    if str_eq(s, "allow-once") {
        Some(ALLOW_ONCE)
    } else if str_eq(s, "allow-always") {
        Some(ALLOW_ALWAYS)
    } else if str_eq(s, "deny") {
        Some(DENY)
    } else {
        None
    }
}

/// The listed values are exactly the members: `all` and `from_str` agree.
pub proof fn all_lists_the_members(s: Seq<char>)
    ensures
        is_member(s) <==> spec_all().contains(s),
{
    if is_member(s) {
        if s == "allow-once"@ {
            assert(spec_all()[0] == s);
        }
        if s == "allow-always"@ {
            assert(spec_all()[1] == s);
        }
        if s == "deny"@ {
            assert(spec_all()[2] == s);
        }
    }
    if spec_all().contains(s) {
        let i = choose|i: int| 0 <= i < spec_all().len() && spec_all()[i] == s;
        assert(0 <= i < 3);
    }
}

} // verus!
