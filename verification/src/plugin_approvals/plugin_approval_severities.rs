//! Severity levels reported alongside plugin approval requests.
use vstd::prelude::*;
use crate::text::str_eq;

verus! {

pub const INFO: &'static str = "info";
pub const WARNING: &'static str = "warning";
pub const CRITICAL: &'static str = "critical";

/// The allowed values, in order.
pub open spec fn spec_all() -> Seq<Seq<char>> {
    seq!["info"@, "warning"@, "critical"@]
}

/// All allowed values.
pub fn all() -> (r: &'static [&'static str])
    ensures
        r@.map_values(|s: &str| s@) == spec_all(),
{
    let r: &'static [&'static str] = &[INFO, WARNING, CRITICAL];
    assert(r@.map_values(|s: &str| s@) =~= spec_all());
    r
}

/// `s` is one of the allowed values.
pub open spec fn is_member(s: Seq<char>) -> bool {
    s == "info"@ || s == "warning"@ || s == "critical"@
}

/// Parses a value; `None` for unknown ones.
pub fn from_str(s: &str) -> (r: Option<&'static str>)
    ensures
        r is Some <==> is_member(s@),
        r matches Some(t) ==> t@ == s@,
{
    if str_eq(s, "info") {
        Some(INFO)
    } else if str_eq(s, "warning") {
        Some(WARNING)
    } else if str_eq(s, "critical") {
        Some(CRITICAL)
    } else {
        None
    }
}

/// The listed values are exactly the members: `all` and `from_str` agree.
pub proof fn all_lists_the_members(s: Seq<char>)
    ensures
        is_member(s) <==> spec_all().contains(s),
{
    if is_member(s) {
        if s == "info"@ {
            assert(spec_all()[0] == s);
        }
        if s == "warning"@ {
            assert(spec_all()[1] == s);
        }
        if s == "critical"@ {
            assert(spec_all()[2] == s);
        }
    }
    if spec_all().contains(s) {
        let i = choose|i: int| 0 <= i < spec_all().len() && spec_all()[i] == s;
        assert(0 <= i < 3);
    }
}

} // verus!
