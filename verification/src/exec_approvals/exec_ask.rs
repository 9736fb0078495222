//! When exec asks for approval: off, on-miss, always.
use vstd::prelude::*;
use crate::text::str_eq;

verus! {

pub const OFF: &'static str = "off";
pub const ON_MISS: &'static str = "on-miss";
pub const ALWAYS: &'static str = "always";

/// The allowed values, in order.
pub open spec fn spec_all() -> Seq<Seq<char>> {
    seq!["off"@, "on-miss"@, "always"@]
}

/// All allowed values.
pub fn all() -> (r: &'static [&'static str])
    ensures
        r@.map_values(|s: &str| s@) == spec_all(),
{
    let r: &'static [&'static str] = &[OFF, ON_MISS, ALWAYS];
    assert(r@.map_values(|s: &str| s@) =~= spec_all());
    r
}

/// `s` is one of the allowed values.
pub open spec fn is_member(s: Seq<char>) -> bool {
    s == "off"@ || s == "on-miss"@ || s == "always"@
}

/// Parses a value; `None` for unknown ones.
pub fn from_str(s: &str) -> (r: Option<&'static str>)
    ensures
        r is Some <==> is_member(s@),
        r matches Some(t) ==> t@ == s@,
{
    if str_eq(s, "off") {
        Some(OFF)
    } else if str_eq(s, "on-miss") {
        Some(ON_MISS)
    } else if str_eq(s, "always") {
        Some(ALWAYS)
    } else {
        None
    }
}

/// The listed values are exactly the members: `all` and `from_str` agree.
pub proof fn all_lists_the_members(s: Seq<char>)
    ensures
        is_member(s) <==> spec_all().contains(s),
{
    if is_member(s) {
        if s == "off"@ {
            assert(spec_all()[0] == s);
        }
        if s == "on-miss"@ {
            assert(spec_all()[1] == s);
        }
        if s == "always"@ {
            assert(spec_all()[2] == s);
        }
    }
    if spec_all().contains(s) {
        let i = choose|i: int| 0 <= i < spec_all().len() && spec_all()[i] == s;
        assert(0 <= i < 3);
    }
}

} // verus!
