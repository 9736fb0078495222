//! APNs environment names.
use vstd::prelude::*;
use crate::text::str_eq;

verus! {

pub const SANDBOX: &'static str = "sandbox";
pub const PRODUCTION: &'static str = "production";

/// The allowed values, in order.
pub open spec fn spec_all() -> Seq<Seq<char>> {
    seq!["sandbox"@, "production"@]
}

/// All allowed values.
pub fn all() -> (r: &'static [&'static str])
    ensures
        r@.map_values(|s: &str| s@) == spec_all(),
{
    let r: &'static [&'static str] = &[SANDBOX, PRODUCTION];
    assert(r@.map_values(|s: &str| s@) =~= spec_all());
    r
}

/// `s` is one of the allowed values.
pub open spec fn is_member(s: Seq<char>) -> bool {
    s == "sandbox"@ || s == "production"@
}

/// Parses a value; `None` for unknown ones.
pub fn from_str(s: &str) -> (r: Option<&'static str>)
    ensures
        r is Some <==> is_member(s@),
        r matches Some(t) ==> t@ == s@,
{
    if str_eq(s, "sandbox") {
        Some(SANDBOX)
    } else if str_eq(s, "production") {
        Some(PRODUCTION)
    } else {
        None
    }
}

/// The listed values are exactly the members: `all` and `from_str` agree.
pub proof fn all_lists_the_members(s: Seq<char>)
    ensures
        is_member(s) <==> spec_all().contains(s),
{
    if is_member(s) {
        if s == "sandbox"@ {
            assert(spec_all()[0] == s);
        }
        if s == "production"@ {
            assert(spec_all()[1] == s);
        }
    }
    if spec_all().contains(s) {
        let i = choose|i: int| 0 <= i < spec_all().len() && spec_all()[i] == s;
        assert(0 <= i < 2);
    }
}

} // verus!
