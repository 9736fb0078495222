//! Closed enumeration of secret-ref backing stores.
use vstd::prelude::*;
use crate::text::str_eq;

verus! {

pub const ENV: &'static str = "env";
pub const FILE: &'static str = "file";
pub const EXEC: &'static str = "exec";

/// The allowed values, in order.
pub open spec fn spec_all() -> Seq<Seq<char>> {
    seq!["env"@, "file"@, "exec"@]
}

/// All allowed values.
pub fn all() -> (r: &'static [&'static str])
    ensures
        r@.map_values(|s: &str| s@) == spec_all(),
{
    let r: &'static [&'static str] = &[ENV, FILE, EXEC];
    assert(r@.map_values(|s: &str| s@) =~= spec_all());
    r
}

/// `s` is one of the allowed values.
pub open spec fn is_member(s: Seq<char>) -> bool {
    s == "env"@ || s == "file"@ || s == "exec"@
}

/// Parses a value; `None` for unknown ones.
pub fn from_str(s: &str) -> (r: Option<&'static str>)
    ensures
        r is Some <==> is_member(s@),
        r matches Some(t) ==> t@ == s@,
{
    if str_eq(s, "env") {
        Some(ENV)
    } else if str_eq(s, "file") {
        Some(FILE)
    } else if str_eq(s, "exec") {
        Some(EXEC)
    } else {
        None
    }
}

/// The listed values are exactly the members: `all` and `from_str` agree.
pub proof fn all_lists_the_members(s: Seq<char>)
    ensures
        is_member(s) <==> spec_all().contains(s),
{
    if is_member(s) {
        if s == "env"@ {
            assert(spec_all()[0] == s);
        }
        if s == "file"@ {
            assert(spec_all()[1] == s);
        }
        if s == "exec"@ {
            assert(spec_all()[2] == s);
        }
    }
    if spec_all().contains(s) {
        let i = choose|i: int| 0 <= i < spec_all().len() && spec_all()[i] == s;
        assert(0 <= i < 3);
    }
}

} // verus!
