//! Gateway file-system browsing schemas.
use vstd::prelude::*;
use crate::checks::{also, each_checked, outcome, reject, validate_each, Checked, Outcome};
use crate::text::{debug_text, str_debug};

verus! {

/// A non-empty string; the message names no field.
pub open spec fn non_empty_value(s: Seq<char>) -> Outcome {
    reject(s.len() == 0, "expected non-empty string, got "@ + str_debug(s))
}

/// An optional `non_empty_value`.
pub open spec fn opt_non_empty_value(s: Option<String>) -> Outcome {
    match s {
        Some(v) => non_empty_value(v@),
        None => Ok(()),
    }
}

fn is_non_empty_string(s: &str) -> (r: bool)
    ensures
        r == (s@.len() > 0),
{
    !s.is_empty()
}

fn validate_non_empty_string(s: &str) -> (r: Result<(), String>)
    ensures
        outcome(r) == non_empty_value(s@),
{
    if is_non_empty_string(s) {
        Ok(())
    } else {
        let shown = debug_text(s);
        let mut m = String::from_str("expected non-empty string, got ");
        m.append(shown.as_str());
        Err(m)
    }
}

fn validate_optional_non_empty_string(value: &Option<String>) -> (r: Result<(), String>)
    ensures
        outcome(r) == opt_non_empty_value(*value),
{
    match value {
        Some(s) => validate_non_empty_string(s.as_str()),
        None => Ok(()),
    }
}

/// Parameters of `fs.listDir`.
#[derive(Debug, Clone, Default)]
pub struct FsListDirParams {
    pub path: Option<String>,
    pub node_id: Option<String>,
}

impl FsListDirParams {
    /// `path` and `nodeId` non-empty when present.
    pub open spec fn check(&self) -> Outcome {
        also(opt_non_empty_value(self.path), opt_non_empty_value(self.node_id))
    }

    pub fn validate(&self) -> (r: Result<(), String>)
        ensures
            outcome(r) == self.check(),
    {
        let r = validate_optional_non_empty_string(&self.path);
        if r.is_err() {
            return r;
        }
        validate_optional_non_empty_string(&self.node_id)
    }
}

/// One directory entry.
#[derive(Debug, Clone)]
pub struct FsDirEntry {
    pub name: String,
    pub path: String,
    pub hidden: Option<bool>,
}

impl FsDirEntry {
    /// `name` and `path` non-empty.
    pub open spec fn check(&self) -> Outcome {
        also(non_empty_value(self.name@), non_empty_value(self.path@))
    }

    pub fn validate(&self) -> (r: Result<(), String>)
        ensures
            outcome(r) == self.check(),
    {
        let r = validate_non_empty_string(self.name.as_str());
        if r.is_err() {
            return r;
        }
        validate_non_empty_string(self.path.as_str())
    }
}

impl Checked for FsDirEntry {
    open spec fn checks(&self) -> Outcome {
        self.check()
    }

    fn run_checks(&self) -> (r: Result<(), String>) {
        self.validate()
    }
}

/// Result of `fs.listDir`.
#[derive(Debug, Clone)]
pub struct FsListDirResult {
    pub path: String,
    pub parent: Option<String>,
    pub home: String,
    pub entries: Vec<FsDirEntry>,
}

impl FsListDirResult {
    /// `path` and `home` non-empty, `parent` non-empty when present, every
    /// entry valid (`entries[i]: ...`).
    pub open spec fn check(&self) -> Outcome {
        also(non_empty_value(self.path@),
        also(opt_non_empty_value(self.parent),
        also(non_empty_value(self.home@),
        each_checked("entries"@, self.entries@, 0))))
    }

    pub fn validate(&self) -> (r: Result<(), String>)
        ensures
            outcome(r) == self.check(),
    {
        let r = validate_non_empty_string(self.path.as_str());
        if r.is_err() {
            return r;
        }
        let r = validate_optional_non_empty_string(&self.parent);
        if r.is_err() {
            return r;
        }
        let r = validate_non_empty_string(self.home.as_str());
        if r.is_err() {
            return r;
        }
        validate_each("entries", &self.entries)
    }
}

pub type FsListDirParamsType = FsListDirParams;
pub type FsDirEntryType = FsDirEntry;
pub type FsListDirResultType = FsListDirResult;

// ---------------------------------------------------------------------------
// What each schema accepts
// ---------------------------------------------------------------------------

/// A `FsListDirParams` passes validation exactly when every condition below holds;
/// a value that breaks one is rejected.
pub proof fn fs_list_dir_params_accepts(x: FsListDirParams)
    ensures
        x.check() is Ok <==> {
            &&& (x.path matches Some(s) ==> s@.len() > 0)
            &&& (x.node_id matches Some(s) ==> s@.len() > 0)
        },
{
}

/// A `FsDirEntry` passes validation exactly when every condition below holds;
/// a value that breaks one is rejected.
pub proof fn fs_dir_entry_accepts(x: FsDirEntry)
    ensures
        x.check() is Ok <==> {
            &&& x.name@.len() > 0
            &&& x.path@.len() > 0
        },
{
}

/// A `FsListDirResult` passes validation exactly when every condition below holds;
/// a value that breaks one is rejected.
pub proof fn fs_list_dir_result_accepts(x: FsListDirResult)
    ensures
        x.check() is Ok <==> {
            &&& x.path@.len() > 0
            &&& (x.parent matches Some(s) ==> s@.len() > 0)
            &&& x.home@.len() > 0
            &&& (forall|k: int| 0 <= k < x.entries@.len() ==> (#[trigger] x.entries@[k]).checks() is Ok)
        },
{
    crate::checks::each_checked_first_failure("entries"@, x.entries@, 0);
}

} // verus!
