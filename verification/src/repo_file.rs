//! The structured configuration describing one split mapping: the
//! counterpart repository, the branch to pull from it, and the three
//! path-filter rule arrays.

use crate::rules::panic_if_array_invalid;
use crate::rules::rule_array_valid;
use vstd::prelude::*;

verus! {

/// One parsed split specification.  Each rule array, when present, must be
/// non-empty and either a permitted single element or of even length.
pub struct RepoFile {
    /// URL or filesystem path of the counterpart repository; required for
    /// split-in unless an explicit branch name is supplied directly.
    pub remote_repo: Option<String>,
    /// Branch to pull from the counterpart when merging in split-in mode.
    pub remote_branch: Option<String>,
    /// Path filters to keep; a lone path is acceptable.
    pub inclusion: Option<Vec<String>>,
    /// Path filter/rename pairs; a lone element is never valid, since a
    /// rename needs a path and a destination.
    pub inclusion_as: Option<Vec<String>>,
    /// Path filters to drop; a lone path is acceptable.
    pub exclude: Option<Vec<String>>,
}

impl RepoFile {
    /// Every rule array that is present satisfies the validity rule.
    pub open spec fn rules_valid(self) -> bool {
        &&& (self.inclusion matches Some(v) ==> rule_array_valid(v@.len(), true))
        &&& (self.inclusion_as matches Some(v) ==> rule_array_valid(v@.len(), false))
        &&& (self.exclude matches Some(v) ==> rule_array_valid(v@.len(), true))
    }

    /// An empty specification, to be filled in by the parser.
    pub fn new() -> (r: RepoFile)
        ensures
            r == (RepoFile {
                remote_repo: None,
                remote_branch: None,
                inclusion: None,
                inclusion_as: None,
                exclude: None,
            }),
    {
        RepoFile {
            remote_repo: None,
            remote_branch: None,
            inclusion: None,
            inclusion_as: None,
            exclude: None,
        }
    }

    /// The configuration gate, run once at load time and before any
    /// destructive stage: accepts exactly the well-formed rule arrays, and
    /// names the first offending one otherwise.
    pub fn validate(&self) -> (r: Result<(), &'static str>)
        ensures
            r is Ok <==> self.rules_valid(),
    {
        match panic_if_array_invalid(&self.inclusion, true, "inclusion") {
            Ok(_) => {},
            Err(name) => {
                return Err(name);
            },
        }
        match panic_if_array_invalid(&self.inclusion_as, false, "inclusion_as") {
            Ok(_) => {},
            Err(name) => {
                return Err(name);
            },
        }
        match panic_if_array_invalid(&self.exclude, true, "exclude") {
            Ok(_) => {},
            Err(name) => {
                return Err(name);
            },
        }
        Ok(())
    }
}

} // verus!
