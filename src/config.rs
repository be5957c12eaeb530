//! The run parameters that the checks read.
use crate::domain::{MergeType, Repo, SortBy, SortDirection};
use crate::pattern::{regex_finds, HeadPattern};
use vstd::prelude::*;

verus! {

/// Run parameters, already validated by whoever loaded them.
#[derive(Debug)]
pub struct Config {
    pub repos: Vec<Repo>,
    pub trusted_authors: Vec<String>,
    pub base_branch: Option<String>,
    pub head_pattern: Option<HeadPattern>,
    pub merge_if_blocked: bool,
    pub merge_if_checks_skipped: bool,
    pub merge_type: MergeType,
    pub sort_by: SortBy,
    pub sort_direction: SortDirection,
}

/// The logins in a list of trusted authors.
pub open spec fn logins(v: Seq<String>) -> Seq<Seq<char>> {
    v.map_values(|s: String| s@)
}

impl Config {
    pub open spec fn trusted(&self) -> Seq<Seq<char>> {
        logins(self.trusted_authors@)
    }

    /// The outcome of the head-pattern check on `head`: `None` when no
    /// pattern is configured.
    pub open spec fn head_match(&self, head: Seq<char>) -> Option<bool> {
        match self.head_pattern {
            Some(p) => Some(regex_finds(p.pattern(), head)),
            None => None,
        }
    }
}

/// The repositories of a run: those given as overrides, unless there are
/// none, in which case the configured ones.
pub fn repos_to_use(configured: Vec<Repo>, overrides: Vec<Repo>) -> (r: Vec<Repo>)
    ensures
        overrides@.len() > 0 ==> r == overrides,
        overrides@.len() == 0 ==> r == configured,
{
    if overrides.len() > 0 {
        overrides
    } else {
        configured
    }
}

/// The default of `merge_if_checks_skipped`.
pub fn default_true() -> (r: bool)
    ensures
        r,
{
    true
}

/// The default of `merge_if_blocked`.
pub fn default_false() -> (r: bool)
    ensures
        !r,
{
    false
}

/// The default listing order.
pub fn default_sort() -> (r: SortBy)
    ensures
        r == SortBy::Created,
{
    SortBy::Created
}

/// The default listing direction.
pub fn default_sort_direction() -> (r: SortDirection)
    ensures
        r == SortDirection::Ascending,
{
    SortDirection::Ascending
}

} // verus!
