//! What the forge reports about pull requests, as plain values.
use crate::domain::{PrHeader, Timestamp};
use vstd::prelude::*;

verus! {

/// The forge's assessment of whether a pull request can be merged now.
/// `Other` holds a value that this library does not know by name.
#[derive(Debug, Clone)]
pub enum MergeableState {
    Behind,
    Blocked,
    Clean,
    Dirty,
    Draft,
    HasHooks,
    Unknown,
    Unstable,
    Other(String),
}

impl MergeableState {
    /// The label of the state, as the forge's API spells it.
    pub open spec fn spec_label(&self) -> Seq<char> {
        match self {
            MergeableState::Behind => "behind"@,
            MergeableState::Blocked => "blocked"@,
            MergeableState::Clean => "clean"@,
            MergeableState::Dirty => "dirty"@,
            MergeableState::Draft => "draft"@,
            MergeableState::HasHooks => "has_hooks"@,
            MergeableState::Unknown => "unknown"@,
            MergeableState::Unstable => "unstable"@,
            MergeableState::Other(s) => s@,
        }
    }

    pub fn label(&self) -> (r: String)
        ensures
            r@ == self.spec_label(),
    {
        match self {
            MergeableState::Behind => String::from_str("behind"),
            MergeableState::Blocked => String::from_str("blocked"),
            MergeableState::Clean => String::from_str("clean"),
            MergeableState::Dirty => String::from_str("dirty"),
            MergeableState::Draft => String::from_str("draft"),
            MergeableState::HasHooks => String::from_str("has_hooks"),
            MergeableState::Unknown => String::from_str("unknown"),
            MergeableState::Unstable => String::from_str("unstable"),
            MergeableState::Other(s) => s.clone(),
        }
    }
}

/// An open pull request as the repository listing reports it.
/// `author` is `None` when the forge sent no identifiable user.
#[derive(Debug, Clone)]
pub struct PullRequestInfo {
    pub number: u64,
    pub title: String,
    pub url: String,
    pub created_at: Option<Timestamp>,
    pub updated_at: Option<Timestamp>,
    pub head_ref: String,
    pub author: Option<String>,
}

impl PullRequestInfo {
    pub open spec fn header(&self) -> PrHeader {
        PrHeader {
            number: self.number,
            title: self.title@,
            url: self.url@,
            created_at: self.created_at,
            updated_at: self.updated_at,
        }
    }
}

/// The full detail of a pull request: its head commit and mergeable state.
#[derive(Debug, Clone)]
pub struct PullRequestDetail {
    pub number: u64,
    pub head_sha: String,
    pub mergeable_state: Option<MergeableState>,
}

/// A check run reported against a commit. `conclusion` is `None` when the
/// forge reported none.
#[derive(Debug, Clone)]
pub struct CheckRun {
    pub name: String,
    pub conclusion: Option<String>,
}

} // verus!
