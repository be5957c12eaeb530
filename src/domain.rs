//! The data model of a merge run: repositories, pull requests, the checks a
//! pull request passed or failed, and the outcomes of pull requests and
//! repositories.
use crate::private::Sealed;
use vstd::prelude::*;

verus! {

/// How a qualifying pull request gets merged.
#[derive(Debug, Clone, Copy, PartialEq, Eq, Structural)]
pub enum MergeType {
    Merge,
    Squash,
    Rebase,
}

/// A repository, named by its owner and its name.
#[derive(Debug, Clone)]
pub struct Repo {
    pub owner: String,
    pub repo: String,
}

/// The order in which the forge lists open pull requests.
#[derive(Debug, Clone, Copy, PartialEq, Eq, Structural)]
pub enum SortBy {
    Created,
    Updated,
    Popularity,
    LongRunning,
}

impl SortBy {
    /// The order in words.
    pub fn readable_repr(&self) -> (r: &'static str)
        ensures
            *self == SortBy::Created ==> r@ == "creation date"@,
            *self == SortBy::Updated ==> r@ == "last updated date"@,
            *self == SortBy::Popularity ==> r@ == "popularity"@,
            *self == SortBy::LongRunning ==> r@ == "long running status"@,
    {
        match self {
            SortBy::Created => "creation date",
            SortBy::Updated => "last updated date",
            SortBy::Popularity => "popularity",
            SortBy::LongRunning => "long running status",
        }
    }
}

/// The direction of the listing order.
#[derive(Debug, Clone, Copy, PartialEq, Eq, Structural)]
pub enum SortDirection {
    Ascending,
    Descending,
}

impl SortDirection {
    /// The direction in words.
    pub fn readable_repr(&self) -> (r: &'static str)
        ensures
            *self == SortDirection::Ascending ==> r@ == "ascending"@,
            *self == SortDirection::Descending ==> r@ == "descending"@,
    {
        match self {
            SortDirection::Ascending => "ascending",
            SortDirection::Descending => "descending",
        }
    }
}

/// A point in time: seconds since the Unix epoch and the nanoseconds past
/// that second.
#[derive(Debug, Clone, Copy, PartialEq, Eq, Structural)]
pub struct Timestamp {
    pub seconds: i64,
    pub nanos: u32,
}

/// A check that a pull request passed.
#[derive(Debug, Clone)]
pub enum Qualification {
    Head(String),
    Author(String),
    Check { name: String, conclusion: String },
    State(String),
}

/// What a `Qualification` says, with its strings as character sequences.
pub enum QualificationView {
    Head(Seq<char>),
    Author(Seq<char>),
    Check { name: Seq<char>, conclusion: Seq<char> },
    State(Seq<char>),
}

impl View for Qualification {
    type V = QualificationView;

    open spec fn view(&self) -> QualificationView {
        match self {
            Qualification::Head(h) => QualificationView::Head(h@),
            Qualification::Author(a) => QualificationView::Author(a@),
            Qualification::Check { name, conclusion } => QualificationView::Check {
                name: name@,
                conclusion: conclusion@,
            },
            Qualification::State(s) => QualificationView::State(s@),
        }
    }
}

/// The reason a pull request was turned down.
#[derive(Debug, Clone)]
pub enum Disqualification {
    Head(String),
    Author(Option<String>),
    Check { name: String, conclusion: Option<String> },
    State(Option<String>),
}

/// What a `Disqualification` says, with its strings as character sequences.
pub enum DisqualificationView {
    Head(Seq<char>),
    Author(Option<Seq<char>>),
    Check { name: Seq<char>, conclusion: Option<Seq<char>> },
    State(Option<Seq<char>>),
}

pub open spec fn opt_view(s: Option<String>) -> Option<Seq<char>> {
    match s {
        Some(v) => Some(v@),
        None => None,
    }
}

impl View for Disqualification {
    type V = DisqualificationView;

    open spec fn view(&self) -> DisqualificationView {
        match self {
            Disqualification::Head(h) => DisqualificationView::Head(h@),
            Disqualification::Author(a) => DisqualificationView::Author(opt_view(*a)),
            Disqualification::Check { name, conclusion } => DisqualificationView::Check {
                name: name@,
                conclusion: opt_view(*conclusion),
            },
            Disqualification::State(s) => DisqualificationView::State(opt_view(*s)),
        }
    }
}

/// The views of a list of qualifications, in order.
pub open spec fn quals_view(qs: Seq<Qualification>) -> Seq<QualificationView> {
    qs.map_values(|q: Qualification| q@)
}

/// The state of a pull request check: in progress, or one of three ends.
pub trait PRCheckState: Sealed {}

#[derive(Debug)]
pub struct PRCheckInProgress;

impl Sealed for PRCheckInProgress {}

impl PRCheckState for PRCheckInProgress {}

#[derive(Debug)]
pub struct PRDisqualified(pub Disqualification);

impl Sealed for PRDisqualified {}

impl PRCheckState for PRDisqualified {}

impl PRDisqualified {
    pub fn reason(&self) -> (r: &Disqualification)
        ensures
            r == &self.0,
    {
        &self.0
    }
}

#[derive(Debug)]
pub struct PRCheckErrored(pub String);

impl Sealed for PRCheckErrored {}

impl PRCheckState for PRCheckErrored {}

impl PRCheckErrored {
    pub fn reason(&self) -> (r: &String)
        ensures
            r == &self.0,
    {
        &self.0
    }
}

#[derive(Debug)]
pub struct PRCheckFinished;

impl Sealed for PRCheckFinished {}

impl PRCheckState for PRCheckFinished {}

/// What identifies a pull request in an outcome.
pub struct PrHeader {
    pub number: u64,
    pub title: Seq<char>,
    pub url: Seq<char>,
    pub created_at: Option<Timestamp>,
    pub updated_at: Option<Timestamp>,
}

/// A pull request on its way through the checks, with the checks it has
/// passed so far.
#[derive(Debug)]
pub struct PRCheck<S: PRCheckState> {
    pub number: u64,
    pub title: String,
    pub url: String,
    pub pr_created_at: Option<Timestamp>,
    pub pr_updated_at: Option<Timestamp>,
    pub qualifications: Vec<Qualification>,
    pub state: S,
}

impl<S: PRCheckState> PRCheck<S> {
    pub open spec fn header(&self) -> PrHeader {
        PrHeader {
            number: self.number,
            title: self.title@,
            url: self.url@,
            created_at: self.pr_created_at,
            updated_at: self.pr_updated_at,
        }
    }

    pub open spec fn quals(&self) -> Seq<QualificationView> {
        quals_view(self.qualifications@)
    }
}

impl PRCheck<PRCheckInProgress> {
    pub fn add_qualification(&mut self, q: Qualification)
        ensures
            final(self).header() == old(self).header(),
            final(self).quals() == old(self).quals().push(q@),
    {
        self.qualifications.push(q);
        assert(self.quals() =~= old(self).quals().push(q@));
    }

    pub fn disqualify(self, dq: Disqualification) -> (r: PRCheck<PRDisqualified>)
        ensures
            r.header() == self.header(),
            r.quals() == self.quals(),
            r.state.0@ == dq@,
    {
        PRCheck {
            number: self.number,
            title: self.title,
            url: self.url,
            pr_created_at: self.pr_created_at,
            pr_updated_at: self.pr_updated_at,
            qualifications: self.qualifications,
            state: PRDisqualified(dq),
        }
    }

    pub fn record_error(self, error: String) -> (r: PRCheck<PRCheckErrored>)
        ensures
            r.header() == self.header(),
            r.quals() == self.quals(),
            r.state.0@ == error@,
    {
        PRCheck {
            number: self.number,
            title: self.title,
            url: self.url,
            pr_created_at: self.pr_created_at,
            pr_updated_at: self.pr_updated_at,
            qualifications: self.qualifications,
            state: PRCheckErrored(error),
        }
    }

    pub fn finish(self) -> (r: PRCheck<PRCheckFinished>)
        ensures
            r.header() == self.header(),
            r.quals() == self.quals(),
    {
        PRCheck {
            number: self.number,
            title: self.title,
            url: self.url,
            pr_created_at: self.pr_created_at,
            pr_updated_at: self.pr_updated_at,
            qualifications: self.qualifications,
            state: PRCheckFinished,
        }
    }
}

/// The terminal state of one pull request.
#[derive(Debug)]
pub enum MergeResult {
    Qualified(PRCheck<PRCheckFinished>),
    Disqualified(PRCheck<PRDisqualified>),
    Errored(PRCheck<PRCheckErrored>),
}

/// How a pull request ended.
pub enum Verdict {
    Qualified,
    Disqualified(DisqualificationView),
    Errored(Seq<char>),
}

/// What a `MergeResult` says.
pub struct MergeResultView {
    pub header: PrHeader,
    pub quals: Seq<QualificationView>,
    pub verdict: Verdict,
}

impl View for MergeResult {
    type V = MergeResultView;

    open spec fn view(&self) -> MergeResultView {
        match self {
            MergeResult::Qualified(c) => MergeResultView {
                header: c.header(),
                quals: c.quals(),
                verdict: Verdict::Qualified,
            },
            MergeResult::Disqualified(c) => MergeResultView {
                header: c.header(),
                quals: c.quals(),
                verdict: Verdict::Disqualified(c.state.0@),
            },
            MergeResult::Errored(c) => MergeResultView {
                header: c.header(),
                quals: c.quals(),
                verdict: Verdict::Errored(c.state.0@),
            },
        }
    }
}

impl MergeResult {
    pub fn no_failure(&self) -> (r: bool)
        ensures
            r == (self@.verdict is Qualified),
    {
        matches!(self, MergeResult::Qualified(_))
    }

    pub fn pr_number(&self) -> (r: u64)
        ensures
            r == self@.header.number,
    {
        match self {
            MergeResult::Qualified(r) => r.number,
            MergeResult::Disqualified(r) => r.number,
            MergeResult::Errored(r) => r.number,
        }
    }

    pub fn pr_title(&self) -> (r: &str)
        ensures
            r@ == self@.header.title,
    {
        match self {
            MergeResult::Qualified(r) => r.title.as_str(),
            MergeResult::Disqualified(r) => r.title.as_str(),
            MergeResult::Errored(r) => r.title.as_str(),
        }
    }

    pub fn pr_url(&self) -> (r: &str)
        ensures
            r@ == self@.header.url,
    {
        match self {
            MergeResult::Qualified(r) => r.url.as_str(),
            MergeResult::Disqualified(r) => r.url.as_str(),
            MergeResult::Errored(r) => r.url.as_str(),
        }
    }

    pub fn pr_created_at(&self) -> (r: Option<Timestamp>)
        ensures
            r == self@.header.created_at,
    {
        match self {
            MergeResult::Qualified(r) => r.pr_created_at,
            MergeResult::Disqualified(r) => r.pr_created_at,
            MergeResult::Errored(r) => r.pr_created_at,
        }
    }

    pub fn pr_updated_at(&self) -> (r: Option<Timestamp>)
        ensures
            r == self@.header.updated_at,
    {
        match self {
            MergeResult::Qualified(r) => r.pr_updated_at,
            MergeResult::Disqualified(r) => r.pr_updated_at,
            MergeResult::Errored(r) => r.pr_updated_at,
        }
    }

    pub fn qualifications(&self) -> (r: &Vec<Qualification>)
        ensures
            quals_view(r@) == self@.quals,
    {
        match self {
            MergeResult::Qualified(r) => &r.qualifications,
            MergeResult::Disqualified(r) => &r.qualifications,
            MergeResult::Errored(r) => &r.qualifications,
        }
    }
}

/// A merged pull request, for the run summary.
#[derive(Debug, Clone)]
pub struct MergedPR {
    pub repo: String,
    pub title: String,
}

} // verus!
