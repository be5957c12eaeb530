//! The aggregation of repository results into the summary of a run.
use crate::domain::{
    Disqualification, DisqualificationView, MergeResult, MergeResultView, MergedPR, Verdict,
};
use crate::repo::{full_name, results_view, RepoResult, RepoResultView};
use vstd::prelude::*;

verus! {

/// How a run behaves and what it shows.
#[derive(Debug, Clone)]
pub struct RunBehaviours {
    pub output_path: Option<String>,
    pub summary_path: Option<String>,
    pub skip_disqualifications_in_summary: bool,
    pub show_repos_with_no_prs: bool,
    pub show_prs_from_untrusted_authors: bool,
    pub show_prs_with_unmatched_head: bool,
    pub execute: bool,
    pub plain_stdout: bool,
}

impl RunBehaviours {
    /// A dry run with plain output that writes no file and hides what it
    /// can hide.
    pub fn default() -> (r: Self)
        ensures
            r.output_path is None,
            r.summary_path is None,
            !r.skip_disqualifications_in_summary,
            !r.show_repos_with_no_prs,
            !r.show_prs_from_untrusted_authors,
            !r.show_prs_with_unmatched_head,
            !r.execute,
            r.plain_stdout,
    {
        RunBehaviours {
            output_path: None,
            summary_path: None,
            skip_disqualifications_in_summary: false,
            show_repos_with_no_prs: false,
            show_prs_from_untrusted_authors: false,
            show_prs_with_unmatched_head: false,
            execute: false,
            plain_stdout: true,
        }
    }

    pub fn show_prs_with_unmatched_head(self) -> (r: Self)
        ensures
            r == (RunBehaviours { show_prs_with_unmatched_head: true, ..self }),
    {
        RunBehaviours { show_prs_with_unmatched_head: true, ..self }
    }

    pub fn show_prs_from_untrusted_authors(self) -> (r: Self)
        ensures
            r == (RunBehaviours { show_prs_from_untrusted_authors: true, ..self }),
    {
        RunBehaviours { show_prs_from_untrusted_authors: true, ..self }
    }

    pub fn skip_disqualifications_in_summary(self) -> (r: Self)
        ensures
            r == (RunBehaviours { skip_disqualifications_in_summary: true, ..self }),
    {
        RunBehaviours { skip_disqualifications_in_summary: true, ..self }
    }

    /// Whether an outcome is shown: disqualifications for the author or the
    /// head are shown only on request.
    pub open spec fn shows(&self, r: MergeResultView) -> bool {
        match r.verdict {
            Verdict::Disqualified(DisqualificationView::Author(_)) => self.show_prs_from_untrusted_authors,
            Verdict::Disqualified(DisqualificationView::Head(_)) => self.show_prs_with_unmatched_head,
            _ => true,
        }
    }
}

/// The running totals of a run.
#[derive(Debug)]
pub struct RunSummary {
    pub num_repos: usize,
    pub num_repos_with_no_prs: usize,
    pub disqualifications: Vec<(String, String)>,
    pub num_errors: u16,
    pub prs_merged: Vec<MergedPR>,
}

/// What a `RunSummary` says: the counts, each disqualification as a pull
/// request URL and a reason, and each merged pull request as a repository
/// and a title.
pub struct RunSummaryView {
    pub num_repos: int,
    pub num_repos_with_no_prs: int,
    pub disqualifications: Seq<(Seq<char>, Seq<char>)>,
    pub num_errors: int,
    pub prs_merged: Seq<(Seq<char>, Seq<char>)>,
}

impl View for RunSummary {
    type V = RunSummaryView;

    open spec fn view(&self) -> RunSummaryView {
        RunSummaryView {
            num_repos: self.num_repos as int,
            num_repos_with_no_prs: self.num_repos_with_no_prs as int,
            disqualifications: self.disqualifications@.map_values(
                |d: (String, String)| (d.0@, d.1@),
            ),
            num_errors: self.num_errors as int,
            prs_merged: self.prs_merged@.map_values(|m: MergedPR| (m.repo@, m.title@)),
        }
    }
}

/// The reason of a disqualification, as the summary words it.
pub open spec fn dq_summary(d: DisqualificationView) -> Seq<char> {
    match d {
        DisqualificationView::Head(_) => "head didn't match"@,
        DisqualificationView::Author(Some(a)) => "author "@ + a + " untrusted"@,
        DisqualificationView::Author(None) => "author unknown"@,
        DisqualificationView::Check { name, conclusion: Some(c) } => "check "@ + name + ": "@ + c,
        DisqualificationView::Check { name, conclusion: None } => "check "@ + name
            + ": unknown conclusion"@,
        DisqualificationView::State(Some(s)) => "state: "@ + s,
        DisqualificationView::State(None) => "state: unknown"@,
    }
}

/// The summary after one outcome of repository `repo` was recorded.
pub open spec fn record_outcome(
    s: RunSummaryView,
    r: MergeResultView,
    repo: Seq<char>,
    execute: bool,
) -> RunSummaryView {
    match r.verdict {
        Verdict::Disqualified(d) => RunSummaryView {
            disqualifications: s.disqualifications.push((r.header.url, dq_summary(d))),
            ..s
        },
        Verdict::Errored(_) => RunSummaryView { num_errors: s.num_errors + 1, ..s },
        Verdict::Qualified => if execute {
            RunSummaryView { prs_merged: s.prs_merged.push((repo, r.header.title)), ..s }
        } else {
            s
        },
    }
}

/// The summary after the outcomes `rs` of repository `repo` were recorded in
/// order.
pub open spec fn record_outcomes(
    s: RunSummaryView,
    rs: Seq<MergeResultView>,
    repo: Seq<char>,
    execute: bool,
) -> RunSummaryView
    decreases rs.len(),
{
    if rs.len() == 0 {
        s
    } else {
        record_outcome(record_outcomes(s, rs.drop_last(), repo, execute), rs.last(), repo, execute)
    }
}

/// The positions of the outcomes that are shown, in order.
pub open spec fn shown_positions(rs: Seq<MergeResultView>, b: RunBehaviours) -> Seq<usize>
    decreases rs.len(),
{
    if rs.len() == 0 {
        Seq::empty()
    } else if b.shows(rs.last()) {
        shown_positions(rs.drop_last(), b).push((rs.len() - 1) as usize)
    } else {
        shown_positions(rs.drop_last(), b)
    }
}

/// The summary after a repository result was added.
pub open spec fn summary_after(s: RunSummaryView, r: RepoResultView, b: RunBehaviours) -> RunSummaryView {
    let s1 = RunSummaryView { num_repos: s.num_repos + 1, ..s };
    match r {
        RepoResultView::Errored { .. } => RunSummaryView { num_errors: s1.num_errors + 1, ..s1 },
        RepoResultView::Finished { owner, name, outcomes } => {
            let s2 = record_outcomes(s1, outcomes, full_name(owner, name), b.execute);
            if shown_positions(outcomes, b).len() == 0 {
                RunSummaryView { num_repos_with_no_prs: s2.num_repos_with_no_prs + 1, ..s2 }
            } else {
                s2
            }
        },
    }
}

/// What to show of a repository result.
#[derive(Debug)]
pub enum RepoDisplay {
    /// Nothing: no outcome is shown, and repositories without one are hidden.
    Hidden,
    /// The repository and the error of its listing.
    Failure,
    /// The repository, with a note that it has no pull request to show.
    NoPrs,
    /// The repository and its outcomes at these positions, in order.
    Outcomes(Vec<usize>),
}

/// What to show of a repository result under behaviours `b`.
pub open spec fn display_of(r: RepoResultView, b: RunBehaviours) -> RepoDisplayView {
    match r {
        RepoResultView::Errored { .. } => RepoDisplayView::Failure,
        RepoResultView::Finished { outcomes, .. } => {
            let shown = shown_positions(outcomes, b);
            if shown.len() > 0 {
                RepoDisplayView::Outcomes(shown)
            } else if b.show_repos_with_no_prs {
                RepoDisplayView::NoPrs
            } else {
                RepoDisplayView::Hidden
            }
        },
    }
}

/// What a `RepoDisplay` says.
pub enum RepoDisplayView {
    Hidden,
    Failure,
    NoPrs,
    Outcomes(Seq<usize>),
}

impl View for RepoDisplay {
    type V = RepoDisplayView;

    open spec fn view(&self) -> RepoDisplayView {
        match self {
            RepoDisplay::Hidden => RepoDisplayView::Hidden,
            RepoDisplay::Failure => RepoDisplayView::Failure,
            RepoDisplay::NoPrs => RepoDisplayView::NoPrs,
            RepoDisplay::Outcomes(v) => RepoDisplayView::Outcomes(v@),
        }
    }
}

/// The number of errors a repository result can add to the summary: one
/// for a failed listing, at most one per outcome otherwise.
pub open spec fn error_bound(r: RepoResultView) -> int {
    match r {
        RepoResultView::Errored { .. } => 1,
        RepoResultView::Finished { outcomes, .. } => outcomes.len() as int,
    }
}

/// The number of errors that adding `r` can count at most.
pub fn error_bound_of(r: &RepoResult) -> (n: usize)
    ensures
        n == error_bound(r@),
{
    match r {
        RepoResult::Errored(_) => 1,
        RepoResult::Finished(c) => c.results().len(),
    }
}

fn summarize_disqualification(dq: &Disqualification) -> (r: String)
    ensures
        r@ == dq_summary(dq@),
{
    match dq {
        Disqualification::Head(_) => String::from_str("head didn't match"),
        Disqualification::Author(Some(a)) => {
            let mut s = String::from_str("author ");
            s.append(a.as_str());
            s.append(" untrusted");
            s
        },
        Disqualification::Author(None) => String::from_str("author unknown"),
        Disqualification::Check { name, conclusion } => {
            let mut s = String::from_str("check ");
            s.append(name.as_str());
            match conclusion {
                Some(c) => {
                    s.append(": ");
                    s.append(c.as_str());
                },
                None => {
                    s.append(": unknown conclusion");
                },
            }
            s
        },
        Disqualification::State(Some(st)) => {
            let mut s = String::from_str("state: ");
            s.append(st.as_str());
            s
        },
        Disqualification::State(None) => String::from_str("state: unknown"),
    }
}

impl Default for RunSummary {
    fn default() -> (r: Self)
        ensures
            r@ == (RunSummaryView {
                num_repos: 0,
                num_repos_with_no_prs: 0,
                disqualifications: Seq::empty(),
                num_errors: 0,
                prs_merged: Seq::empty(),
            }),
    {
        RunSummary::new()
    }
}

impl RunSummary {
    /// An empty summary.
    pub fn new() -> (r: Self)
        ensures
            r@ == (RunSummaryView {
                num_repos: 0,
                num_repos_with_no_prs: 0,
                disqualifications: Seq::empty(),
                num_errors: 0,
                prs_merged: Seq::empty(),
            }),
    {
        let r = RunSummary {
            num_repos: 0,
            num_repos_with_no_prs: 0,
            disqualifications: Vec::new(),
            num_errors: 0,
            prs_merged: Vec::new(),
        };
        assert(r@.disqualifications =~= Seq::empty());
        assert(r@.prs_merged =~= Seq::empty());
        r
    }

    pub fn record_repo(&mut self)
        requires
            old(self).num_repos < usize::MAX,
        ensures
            final(self)@ == (RunSummaryView { num_repos: old(self)@.num_repos + 1, ..old(self)@ }),
    {
        self.num_repos += 1;
    }

    pub fn record_repo_with_no_prs(&mut self)
        requires
            old(self).num_repos_with_no_prs < usize::MAX,
        ensures
            final(self)@ == (RunSummaryView {
                num_repos_with_no_prs: old(self)@.num_repos_with_no_prs + 1,
                ..old(self)@
            }),
    {
        self.num_repos_with_no_prs += 1;
    }

    /// Records the disqualification of the pull request at `pr_url`, with
    /// its reason in words.
    pub fn record_disqualification(&mut self, pr_url: &str, disqualification: &Disqualification)
        ensures
            final(self)@ == (RunSummaryView {
                disqualifications: old(self)@.disqualifications.push(
                    (pr_url@, dq_summary(disqualification@)),
                ),
                ..old(self)@
            }),
    {
        let reason = summarize_disqualification(disqualification);
        self.disqualifications.push((pr_url.to_string(), reason));
        assert(self@.disqualifications =~= old(self)@.disqualifications.push(
            (pr_url@, dq_summary(disqualification@)),
        ));
    }

    pub fn record_error(&mut self)
        requires
            old(self).num_errors < u16::MAX,
        ensures
            final(self)@ == (RunSummaryView { num_errors: old(self)@.num_errors + 1, ..old(self)@ }),
    {
        self.num_errors += 1;
    }

    pub fn record_merged_pr(&mut self, pr: MergedPR)
        ensures
            final(self)@ == (RunSummaryView {
                prs_merged: old(self)@.prs_merged.push((pr.repo@, pr.title@)),
                ..old(self)@
            }),
    {
        let ghost p = (pr.repo@, pr.title@);
        self.prs_merged.push(pr);
        assert(self@.prs_merged =~= old(self)@.prs_merged.push(p));
    }

    /// Adds the result of one repository, in whatever order results arrive:
    /// counts the repository, each error, each disqualification (shown or
    /// not) and, when executing, each merged pull request, and counts the
    /// repository as having no relevant pull request when none of its
    /// outcomes is shown. Returns what to show of it.
    #[verifier::loop_isolation(false)]
    pub fn add_repo_result(&mut self, result: &RepoResult, behaviours: &RunBehaviours) -> (shown:
        RepoDisplay)
        requires
            old(self).num_repos < usize::MAX,
            old(self).num_repos_with_no_prs < usize::MAX,
            old(self).num_errors + error_bound(result@) <= u16::MAX,
        ensures
            final(self)@ == summary_after(old(self)@, result@, *behaviours),
            shown@ == display_of(result@, *behaviours),
    {
        self.record_repo();
        let check = match result {
            RepoResult::Errored(_) => {
                self.record_error();
                return RepoDisplay::Failure;
            },
            RepoResult::Finished(check) => check,
        };
        let repo = result.name();
        let outcomes = check.results();
        let ghost outs = results_view(outcomes@);
        let ghost s1 = self@;
        let mut positions: Vec<usize> = Vec::new();
        let mut i: usize = 0;
        while i < outcomes.len()
            invariant
                i <= outcomes.len(),
                outs.len() == outcomes.len(),
                self@ == record_outcomes(s1, outs.take(i as int), repo@, behaviours.execute),
                self.num_errors <= s1.num_errors + i,
                self.num_repos_with_no_prs == s1.num_repos_with_no_prs,
                positions@ == shown_positions(outs.take(i as int), *behaviours),
            decreases outcomes.len() - i,
        {
            assert(outs.take(i + 1).drop_last() =~= outs.take(i as int));
            assert(outs.take(i + 1).last() == outs[i as int]);
            let outcome = &outcomes[i];
            let shows = match outcome {
                MergeResult::Qualified(c) => {
                    if behaviours.execute {
                        self.record_merged_pr(MergedPR { repo: repo.clone(), title: c.title.clone() });
                    }
                    true
                },
                MergeResult::Errored(_) => {
                    self.record_error();
                    true
                },
                MergeResult::Disqualified(c) => {
                    let reason = c.state.reason();
                    self.record_disqualification(c.url.as_str(), reason);
                    match reason {
                        Disqualification::Author(_) => behaviours.show_prs_from_untrusted_authors,
                        Disqualification::Head(_) => behaviours.show_prs_with_unmatched_head,
                        _ => true,
                    }
                },
            };
            if shows {
                positions.push(i);
            }
            i = i + 1;
        }
        assert(outs.take(outs.len() as int) =~= outs);
        if positions.len() == 0 {
            self.record_repo_with_no_prs();
            if behaviours.show_repos_with_no_prs {
                RepoDisplay::NoPrs
            } else {
                RepoDisplay::Hidden
            }
        } else {
            RepoDisplay::Outcomes(positions)
        }
    }
}

/// How many of the outcomes are disqualifications.
pub open spec fn count_disqualified(rs: Seq<MergeResultView>) -> nat
    decreases rs.len(),
{
    if rs.len() == 0 {
        0
    } else {
        count_disqualified(rs.drop_last()) + if rs.last().verdict is Disqualified {
            1nat
        } else {
            0nat
        }
    }
}

/// Recording outcomes adds one disqualification per disqualified outcome
/// and leaves the repository counts alone.
pub proof fn lemma_record_outcomes_counts(
    s: RunSummaryView,
    rs: Seq<MergeResultView>,
    repo: Seq<char>,
    execute: bool,
)
    ensures
        record_outcomes(s, rs, repo, execute).disqualifications.len() == s.disqualifications.len()
            + count_disqualified(rs),
        record_outcomes(s, rs, repo, execute).num_repos == s.num_repos,
    decreases rs.len(),
{
    if rs.len() > 0 {
        lemma_record_outcomes_counts(s, rs.drop_last(), repo, execute);
    }
}

/// Every disqualification of a repository is counted and listed in the
/// summary, whether the behaviours show it or hide it.
pub proof fn lemma_every_disqualification_is_counted(
    s: RunSummaryView,
    owner: Seq<char>,
    name: Seq<char>,
    outcomes: Seq<MergeResultView>,
    b: RunBehaviours,
)
    ensures
        summary_after(
            s,
            RepoResultView::Finished { owner, name, outcomes },
            b,
        ).disqualifications.len() == s.disqualifications.len() + count_disqualified(outcomes),
        summary_after(s, RepoResultView::Finished { owner, name, outcomes }, b).num_repos
            == s.num_repos + 1,
{
    let s1 = RunSummaryView { num_repos: s.num_repos + 1, ..s };
    lemma_record_outcomes_counts(s1, outcomes, full_name(owner, name), b.execute);
}

/// A repository whose listing failed adds one repository and one error to
/// the summary and nothing else.
pub proof fn lemma_failed_listing_counts_one_error(
    s: RunSummaryView,
    owner: Seq<char>,
    name: Seq<char>,
    error: Seq<char>,
    b: RunBehaviours,
)
    ensures
        summary_after(s, RepoResultView::Errored { owner, name, error }, b) == (RunSummaryView {
            num_repos: s.num_repos + 1,
            num_errors: s.num_errors + 1,
            ..s
        }),
{
}

} // verus!
