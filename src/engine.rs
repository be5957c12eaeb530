//! The qualification of one pull request: an ordered sequence of checks that
//! stops at the first one that fails.
//!
//! Checks that need the forge are split into steps. Each step takes what the
//! forge answered and returns the next `PrStep`: either the outcome, or the
//! call the caller has to make before the next step.
use crate::config::{logins, Config};
use crate::domain::{
    Disqualification, DisqualificationView, MergeResult, MergeResultView, PRCheck,
    PRCheckInProgress, PrHeader, Qualification, QualificationView, Verdict,
};
use crate::forge::{CheckRun, MergeableState, PullRequestDetail, PullRequestInfo};
use vstd::prelude::*;

verus! {

/// A pull request in the middle of its checks: who it is and what it passed.
pub struct Progress {
    pub header: PrHeader,
    pub quals: Seq<QualificationView>,
}

impl PRCheck<PRCheckInProgress> {
    pub open spec fn progress(&self) -> Progress {
        Progress { header: self.header(), quals: self.quals() }
    }
}

/// Where the checks of a pull request stand.
#[derive(Debug)]
pub enum PrStep {
    /// The checks are over.
    Done(MergeResult),
    /// The full detail of the pull request is needed.
    FetchDetail(PRCheck<PRCheckInProgress>),
    /// The check runs of the detail's head commit are needed.
    FetchCheckRuns(PRCheck<PRCheckInProgress>, PullRequestDetail),
    /// Every check passed; the pull request with this number is to be merged.
    Merge(PRCheck<PRCheckInProgress>, u64),
}

/// What a `PrStep` says.
pub enum PrStepView {
    Done(MergeResultView),
    FetchDetail(Progress),
    FetchCheckRuns(Progress, PullRequestDetail),
    Merge(Progress, u64),
}

impl View for PrStep {
    type V = PrStepView;

    open spec fn view(&self) -> PrStepView {
        match self {
            PrStep::Done(r) => PrStepView::Done(r@),
            PrStep::FetchDetail(c) => PrStepView::FetchDetail(c.progress()),
            PrStep::FetchCheckRuns(c, d) => PrStepView::FetchCheckRuns(c.progress(), *d),
            PrStep::Merge(c, n) => PrStepView::Merge(c.progress(), *n),
        }
    }
}

pub open spec fn disqualified(p: Progress, d: DisqualificationView) -> MergeResultView {
    MergeResultView { header: p.header, quals: p.quals, verdict: Verdict::Disqualified(d) }
}

pub open spec fn errored(p: Progress, e: Seq<char>) -> MergeResultView {
    MergeResultView { header: p.header, quals: p.quals, verdict: Verdict::Errored(e) }
}

pub open spec fn qualified(p: Progress) -> MergeResultView {
    MergeResultView { header: p.header, quals: p.quals, verdict: Verdict::Qualified }
}

/// The checks that need no call to the forge: the head pattern (when one is
/// configured; `head_match` is its outcome) and then the author.
pub open spec fn screening(
    pr: PullRequestInfo,
    head_match: Option<bool>,
    trusted: Seq<Seq<char>>,
) -> PrStepView {
    let start = Progress { header: pr.header(), quals: Seq::empty() };
    if head_match == Some(false) {
        PrStepView::Done(disqualified(start, DisqualificationView::Head(pr.head_ref@)))
    } else {
        let p = if head_match == Some(true) {
            Progress { header: pr.header(), quals: seq![QualificationView::Head(pr.head_ref@)] }
        } else {
            start
        };
        match pr.author {
            None => PrStepView::Done(disqualified(p, DisqualificationView::Author(None))),
            Some(a) => if trusted.contains(a@) {
                PrStepView::FetchDetail(
                    Progress { header: p.header, quals: p.quals.push(QualificationView::Author(a@)) },
                )
            } else {
                PrStepView::Done(disqualified(p, DisqualificationView::Author(Some(a@))))
            },
        }
    }
}

/// The step after the detail of the pull request was asked for.
pub open spec fn after_detail(p: Progress, detail: Result<PullRequestDetail, String>) -> PrStepView {
    match detail {
        Ok(d) => PrStepView::FetchCheckRuns(p, d),
        Err(e) => PrStepView::Done(errored(p, e@)),
    }
}

/// The verdict on one check run: the qualification it earns, or the reason
/// it turns the pull request down.
pub open spec fn check_verdict(run: CheckRun, skipped_ok: bool) -> Result<
    QualificationView,
    DisqualificationView,
> {
    match run.conclusion {
        Some(c) => if c@ == "success"@ || (c@ == "skipped"@ && skipped_ok) {
            Ok(QualificationView::Check { name: run.name@, conclusion: "success"@ })
        } else {
            Err(DisqualificationView::Check { name: run.name@, conclusion: Some(c@) })
        },
        None => Err(DisqualificationView::Check { name: run.name@, conclusion: None }),
    }
}

/// The check runs taken in the forge's order: the qualifications of the runs
/// before the first one that fails, and the reason that one gives, if any.
pub open spec fn checks_stage(runs: Seq<CheckRun>, skipped_ok: bool) -> (
    Seq<QualificationView>,
    Option<DisqualificationView>,
)
    decreases runs.len(),
{
    if runs.len() == 0 {
        (Seq::empty(), None)
    } else {
        let before = checks_stage(runs.drop_last(), skipped_ok);
        if before.1 is Some {
            before
        } else {
            match check_verdict(runs.last(), skipped_ok) {
                Ok(q) => (before.0.push(q), None),
                Err(d) => (before.0, Some(d)),
            }
        }
    }
}

/// The verdict on the mergeable state.
pub open spec fn state_verdict(state: Option<MergeableState>, blocked_ok: bool) -> Result<
    QualificationView,
    DisqualificationView,
> {
    match state {
        None => Err(DisqualificationView::State(None)),
        Some(s) => if s is Clean || (s is Blocked && blocked_ok) {
            Ok(QualificationView::State(s.spec_label()))
        } else {
            Err(DisqualificationView::State(Some(s.spec_label())))
        },
    }
}

/// The step after the check runs were asked for: the check runs, then the
/// mergeable state, then a merge when `execute` is set.
pub open spec fn after_check_runs(
    p: Progress,
    detail: PullRequestDetail,
    runs: Result<Vec<CheckRun>, String>,
    skipped_ok: bool,
    blocked_ok: bool,
    execute: bool,
) -> PrStepView {
    match runs {
        Err(e) => PrStepView::Done(errored(p, e@)),
        Ok(rs) => {
            let (cq, cd) = checks_stage(rs@, skipped_ok);
            let ran = Progress { header: p.header, quals: p.quals + cq };
            match cd {
                Some(d) => PrStepView::Done(disqualified(ran, d)),
                None => match state_verdict(detail.mergeable_state, blocked_ok) {
                    Err(d) => PrStepView::Done(disqualified(ran, d)),
                    Ok(q) => {
                        let done = Progress { header: ran.header, quals: ran.quals.push(q) };
                        if execute {
                            PrStepView::Merge(done, detail.number)
                        } else {
                            PrStepView::Done(qualified(done))
                        }
                    },
                },
            }
        },
    }
}

/// The outcome once the merge was asked for.
pub open spec fn after_merge(p: Progress, merged: Result<(), String>) -> MergeResultView {
    match merged {
        Ok(_) => qualified(p),
        Err(e) => errored(p, e@),
    }
}

fn is_trusted(trusted_authors: &Vec<String>, login: &String) -> (r: bool)
    ensures
        r == logins(trusted_authors@).contains(login@),
{
    let mut i: usize = 0;
    while i < trusted_authors.len()
        invariant
            i <= trusted_authors.len(),
            forall|j: int| 0 <= j < i ==> trusted_authors@[j]@ != login@,
        decreases trusted_authors.len() - i,
    {
        if trusted_authors[i] == *login {
            assert(logins(trusted_authors@)[i as int] == login@);
            return true;
        }
        i = i + 1;
    }
    assert(!logins(trusted_authors@).contains(login@)) by {
        if logins(trusted_authors@).contains(login@) {
            let k = choose|k: int|
                0 <= k < logins(trusted_authors@).len() && logins(trusted_authors@)[k] == login@;
            assert(trusted_authors@[k]@ == login@);
        }
    }
    false
}

/// Failure is final: once a prefix of the runs fails, every longer prefix
/// fails the same way.
proof fn lemma_checks_failure_sticks(runs: Seq<CheckRun>, i: int, j: int, skipped_ok: bool)
    requires
        0 <= i <= j <= runs.len(),
        checks_stage(runs.subrange(0, i), skipped_ok).1 is Some,
    ensures
        checks_stage(runs.subrange(0, j), skipped_ok) == checks_stage(runs.subrange(0, i), skipped_ok),
    decreases j - i,
{
    if j > i {
        lemma_checks_failure_sticks(runs, i, j - 1, skipped_ok);
        assert(runs.subrange(0, j).drop_last() =~= runs.subrange(0, j - 1));
    }
}

impl PRCheck<PRCheckInProgress> {
    /// A pull request with no checks passed yet.
    pub fn from_info(pr: &PullRequestInfo) -> (r: PRCheck<PRCheckInProgress>)
        ensures
            r.progress() == (Progress { header: pr.header(), quals: Seq::empty() }),
    {
        let r = PRCheck {
            number: pr.number,
            title: pr.title.clone(),
            url: pr.url.clone(),
            pr_created_at: pr.created_at,
            pr_updated_at: pr.updated_at,
            qualifications: Vec::new(),
            state: PRCheckInProgress,
        };
        assert(r.quals() =~= Seq::empty());
        r
    }

    /// The checks that need no call to the forge, given the outcome of the
    /// head-pattern check (`None`: no pattern configured).
    pub fn screen(pr: &PullRequestInfo, trusted_authors: &Vec<String>, head_match: Option<bool>) -> (r:
        PrStep)
        ensures
            r@ == screening(*pr, head_match, logins(trusted_authors@)),
    {
        let mut check = PRCheck::from_info(pr);
        match head_match {
            Some(false) => {
                return PrStep::Done(
                    MergeResult::Disqualified(
                        check.disqualify(Disqualification::Head(pr.head_ref.clone())),
                    ),
                );
            },
            Some(true) => {
                check.add_qualification(Qualification::Head(pr.head_ref.clone()));
                assert(check.quals() =~= seq![QualificationView::Head(pr.head_ref@)]);
            },
            None => {},
        }
        match &pr.author {
            None => PrStep::Done(
                MergeResult::Disqualified(check.disqualify(Disqualification::Author(None))),
            ),
            Some(login) => {
                if is_trusted(trusted_authors, login) {
                    check.add_qualification(Qualification::Author(login.clone()));
                    PrStep::FetchDetail(check)
                } else {
                    PrStep::Done(
                        MergeResult::Disqualified(
                            check.disqualify(Disqualification::Author(Some(login.clone()))),
                        ),
                    )
                }
            },
        }
    }

    /// The first step for a listed pull request: the head pattern of
    /// `config`, if any, and the author.
    pub fn begin(pr: &PullRequestInfo, config: &Config) -> (r: PrStep)
        ensures
            r@ == screening(*pr, config.head_match(pr.head_ref@), config.trusted()),
    {
        let head_match = match &config.head_pattern {
            Some(p) => Some(p.is_match(pr.head_ref.as_str())),
            None => None,
        };
        PRCheck::screen(pr, &config.trusted_authors, head_match)
    }

    /// Takes the forge's answer to the request for the detail.
    pub fn with_detail(self, detail: Result<PullRequestDetail, String>) -> (r: PrStep)
        ensures
            r@ == after_detail(self.progress(), detail),
    {
        match detail {
            Ok(d) => PrStep::FetchCheckRuns(self, d),
            Err(e) => PrStep::Done(MergeResult::Errored(self.record_error(e))),
        }
    }

    /// Takes the forge's answer to the request for the check runs of
    /// `detail`'s head commit.
    #[verifier::loop_isolation(false)]
    pub fn with_check_runs(
        self,
        detail: PullRequestDetail,
        runs: Result<Vec<CheckRun>, String>,
        config: &Config,
        execute: bool,
    ) -> (r: PrStep)
        ensures
            r@ == after_check_runs(
                self.progress(),
                detail,
                runs,
                config.merge_if_checks_skipped,
                config.merge_if_blocked,
                execute,
            ),
    {
        let runs = match runs {
            Ok(rs) => rs,
            Err(e) => {
                return PrStep::Done(MergeResult::Errored(self.record_error(e)));
            },
        };
        let ghost rs = runs@;
        let ghost start = self.quals();
        let ok = config.merge_if_checks_skipped;
        let mut check = self;
        let mut i: usize = 0;
        while i < runs.len()
            invariant
                i <= runs.len(),
                runs@ == rs,
                start == self.quals(),
                ok == config.merge_if_checks_skipped,
                check.header() == self.header(),
                checks_stage(rs.subrange(0, i as int), ok).1 is None,
                check.quals() == start + checks_stage(rs.subrange(0, i as int), ok).0,
            decreases runs.len() - i,
        {
            let run = &runs[i];
            assert(rs.subrange(0, i + 1).drop_last() =~= rs.subrange(0, i as int));
            assert(rs.subrange(0, i + 1).last() == rs[i as int]);
            let passes = match &run.conclusion {
                Some(c) => {
                    let success = String::from_str("success");
                    let skipped = String::from_str("skipped");
                    *c == success || (*c == skipped && ok)
                },
                None => false,
            };
            if passes {
                let q = Qualification::Check {
                    name: run.name.clone(),
                    conclusion: String::from_str("success"),
                };
                check.add_qualification(q);
                assert(check.quals() =~= start + checks_stage(rs.subrange(0, i + 1), ok).0);
            } else {
                let dq = Disqualification::Check {
                    name: run.name.clone(),
                    conclusion: match &run.conclusion {
                        Some(c) => Some(c.clone()),
                        None => None,
                    },
                };
                assert(check_verdict(rs[i as int], ok) == Err::<QualificationView, _>(dq@));
                assert(checks_stage(rs.subrange(0, i + 1), ok) == (
                    checks_stage(rs.subrange(0, i as int), ok).0,
                    Some(dq@),
                ));
                proof {
                    lemma_checks_failure_sticks(rs, i + 1, rs.len() as int, ok);
                    assert(rs.subrange(0, rs.len() as int) =~= rs);
                }
                return PrStep::Done(MergeResult::Disqualified(check.disqualify(dq)));
            }
            i = i + 1;
        }
        assert(rs.subrange(0, rs.len() as int) =~= rs);
        let accepted = match &detail.mergeable_state {
            None => None,
            Some(state) => {
                let ok_state = match state {
                    MergeableState::Clean => true,
                    MergeableState::Blocked => config.merge_if_blocked,
                    _ => false,
                };
                Some((ok_state, state.label()))
            },
        };
        match accepted {
            None => PrStep::Done(
                MergeResult::Disqualified(check.disqualify(Disqualification::State(None))),
            ),
            Some((false, label)) => PrStep::Done(
                MergeResult::Disqualified(check.disqualify(Disqualification::State(Some(label)))),
            ),
            Some((true, label)) => {
                check.add_qualification(Qualification::State(label));
                if execute {
                    PrStep::Merge(check, detail.number)
                } else {
                    PrStep::Done(MergeResult::Qualified(check.finish()))
                }
            },
        }
    }

    /// Takes the forge's answer to the merge request.
    pub fn with_merge_outcome(self, merged: Result<(), String>) -> (r: MergeResult)
        ensures
            r@ == after_merge(self.progress(), merged),
    {
        match merged {
            Ok(_) => MergeResult::Qualified(self.finish()),
            Err(e) => MergeResult::Errored(self.record_error(e)),
        }
    }
}

/// The forge's answers for one pull request, known in advance: its detail,
/// the check runs of its head commit, and the outcome of a merge request.
#[derive(Debug)]
pub struct GatewayReplies {
    pub detail: Result<PullRequestDetail, String>,
    pub check_runs: Result<Vec<CheckRun>, String>,
    pub merge: Result<(), String>,
}

/// The outcome of the checks of `pr` when the forge answers with `replies`.
/// A reply that the checks never ask for plays no part.
pub open spec fn pr_outcome(
    pr: PullRequestInfo,
    head_match: Option<bool>,
    trusted: Seq<Seq<char>>,
    skipped_ok: bool,
    blocked_ok: bool,
    execute: bool,
    replies: GatewayReplies,
) -> MergeResultView {
    match screening(pr, head_match, trusted) {
        PrStepView::FetchDetail(p) => match after_detail(p, replies.detail) {
            PrStepView::FetchCheckRuns(fetched, d) => match after_check_runs(
                fetched,
                d,
                replies.check_runs,
                skipped_ok,
                blocked_ok,
                execute,
            ) {
                PrStepView::Merge(passed, _) => after_merge(passed, replies.merge),
                PrStepView::Done(r) => r,
                _ => arbitrary(),
            },
            PrStepView::Done(r) => r,
            _ => arbitrary(),
        },
        PrStepView::Done(r) => r,
        _ => arbitrary(),
    }
}

/// Runs every check of `pr` against answers known in advance.
pub fn evaluate_pr(pr: &PullRequestInfo, config: &Config, execute: bool, replies: GatewayReplies) -> (r:
    MergeResult)
    ensures
        r@ == pr_outcome(
            *pr,
            config.head_match(pr.head_ref@),
            config.trusted(),
            config.merge_if_checks_skipped,
            config.merge_if_blocked,
            execute,
            replies,
        ),
{
    let GatewayReplies { detail, check_runs, merge } = replies;
    match PRCheck::begin(pr, config) {
        PrStep::Done(r) => r,
        PrStep::FetchDetail(c) => match c.with_detail(detail) {
            PrStep::Done(r) => r,
            PrStep::FetchCheckRuns(c1, d) => match c1.with_check_runs(
                d,
                check_runs,
                config,
                execute,
            ) {
                PrStep::Done(r) => r,
                PrStep::Merge(c2, _) => c2.with_merge_outcome(merge),
                _ => unreached(),
            },
            _ => unreached(),
        },
        _ => unreached(),
    }
}

/// Whether a check run passes: it concluded with success, or it was skipped
/// and skipped runs are accepted.
pub open spec fn run_passes(run: CheckRun, skipped_ok: bool) -> bool {
    run.conclusion matches Some(c) && (c@ == "success"@ || (c@ == "skipped"@ && skipped_ok))
}

/// When every run passes, no run turns the pull request down and each one
/// earns one qualification.
pub proof fn lemma_passing_runs_qualify(runs: Seq<CheckRun>, skipped_ok: bool)
    requires
        forall|i: int| 0 <= i < runs.len() ==> run_passes(#[trigger] runs[i], skipped_ok),
    ensures
        checks_stage(runs, skipped_ok).1 is None,
        checks_stage(runs, skipped_ok).0.len() == runs.len(),
    decreases runs.len(),
{
    if runs.len() > 0 {
        assert(run_passes(runs[runs.len() - 1], skipped_ok));
        lemma_passing_runs_qualify(runs.drop_last(), skipped_ok);
    }
}

/// A pull request without an author is turned down as coming from an
/// unknown author before any call to the forge, whenever its head passed
/// the head pattern (or no pattern is set).
pub proof fn lemma_absent_author_is_untrusted(
    pr: PullRequestInfo,
    head_match: Option<bool>,
    trusted: Seq<Seq<char>>,
    skipped_ok: bool,
    blocked_ok: bool,
    execute: bool,
    replies: GatewayReplies,
)
    requires
        pr.author is None,
        head_match != Some(false),
    ensures
        screening(pr, head_match, trusted) matches PrStepView::Done(r) && r.verdict
            == Verdict::Disqualified(DisqualificationView::Author(None)),
        pr_outcome(pr, head_match, trusted, skipped_ok, blocked_ok, execute, replies).verdict
            == Verdict::Disqualified(DisqualificationView::Author(None)),
{
}

/// A pull request whose head does not match the configured pattern is turned
/// down for its head before the author is looked at, with no qualification
/// and without any call to the forge.
pub proof fn lemma_unmatched_head_is_rejected_first(
    pr: PullRequestInfo,
    trusted: Seq<Seq<char>>,
    skipped_ok: bool,
    blocked_ok: bool,
    execute: bool,
    replies: GatewayReplies,
)
    ensures
        screening(pr, Some(false), trusted) matches PrStepView::Done(r) && r.verdict
            == Verdict::Disqualified(DisqualificationView::Head(pr.head_ref@)) && r.quals.len()
            == 0,
        pr_outcome(pr, Some(false), trusted, skipped_ok, blocked_ok, execute, replies)
            == screening(pr, Some(false), trusted)->Done_0,
{
}

/// A pull request that passes the head pattern (if any), comes from a
/// trusted author, has only passing check runs and a clean mergeable state,
/// and whose merge (when executing) succeeds, qualifies with one
/// qualification for the head (if a pattern is set), one for the author, one
/// per check run and one for the state.
pub proof fn lemma_passing_pr_qualifies(
    pr: PullRequestInfo,
    head_match: Option<bool>,
    trusted: Seq<Seq<char>>,
    skipped_ok: bool,
    blocked_ok: bool,
    execute: bool,
    replies: GatewayReplies,
)
    requires
        head_match != Some(false),
        pr.author matches Some(a) && trusted.contains(a@),
        replies.detail matches Ok(d) && d.mergeable_state matches Some(MergeableState::Clean),
        replies.check_runs matches Ok(rs) && forall|i: int|
            0 <= i < rs@.len() ==> run_passes(#[trigger] rs@[i], skipped_ok),
        execute ==> replies.merge is Ok,
    ensures
        ({
            let r = pr_outcome(pr, head_match, trusted, skipped_ok, blocked_ok, execute, replies);
            &&& r.verdict is Qualified
            &&& r.quals.len() == (if head_match is Some {
                1int
            } else {
                0int
            }) + 1 + replies.check_runs->Ok_0@.len() + 1
        }),
{
    let rs = replies.check_runs->Ok_0@;
    lemma_passing_runs_qualify(rs, skipped_ok);
    let n: int = if head_match is Some {
        1
    } else {
        0
    };
    if let PrStepView::FetchDetail(p) = screening(pr, head_match, trusted) {
        let a = pr.author->Some_0;
        if head_match is Some {
            assert(head_match == Some(true));
            assert(p.quals =~= seq![QualificationView::Head(pr.head_ref@), QualificationView::Author(a@)]);
        } else {
            assert(p.quals =~= seq![QualificationView::Author(a@)]);
        }
        assert(p.quals.len() == n + 1);
        let cq = checks_stage(rs, skipped_ok).0;
        assert((p.quals + cq).len() == n + 1 + rs.len());
    } else {
        assert(false);
    }
}

/// The checks depend on nothing but their inputs: two evaluations of the
/// same pull request with the same configuration and the same answers of
/// the forge give the same outcome.
pub proof fn lemma_evaluation_is_deterministic(
    pr: PullRequestInfo,
    head_match: Option<bool>,
    trusted: Seq<Seq<char>>,
    skipped_ok: bool,
    blocked_ok: bool,
    execute: bool,
    replies: GatewayReplies,
    first: MergeResultView,
    second: MergeResultView,
)
    requires
        first == pr_outcome(pr, head_match, trusted, skipped_ok, blocked_ok, execute, replies),
        second == pr_outcome(pr, head_match, trusted, skipped_ok, blocked_ok, execute, replies),
    ensures
        first == second,
{
}

} // verus!
