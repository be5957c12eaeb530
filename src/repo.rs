//! The checks of one repository: its open pull requests, one at a time, in
//! the order the forge listed them, stopping after a real merge.
use crate::config::Config;
use crate::domain::{MergeResult, MergeResultView, Repo};
use crate::engine::{evaluate_pr, pr_outcome, GatewayReplies};
use crate::forge::PullRequestInfo;
use crate::private::Sealed;
use vstd::prelude::*;

verus! {

/// The views of a list of outcomes, in order.
pub open spec fn results_view(v: Seq<MergeResult>) -> Seq<MergeResultView> {
    v.map_values(|r: MergeResult| r@)
}

/// Whether the run of a repository ends after this outcome: only a real
/// merge ends it, that is a qualified pull request when executing.
pub open spec fn halts(r: MergeResultView, execute: bool) -> bool {
    execute && r.verdict is Qualified
}

/// The outcomes that a repository's run records when the checks of its pull
/// requests, in order, would give `outcomes`: all of them up to and
/// including the first one that ends the run.
pub open spec fn repo_run(outcomes: Seq<MergeResultView>, execute: bool) -> Seq<MergeResultView>
    decreases outcomes.len(),
{
    if outcomes.len() == 0 {
        Seq::empty()
    } else if halts(outcomes[0], execute) {
        seq![outcomes[0]]
    } else {
        seq![outcomes[0]] + repo_run(outcomes.drop_first(), execute)
    }
}

/// The state of a repository check: in progress, finished, or failed.
pub trait RepoCheckState: Sealed {}

#[derive(Debug)]
pub struct RepoCheckInProgress(Vec<MergeResult>);

impl Sealed for RepoCheckInProgress {}

impl RepoCheckState for RepoCheckInProgress {}

/// A repository whose pull requests could not be listed, with the reason.
#[derive(Debug)]
pub struct RepoCheckErrored(pub String);

impl Sealed for RepoCheckErrored {}

impl RepoCheckState for RepoCheckErrored {}

impl RepoCheckErrored {
    pub fn reason(&self) -> (r: &String)
        ensures
            r == &self.0,
    {
        &self.0
    }
}

#[derive(Debug)]
pub struct RepoCheckFinished(pub Vec<MergeResult>);

impl Sealed for RepoCheckFinished {}

impl RepoCheckState for RepoCheckFinished {}

#[derive(Debug)]
pub struct RepoCheck<S: RepoCheckState> {
    pub owner: String,
    pub name: String,
    pub state: S,
}

impl RepoCheck<RepoCheckInProgress> {
    /// The outcomes recorded so far.
    pub closed spec fn outcomes(&self) -> Seq<MergeResultView> {
        results_view(self.state.0@)
    }

    pub fn new(owner: &str, name: &str) -> (r: Self)
        ensures
            r.owner@ == owner@,
            r.name@ == name@,
            r.outcomes() == Seq::<MergeResultView>::empty(),
    {
        let r = RepoCheck {
            owner: owner.to_string(),
            name: name.to_string(),
            state: RepoCheckInProgress(Vec::new()),
        };
        assert(r.outcomes() =~= Seq::<MergeResultView>::empty());
        r
    }

    /// Records the outcome of the next pull request; returns whether the
    /// run goes on to the next one.
    pub fn add_merge_result(&mut self, result: MergeResult, execute: bool) -> (more: bool)
        ensures
            final(self).owner == old(self).owner,
            final(self).name == old(self).name,
            final(self).outcomes() == old(self).outcomes().push(result@),
            more == !halts(result@, execute),
    {
        let more = !(execute && result.no_failure());
        self.state.0.push(result);
        assert(self.outcomes() =~= old(self).outcomes().push(result@));
        more
    }

    /// The listing of the repository's pull requests failed.
    pub fn record_error(self, error: String) -> (r: RepoCheck<RepoCheckErrored>)
        ensures
            r.owner == self.owner,
            r.name == self.name,
            r.state.0@ == error@,
    {
        RepoCheck { owner: self.owner, name: self.name, state: RepoCheckErrored(error) }
    }

    pub fn finish(self) -> (r: RepoCheck<RepoCheckFinished>)
        ensures
            r.owner == self.owner,
            r.name == self.name,
            results_view(r.state.0@) == self.outcomes(),
    {
        RepoCheck { owner: self.owner, name: self.name, state: RepoCheckFinished(self.state.0) }
    }
}

impl RepoCheck<RepoCheckFinished> {
    pub fn results(&self) -> (r: &Vec<MergeResult>)
        ensures
            r == &self.state.0,
    {
        &self.state.0
    }
}

/// The result of one repository.
#[derive(Debug)]
pub enum RepoResult {
    Finished(RepoCheck<RepoCheckFinished>),
    Errored(RepoCheck<RepoCheckErrored>),
}

/// What a `RepoResult` says.
pub enum RepoResultView {
    Finished { owner: Seq<char>, name: Seq<char>, outcomes: Seq<MergeResultView> },
    Errored { owner: Seq<char>, name: Seq<char>, error: Seq<char> },
}

impl View for RepoResult {
    type V = RepoResultView;

    open spec fn view(&self) -> RepoResultView {
        match self {
            RepoResult::Finished(c) => RepoResultView::Finished {
                owner: c.owner@,
                name: c.name@,
                outcomes: results_view(c.state.0@),
            },
            RepoResult::Errored(c) => RepoResultView::Errored {
                owner: c.owner@,
                name: c.name@,
                error: c.state.0@,
            },
        }
    }
}

/// `owner/name`.
pub open spec fn full_name(owner: Seq<char>, name: Seq<char>) -> Seq<char> {
    owner + "/"@ + name
}

/// `owner/name` of a repository.
pub fn join_name(owner: &str, name: &str) -> (r: String)
    ensures
        r@ == full_name(owner@, name@),
{
    let mut s = owner.to_string();
    s.append("/");
    s.append(name);
    s
}

impl RepoResult {
    pub open spec fn spec_name(&self) -> Seq<char> {
        match self {
            RepoResult::Finished(c) => full_name(c.owner@, c.name@),
            RepoResult::Errored(c) => full_name(c.owner@, c.name@),
        }
    }

    /// The repository's name as `owner/name`.
    pub fn name(&self) -> (r: String)
        ensures
            r@ == self.spec_name(),
    {
        match self {
            RepoResult::Finished(c) => join_name(c.owner.as_str(), c.name.as_str()),
            RepoResult::Errored(c) => join_name(c.owner.as_str(), c.name.as_str()),
        }
    }
}

/// With execution on, a repository's run records the pull requests up to and
/// including the first one that qualified (and so was merged), and checks no
/// pull request after it.
pub proof fn lemma_execute_stops_after_first_merge(outcomes: Seq<MergeResultView>, k: int)
    requires
        0 <= k < outcomes.len(),
        outcomes[k].verdict is Qualified,
        forall|j: int| 0 <= j < k ==> !(#[trigger] outcomes[j].verdict is Qualified),
    ensures
        repo_run(outcomes, true) == outcomes.take(k + 1),
        repo_run(outcomes, true).len() == k + 1,
    decreases k,
{
    if k > 0 {
        assert(!(outcomes[0].verdict is Qualified));
        let rest = outcomes.drop_first();
        assert forall|j: int| 0 <= j < k - 1 implies !(#[trigger] rest[j].verdict is Qualified) by {
            assert(rest[j] == outcomes[j + 1]);
        }
        lemma_execute_stops_after_first_merge(rest, k - 1);
        assert(seq![outcomes[0]] + rest.take(k) =~= outcomes.take(k + 1));
    } else {
        assert(seq![outcomes[0]] =~= outcomes.take(1));
    }
}

/// In a dry run no outcome ends a repository's run: every listed pull
/// request is checked.
pub proof fn lemma_dry_run_checks_every_pr(outcomes: Seq<MergeResultView>)
    ensures
        repo_run(outcomes, false) == outcomes,
    decreases outcomes.len(),
{
    if outcomes.len() > 0 {
        lemma_dry_run_checks_every_pr(outcomes.drop_first());
        assert(seq![outcomes[0]] + outcomes.drop_first() =~= outcomes);
    }
}

/// Recording outcomes one at a time while `add_merge_result` says to go on
/// builds the run: the first `i` outcomes, none of which ended it, followed
/// by the run of the rest.
pub proof fn lemma_repo_run_unfolds(outcomes: Seq<MergeResultView>, execute: bool, i: int)
    requires
        0 <= i <= outcomes.len(),
        forall|j: int| 0 <= j < i ==> !halts(#[trigger] outcomes[j], execute),
    ensures
        repo_run(outcomes, execute) == outcomes.take(i) + repo_run(outcomes.skip(i), execute),
    decreases i,
{
    if i > 0 {
        let rest = outcomes.drop_first();
        assert(!halts(outcomes[0], execute));
        assert forall|j: int| 0 <= j < i - 1 implies !halts(#[trigger] rest[j], execute) by {
            assert(rest[j] == outcomes[j + 1]);
        }
        lemma_repo_run_unfolds(rest, execute, i - 1);
        assert(rest.skip(i - 1) =~= outcomes.skip(i));
        assert(seq![outcomes[0]] + rest.take(i - 1) =~= outcomes.take(i));
        assert(seq![outcomes[0]] + (rest.take(i - 1) + repo_run(outcomes.skip(i), execute)) =~= outcomes.take(i) + repo_run(outcomes.skip(i), execute));
    } else {
        assert(outcomes.skip(0) =~= outcomes);
        assert(outcomes.take(0) + repo_run(outcomes, execute) =~= repo_run(outcomes, execute));
    }
}

/// The outcomes of the checks of each listed pull request, in order, as
/// if each one were checked.
pub open spec fn listed_outcomes(
    prs: Seq<(PullRequestInfo, GatewayReplies)>,
    config: Config,
    execute: bool,
) -> Seq<MergeResultView> {
    prs.map_values(
        |p: (PullRequestInfo, GatewayReplies)|
            pr_outcome(
                p.0,
                config.head_match(p.0.head_ref@),
                config.trusted(),
                config.merge_if_checks_skipped,
                config.merge_if_blocked,
                execute,
                p.1,
            ),
    )
}

/// What a repository's run gives when the forge's answers are known in
/// advance: `listing` is the answer to the listing of its open pull
/// requests, each with the answers about it.
pub open spec fn repo_outcome(
    repo: Repo,
    config: Config,
    execute: bool,
    listing: Result<Vec<(PullRequestInfo, GatewayReplies)>, String>,
) -> RepoResultView {
    match listing {
        Err(e) => RepoResultView::Errored { owner: repo.owner@, name: repo.repo@, error: e@ },
        Ok(prs) => RepoResultView::Finished {
            owner: repo.owner@,
            name: repo.repo@,
            outcomes: repo_run(listed_outcomes(prs@, config, execute), execute),
        },
    }
}

/// Checks the pull requests of `repo` one after the other against answers
/// known in advance, stopping after a real merge.
#[verifier::loop_isolation(false)]
pub fn process_repo(
    repo: &Repo,
    config: &Config,
    execute: bool,
    listing: Result<Vec<(PullRequestInfo, GatewayReplies)>, String>,
) -> (r: RepoResult)
    ensures
        r@ == repo_outcome(*repo, *config, execute, listing),
{
    let check = RepoCheck::new(repo.owner.as_str(), repo.repo.as_str());
    let mut pending = match listing {
        Ok(prs) => prs,
        Err(e) => {
            return RepoResult::Errored(check.record_error(e));
        },
    };
    let ghost all = pending@;
    assert(all.len() == pending.len());
    let ghost outs = listed_outcomes(all, *config, execute);
    let mut check = check;
    let mut i: usize = 0;
    while pending.len() > 0
        invariant
            i <= all.len(),
            all.len() <= usize::MAX,
            pending@ == all.skip(i as int),
            check.owner@ == repo.owner@,
            check.name@ == repo.repo@,
            check.outcomes() == outs.take(i as int),
            forall|j: int| 0 <= j < i ==> !halts(#[trigger] outs[j], execute),
        decreases pending.len(),
    {
        assert(all.skip(i as int)[0] == all[i as int]);
        let (pr, replies) = pending.remove(0);
        assert(pending@ =~= all.skip(i + 1));
        let outcome = evaluate_pr(&pr, config, execute, replies);
        assert(outcome@ == outs[i as int]);
        let more = check.add_merge_result(outcome, execute);
        assert(check.outcomes() =~= outs.take(i + 1));
        i = i + 1;
        if !more {
            proof {
                lemma_repo_run_unfolds(outs, execute, i - 1);
                let rest = outs.skip(i - 1);
                assert(rest[0] == outs[i - 1]);
                assert(repo_run(rest, execute) == seq![rest[0]]);
                assert(outs.take(i - 1) + seq![outs[i - 1]] =~= outs.take(i as int));
            }
            return RepoResult::Finished(check.finish());
        }
    }
    proof {
        lemma_repo_run_unfolds(outs, execute, i as int);
        assert(outs.skip(i as int) =~= Seq::<MergeResultView>::empty());
        assert(outs.take(i as int) + Seq::<MergeResultView>::empty() =~= outs.take(i as int));
        assert(outs.take(i as int) =~= outs);
    }
    RepoResult::Finished(check.finish())
}

} // verus!
