use mrj::config::Config;
use mrj::domain::{MergeResult, MergeType, Repo, SortBy, SortDirection};
use mrj::engine::GatewayReplies;
use mrj::forge::{MergeableState, PullRequestDetail, PullRequestInfo};
use mrj::repo::{process_repo, RepoCheck, RepoResult};
use mrj::summary::{RunBehaviours, RunSummary};

fn repo() -> Repo {
    Repo { owner: "dhth".to_string(), repo: "mrj".to_string() }
}

fn config() -> Config {
    Config {
        repos: vec![repo()],
        trusted_authors: vec!["dhth".to_string()],
        base_branch: None,
        head_pattern: None,
        merge_if_blocked: false,
        merge_if_checks_skipped: true,
        merge_type: MergeType::Merge,
        sort_by: SortBy::Updated,
        sort_direction: SortDirection::Descending,
    }
}

fn listed(number: u64, author: &str) -> (PullRequestInfo, GatewayReplies) {
    let info = PullRequestInfo {
        number,
        title: format!("PR {}", number),
        url: format!("https://github.com/dhth/mrj/pull/{}", number),
        created_at: None,
        updated_at: None,
        head_ref: "main".to_string(),
        author: Some(author.to_string()),
    };
    let replies = GatewayReplies {
        detail: Ok(PullRequestDetail {
            number,
            head_sha: "abc".to_string(),
            mergeable_state: Some(MergeableState::Clean),
        }),
        check_runs: Ok(vec![]),
        merge: Ok(()),
    };
    (info, replies)
}

fn numbers(r: &RepoResult) -> Vec<u64> {
    match r {
        RepoResult::Finished(c) => c.results().iter().map(|m| m.pr_number()).collect(),
        RepoResult::Errored(_) => panic!("expected a finished repository"),
    }
}

#[test]
fn execute_stops_after_first_qualified_pr() {
    let listing = vec![listed(1, "someone"), listed(2, "dhth"), listed(3, "dhth"), listed(4, "dhth")];
    let r = process_repo(&repo(), &config(), true, Ok(listing));
    assert_eq!(numbers(&r), vec![1, 2]);
}

#[test]
fn dry_run_checks_every_pr() {
    let listing = vec![listed(1, "dhth"), listed(2, "someone"), listed(3, "dhth")];
    let r = process_repo(&repo(), &config(), false, Ok(listing));
    assert_eq!(numbers(&r), vec![1, 2, 3]);
}

#[test]
fn empty_listing_finishes_with_no_outcomes() {
    let r = process_repo(&repo(), &config(), true, Ok(vec![]));
    assert_eq!(numbers(&r), Vec::<u64>::new());
    assert_eq!(r.name(), "dhth/mrj");
}

#[test]
fn listing_error_gives_errored_repo_and_one_error() {
    let r = process_repo(&repo(), &config(), true, Err("couldn't get PRs".to_string()));
    match &r {
        RepoResult::Errored(c) => {
            assert_eq!(c.owner, "dhth");
            assert_eq!(c.name, "mrj");
            assert_eq!(c.state.reason(), "couldn't get PRs");
        }
        RepoResult::Finished(_) => panic!("expected an errored repository"),
    }
    let mut summary = RunSummary::new();
    summary.add_repo_result(&r, &RunBehaviours::default());
    assert_eq!(summary.num_errors, 1);
    assert_eq!(summary.num_repos, 1);
    assert!(summary.disqualifications.is_empty());
    assert!(summary.prs_merged.is_empty());
}

#[test]
fn add_merge_result_says_when_to_stop() {
    let mut check = RepoCheck::new("dhth", "mrj");
    let (info, replies) = listed(5, "dhth");
    let outcome = mrj::engine::evaluate_pr(&info, &config(), true, replies);
    assert!(matches!(outcome, MergeResult::Qualified(_)));
    assert!(!check.add_merge_result(outcome, true));
    let (info, replies) = listed(6, "dhth");
    let outcome = mrj::engine::evaluate_pr(&info, &config(), false, replies);
    assert!(check.add_merge_result(outcome, false));
    let finished = check.finish();
    assert_eq!(finished.results().len(), 2);
}

#[test]
fn record_error_keeps_repository_name() {
    let check = RepoCheck::new("dhth", "bmm");
    let errored = check.record_error("couldn't acquire semaphore permit".to_string());
    let r = RepoResult::Errored(errored);
    assert_eq!(r.name(), "dhth/bmm");
}
