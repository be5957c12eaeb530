use mrj::domain::{
    Disqualification, MergeResult, PRCheck, PRCheckFinished, PRDisqualified, Qualification,
    Timestamp,
};
use mrj::log::summary_text;
use mrj::repo::{RepoCheck, RepoCheckFinished, RepoResult};
use mrj::summary::{RunBehaviours, RunSummary};

const OWNER: &str = "dhth";
const REPO: &str = "mrj";
const PR_TITLE: &str = "build: bump clap from 4.5.39 to 4.5.40";
const PR_URL: &str = "https://github.com/dhth/mrj/pull/1";
const PR_HEAD: &str = "dependabot/cargo/clap-4.5.40";
const PR_AUTHOR: &str = "dependabot[bot]";
const HEADER: &str = "\n===========\n  SUMMARY\n===========\n";

fn passed_checks() -> Vec<Qualification> {
    vec![
        Qualification::Head(PR_HEAD.to_string()),
        Qualification::Author(PR_AUTHOR.to_string()),
        Qualification::Check { name: "build (macos-latest)".to_string(), conclusion: "success".to_string() },
        Qualification::Check { name: "build (ubuntu-latest)".to_string(), conclusion: "success".to_string() },
        Qualification::Check { name: "test".to_string(), conclusion: "success".to_string() },
    ]
}

fn disqualified(number: u64, url: String, qualifications: Vec<Qualification>, dq: Disqualification) -> MergeResult {
    MergeResult::Disqualified(PRCheck {
        number,
        title: PR_TITLE.to_string(),
        url,
        pr_created_at: Some(Timestamp { seconds: 1_704_070_861, nanos: 0 }),
        pr_updated_at: Some(Timestamp { seconds: 1_704_157_261, nanos: 0 }),
        qualifications,
        state: PRDisqualified(dq),
    })
}

fn merge_result_disqualified_unmatched_head(number: u64) -> MergeResult {
    disqualified(
        number,
        format!("https://github.com/dhth/mrj/pull/{number}"),
        vec![],
        Disqualification::Head("improve tests".to_string()),
    )
}

fn merge_result_disqualified_unknown_author() -> MergeResult {
    disqualified(1, PR_URL.to_string(), vec![Qualification::Head(PR_HEAD.to_string())], Disqualification::Author(None))
}

fn merge_result_disqualified_untrusted_author() -> MergeResult {
    disqualified(
        1,
        PR_URL.to_string(),
        vec![Qualification::Head(PR_HEAD.to_string())],
        Disqualification::Author(Some("untrusted-dependabot[bot]".to_string())),
    )
}

fn merge_result_disqualified_check_with_unknown_conclusion() -> MergeResult {
    disqualified(1, PR_URL.to_string(), passed_checks(), Disqualification::Check { name: "lint".to_string(), conclusion: None })
}

fn merge_result_disqualified_failed_check() -> MergeResult {
    disqualified(
        1,
        PR_URL.to_string(),
        passed_checks(),
        Disqualification::Check { name: "lint".to_string(), conclusion: Some("failure".to_string()) },
    )
}

fn merge_result_disqualified_unknown_state() -> MergeResult {
    disqualified(1, PR_URL.to_string(), passed_checks(), Disqualification::State(None))
}

fn merge_result_disqualified_dirty_state() -> MergeResult {
    disqualified(1, PR_URL.to_string(), passed_checks(), Disqualification::State(Some("dirty".to_string())))
}

fn merge_result_qualified() -> MergeResult {
    let mut qualifications = passed_checks();
    qualifications.push(Qualification::State("clean".to_string()));
    MergeResult::Qualified(PRCheck {
        number: 1,
        title: PR_TITLE.to_string(),
        url: PR_URL.to_string(),
        pr_created_at: Some(Timestamp { seconds: 1_704_070_861, nanos: 0 }),
        pr_updated_at: Some(Timestamp { seconds: 1_704_157_261, nanos: 0 }),
        qualifications,
        state: PRCheckFinished,
    })
}

fn all_kinds() -> Vec<MergeResult> {
    vec![
        merge_result_disqualified_unmatched_head(1),
        merge_result_disqualified_unknown_author(),
        merge_result_disqualified_untrusted_author(),
        merge_result_disqualified_check_with_unknown_conclusion(),
        merge_result_disqualified_failed_check(),
        merge_result_disqualified_unknown_state(),
        merge_result_disqualified_dirty_state(),
        merge_result_qualified(),
    ]
}

fn summary_after(results: Vec<MergeResult>, behaviours: &RunBehaviours) -> String {
    let mut summary = RunSummary::new();
    let repo_result = RepoResult::Finished(RepoCheck {
        owner: OWNER.to_string(),
        name: REPO.to_string(),
        state: RepoCheckFinished(results),
    });
    summary.add_repo_result(&repo_result, behaviours);
    let out = summary_text(&summary, behaviours.skip_disqualifications_in_summary);
    let (_, rest) = out.split_once(HEADER).expect("output should've been split by the summary header");
    rest.trim().to_string()
}

const ALL_DISQUALIFICATIONS: &str = "- PRs merged:                    0
- PRs disqualified:              7
- Repos checked:                 1
- Repos with no relevant PRs:    0
- Errors encountered:            0

Disqualifications
---

- https://github.com/dhth/mrj/pull/1        head didn't match
- https://github.com/dhth/mrj/pull/1        author unknown
- https://github.com/dhth/mrj/pull/1        author untrusted-dependabot[bot] untrusted
- https://github.com/dhth/mrj/pull/1        check lint: unknown conclusion
- https://github.com/dhth/mrj/pull/1        check lint: failure
- https://github.com/dhth/mrj/pull/1        state: unknown
- https://github.com/dhth/mrj/pull/1        state: dirty";

#[test]
fn printing_summary_works() {
    // disqualifications that are not shown are still counted and listed
    assert_eq!(summary_after(all_kinds(), &RunBehaviours::default()), ALL_DISQUALIFICATIONS);
}

#[test]
fn disqualifications_can_be_skipped_in_summary_when_requested() {
    let behaviours = RunBehaviours::default().skip_disqualifications_in_summary();
    assert_eq!(
        summary_after(all_kinds(), &behaviours),
        "- PRs merged:                    0
- PRs disqualified:              7
- Repos checked:                 1
- Repos with no relevant PRs:    0
- Errors encountered:            0"
    );
}

#[test]
fn summary_includes_dq_that_are_ignored_by_default_if_requested() {
    let behaviours = RunBehaviours::default()
        .show_prs_with_unmatched_head()
        .show_prs_from_untrusted_authors();
    assert_eq!(summary_after(all_kinds(), &behaviours), ALL_DISQUALIFICATIONS);
}

#[test]
fn summary_doesnt_include_dq_if_none_exist() {
    let behaviours = RunBehaviours::default().skip_disqualifications_in_summary();
    assert_eq!(
        summary_after(vec![merge_result_qualified()], &behaviours),
        "- PRs merged:                    0
- PRs disqualified:              0
- Repos checked:                 1
- Repos with no relevant PRs:    0
- Errors encountered:            0"
    );
}

#[test]
fn disqualification_reasons_are_left_aligned_in_summary() {
    let behaviours = RunBehaviours::default().show_prs_with_unmatched_head();
    let results = vec![
        merge_result_disqualified_unmatched_head(1),
        merge_result_disqualified_unmatched_head(11),
        merge_result_disqualified_unmatched_head(111),
        merge_result_disqualified_unmatched_head(1111),
    ];
    assert_eq!(
        summary_after(results, &behaviours),
        "- PRs merged:                    0
- PRs disqualified:              4
- Repos checked:                 1
- Repos with no relevant PRs:    0
- Errors encountered:            0

Disqualifications
---

- https://github.com/dhth/mrj/pull/1           head didn't match
- https://github.com/dhth/mrj/pull/11          head didn't match
- https://github.com/dhth/mrj/pull/111         head didn't match
- https://github.com/dhth/mrj/pull/1111        head didn't match"
    );
}

#[test]
fn merged_prs_are_listed_when_executing() {
    let mut behaviours = RunBehaviours::default().skip_disqualifications_in_summary();
    behaviours.execute = true;
    assert_eq!(
        summary_after(vec![merge_result_qualified()], &behaviours),
        "- PRs merged:                    1
- PRs disqualified:              0
- Repos checked:                 1
- Repos with no relevant PRs:    0
- Errors encountered:            0

PRs merged
---

- [dhth/mrj] build: bump clap from 4.5.39 to 4.5.40"
    );
}

#[test]
fn numbers_are_written_in_decimal() {
    assert_eq!(mrj::log::decimal_string(0), "0");
    assert_eq!(mrj::log::decimal_string(7), "7");
    assert_eq!(mrj::log::decimal_string(1200), "1200");
    assert_eq!(mrj::log::decimal_string(u64::MAX), "18446744073709551615");
}
