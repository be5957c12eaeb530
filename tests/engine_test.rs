use mrj::config::Config;
use mrj::domain::{
    Disqualification, MergeResult, MergeType, PRCheck, Qualification, SortBy, SortDirection,
    Timestamp,
};
use mrj::engine::{evaluate_pr, GatewayReplies, PrStep};
use mrj::forge::{CheckRun, MergeableState, PullRequestDetail, PullRequestInfo};
use mrj::pattern::HeadPattern;

fn pr(author: Option<&str>, head: &str) -> PullRequestInfo {
    PullRequestInfo {
        number: 7,
        title: "build: bump clap from 4.5.39 to 4.5.40".to_string(),
        url: "https://github.com/dhth/mrj/pull/7".to_string(),
        created_at: Some(Timestamp { seconds: 1_704_070_861, nanos: 0 }),
        updated_at: Some(Timestamp { seconds: 1_704_157_261, nanos: 0 }),
        head_ref: head.to_string(),
        author: author.map(|a| a.to_string()),
    }
}

fn config(head_pattern: Option<&str>, skipped_ok: bool, blocked_ok: bool) -> Config {
    Config {
        repos: vec![],
        trusted_authors: vec!["dependabot[bot]".to_string(), "dhth".to_string()],
        base_branch: None,
        head_pattern: head_pattern.map(|p| HeadPattern::new(p).expect("pattern should compile")),
        merge_if_blocked: blocked_ok,
        merge_if_checks_skipped: skipped_ok,
        merge_type: MergeType::Squash,
        sort_by: SortBy::Created,
        sort_direction: SortDirection::Ascending,
    }
}

fn run(name: &str, conclusion: Option<&str>) -> CheckRun {
    CheckRun { name: name.to_string(), conclusion: conclusion.map(|c| c.to_string()) }
}

fn detail(state: Option<MergeableState>) -> PullRequestDetail {
    PullRequestDetail { number: 7, head_sha: "abc123".to_string(), mergeable_state: state }
}

fn replies(runs: Vec<CheckRun>, state: Option<MergeableState>) -> GatewayReplies {
    GatewayReplies { detail: Ok(detail(state)), check_runs: Ok(runs), merge: Ok(()) }
}

fn disqualification(r: &MergeResult) -> &Disqualification {
    match r {
        MergeResult::Disqualified(c) => c.state.reason(),
        other => panic!("expected a disqualification, got {:?}", other),
    }
}

fn quals(r: &MergeResult) -> String {
    format!("{:?}", r.qualifications())
}

#[test]
fn absent_author_is_disqualified_before_any_call() {
    let c = config(None, true, false);
    match PRCheck::begin(&pr(None, "dependabot/cargo/clap"), &c) {
        PrStep::Done(r) => {
            assert!(matches!(disqualification(&r), Disqualification::Author(None)));
            assert!(r.qualifications().is_empty());
        }
        other => panic!("expected the checks to be over, got {:?}", other),
    }
}

#[test]
fn absent_author_after_matching_head_keeps_head_qualification() {
    let c = config(Some("^dependabot/"), true, false);
    let r = evaluate_pr(&pr(None, "dependabot/cargo/clap"), &c, false, replies(vec![], None));
    assert!(matches!(disqualification(&r), Disqualification::Author(None)));
    assert_eq!(quals(&r), r#"[Head("dependabot/cargo/clap")]"#);
}

#[test]
fn untrusted_author_is_disqualified_with_login() {
    let c = config(None, true, false);
    let r = evaluate_pr(&pr(Some("someone"), "main"), &c, false, replies(vec![], None));
    assert_eq!(format!("{:?}", disqualification(&r)), r#"Author(Some("someone"))"#);
}

#[test]
fn unmatched_head_is_disqualified_with_no_qualifications() {
    let c = config(Some("^dependabot/"), true, false);
    match PRCheck::begin(&pr(None, "improve tests"), &c) {
        PrStep::Done(r) => {
            assert_eq!(format!("{:?}", disqualification(&r)), r#"Head("improve tests")"#);
            assert!(r.qualifications().is_empty());
        }
        other => panic!("expected the checks to be over, got {:?}", other),
    }
}

#[test]
fn passing_pr_qualifies_with_one_qualification_per_check() {
    let c = config(Some("^dependabot/"), true, false);
    let runs = vec![run("build", Some("success")), run("lint", Some("skipped")), run("test", Some("success"))];
    let r = evaluate_pr(
        &pr(Some("dependabot[bot]"), "dependabot/cargo/clap"),
        &c,
        false,
        replies(runs, Some(MergeableState::Clean)),
    );
    assert!(r.no_failure());
    assert_eq!(r.qualifications().len(), 1 + 1 + 3 + 1);
    assert_eq!(
        quals(&r),
        r#"[Head("dependabot/cargo/clap"), Author("dependabot[bot]"), Check { name: "build", conclusion: "success" }, Check { name: "lint", conclusion: "success" }, Check { name: "test", conclusion: "success" }, State("clean")]"#
    );
    assert_eq!(r.pr_number(), 7);
    assert_eq!(r.pr_url(), "https://github.com/dhth/mrj/pull/7");
}

#[test]
fn passing_pr_without_head_pattern_has_no_head_qualification() {
    let c = config(None, true, false);
    let r = evaluate_pr(
        &pr(Some("dhth"), "feature"),
        &c,
        false,
        replies(vec![run("build", Some("success"))], Some(MergeableState::Clean)),
    );
    assert!(r.no_failure());
    assert_eq!(r.qualifications().len(), 3);
}

#[test]
fn empty_check_list_passes() {
    let c = config(None, true, false);
    let r = evaluate_pr(&pr(Some("dhth"), "main"), &c, false, replies(vec![], Some(MergeableState::Clean)));
    assert!(r.no_failure());
    assert_eq!(quals(&r), r#"[Author("dhth"), State("clean")]"#);
}

#[test]
fn evaluating_twice_gives_the_same_outcome() {
    let c = config(Some("^dependabot/"), false, true);
    let p = pr(Some("dependabot[bot]"), "dependabot/npm/left-pad");
    let make = || replies(vec![run("build", Some("success")), run("e2e", Some("skipped"))], Some(MergeableState::Blocked));
    let first = evaluate_pr(&p, &c, false, make());
    let second = evaluate_pr(&p, &c, false, make());
    assert_eq!(format!("{:?}", first), format!("{:?}", second));
}

#[test]
fn skipped_check_disqualifies_when_skips_are_not_accepted() {
    let c = config(None, false, false);
    let r = evaluate_pr(
        &pr(Some("dhth"), "main"),
        &c,
        false,
        replies(vec![run("lint", Some("skipped"))], Some(MergeableState::Clean)),
    );
    assert_eq!(
        format!("{:?}", disqualification(&r)),
        r#"Check { name: "lint", conclusion: Some("skipped") }"#
    );
}

#[test]
fn failed_check_stops_at_first_failure() {
    let c = config(None, true, false);
    let runs = vec![run("build", Some("success")), run("test", Some("failure")), run("lint", None)];
    let r = evaluate_pr(&pr(Some("dhth"), "main"), &c, false, replies(runs, Some(MergeableState::Clean)));
    assert_eq!(
        format!("{:?}", disqualification(&r)),
        r#"Check { name: "test", conclusion: Some("failure") }"#
    );
    assert_eq!(r.qualifications().len(), 2);
}

#[test]
fn check_without_conclusion_disqualifies() {
    let c = config(None, true, false);
    let r = evaluate_pr(
        &pr(Some("dhth"), "main"),
        &c,
        false,
        replies(vec![run("test", None)], Some(MergeableState::Clean)),
    );
    assert_eq!(format!("{:?}", disqualification(&r)), r#"Check { name: "test", conclusion: None }"#);
}

#[test]
fn blocked_state_qualifies_when_allowed() {
    let c = config(None, true, true);
    let r = evaluate_pr(&pr(Some("dhth"), "main"), &c, false, replies(vec![], Some(MergeableState::Blocked)));
    assert!(r.no_failure());
    assert!(matches!(r.qualifications().last(), Some(Qualification::State(s)) if s == "blocked"));
}

#[test]
fn blocked_state_disqualifies_when_not_allowed() {
    let c = config(None, true, false);
    let r = evaluate_pr(&pr(Some("dhth"), "main"), &c, false, replies(vec![], Some(MergeableState::Blocked)));
    assert_eq!(format!("{:?}", disqualification(&r)), r#"State(Some("blocked"))"#);
}

#[test]
fn absent_state_disqualifies_regardless_of_blocked_flag() {
    for blocked_ok in [false, true] {
        let c = config(None, true, blocked_ok);
        let r = evaluate_pr(&pr(Some("dhth"), "main"), &c, false, replies(vec![], None));
        assert_eq!(format!("{:?}", disqualification(&r)), "State(None)");
    }
}

#[test]
fn other_states_disqualify_with_their_label() {
    let c = config(None, true, true);
    let cases = vec![
        (MergeableState::Dirty, "dirty"),
        (MergeableState::Behind, "behind"),
        (MergeableState::HasHooks, "has_hooks"),
        (MergeableState::Other("queued".to_string()), "queued"),
    ];
    for (state, label) in cases {
        let r = evaluate_pr(&pr(Some("dhth"), "main"), &c, false, replies(vec![], Some(state)));
        assert_eq!(format!("{:?}", disqualification(&r)), format!("State(Some({:?}))", label));
    }
}

#[test]
fn detail_error_is_recorded() {
    let c = config(None, true, false);
    let r = evaluate_pr(
        &pr(Some("dhth"), "main"),
        &c,
        false,
        GatewayReplies { detail: Err("couldn't get details".to_string()), check_runs: Ok(vec![]), merge: Ok(()) },
    );
    match r {
        MergeResult::Errored(e) => {
            assert_eq!(e.state.reason(), "couldn't get details");
            assert_eq!(e.qualifications.len(), 1);
        }
        other => panic!("expected an error, got {:?}", other),
    }
}

#[test]
fn check_runs_error_is_recorded() {
    let c = config(None, true, false);
    let r = evaluate_pr(
        &pr(Some("dhth"), "main"),
        &c,
        false,
        GatewayReplies {
            detail: Ok(detail(Some(MergeableState::Clean))),
            check_runs: Err("couldn't get pr checks".to_string()),
            merge: Ok(()),
        },
    );
    assert!(matches!(r, MergeResult::Errored(ref e) if e.state.reason() == "couldn't get pr checks"));
}

#[test]
fn merge_error_is_recorded_only_when_executing() {
    let c = config(None, true, false);
    let make = || GatewayReplies {
        detail: Ok(detail(Some(MergeableState::Clean))),
        check_runs: Ok(vec![]),
        merge: Err("couldn't merge PR".to_string()),
    };
    let executed = evaluate_pr(&pr(Some("dhth"), "main"), &c, true, make());
    assert!(matches!(executed, MergeResult::Errored(ref e) if e.state.reason() == "couldn't merge PR"));
    let dry = evaluate_pr(&pr(Some("dhth"), "main"), &c, false, make());
    assert!(dry.no_failure());
}

#[test]
fn steps_ask_for_detail_then_checks_then_merge() {
    let c = config(None, true, false);
    let check = match PRCheck::begin(&pr(Some("dhth"), "main"), &c) {
        PrStep::FetchDetail(check) => check,
        other => panic!("expected a request for the detail, got {:?}", other),
    };
    let (check, d) = match check.with_detail(Ok(detail(Some(MergeableState::Clean)))) {
        PrStep::FetchCheckRuns(check, d) => (check, d),
        other => panic!("expected a request for the check runs, got {:?}", other),
    };
    assert_eq!(d.head_sha, "abc123");
    let check = match check.with_check_runs(d, Ok(vec![run("build", Some("success"))]), &c, true) {
        PrStep::Merge(check, number) => {
            assert_eq!(number, 7);
            check
        }
        other => panic!("expected a merge, got {:?}", other),
    };
    let r = check.with_merge_outcome(Ok(()));
    assert!(r.no_failure());
    assert_eq!(r.pr_title(), "build: bump clap from 4.5.39 to 4.5.40");
}

#[test]
fn head_pattern_matches_anywhere_in_head() {
    let p = HeadPattern::new("cargo/").expect("pattern should compile");
    assert!(p.is_match("dependabot/cargo/clap"));
    assert!(!p.is_match("dependabot/npm/left-pad"));
    assert_eq!(p.as_str(), "cargo/");
}

#[test]
fn invalid_head_pattern_is_refused() {
    let r = HeadPattern::new("dependabot/(cargo");
    assert_eq!(r.err(), Some("a valid regex is needed".to_string()));
}
