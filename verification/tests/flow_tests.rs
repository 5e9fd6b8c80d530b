use git_flow::flow::{
    commit_decision, feature_target_branch, hotfix_target_branch, opening_sync_steps,
    parse_release_tag, release_test_target_branch, CommonGitFlowAction, FlowError, FlowStep,
    GitFlow,
};
use git_flow::params::{
    AdapterChoice, MavenGitFlowActionAdapter, ProjectType, WebpackGitFlowActionAdapter,
};
use git_flow::version::{Qualifier, Version};

fn engine() -> CommonGitFlowAction {
    CommonGitFlowAction::new(AdapterChoice::Maven(MavenGitFlowActionAdapter {}))
}

fn step_names(steps: &[FlowStep]) -> Vec<String> {
    steps
        .iter()
        .map(|s| match s {
            FlowStep::Fetch => "fetch".to_string(),
            FlowStep::Pull => "pull".to_string(),
            FlowStep::Switch(b) => format!("switch {}", b),
            FlowStep::Checkout(b) => format!("checkout {}", b),
            FlowStep::CreateBranch(b) => format!("create {}", b),
            FlowStep::MergeIntoCurrent(b) => format!("merge {}", b),
            FlowStep::SetVersion(v) => format!("set {}", v),
            FlowStep::CommitIfChanged(m) => format!("commit? {}", m),
            FlowStep::Tag(t) => format!("tag {}", t),
        })
        .collect()
}

#[test]
fn project_type_follows_the_adapter() {
    let maven = CommonGitFlowAction::new(AdapterChoice::Maven(MavenGitFlowActionAdapter {}));
    assert_eq!(maven.project_type(), ProjectType::Maven);
    let webpack = CommonGitFlowAction::new(AdapterChoice::Webpack(WebpackGitFlowActionAdapter {}));
    assert_eq!(webpack.project_type(), ProjectType::Webpack);
}

#[test]
fn feature_flow_defaults_to_snapshot_baseline() {
    let plan = engine().do_feature(&None, false, false).unwrap();
    assert_eq!(plan.result_branch.as_deref(), Some("feature/1.0.0"));
    assert_eq!(plan.result_tag, None);
    assert_eq!(
        step_names(&plan.steps),
        vec![
            "create feature/1.0.0",
            "checkout feature/1.0.0",
            "set 1.0.0-SNAPSHOT",
            "commit? new feature: 1.0.0",
        ]
    );
}

#[test]
fn every_flow_opens_with_a_sync_of_its_base_branch() {
    assert_eq!(
        step_names(&opening_sync_steps("develop")),
        vec!["fetch", "switch develop", "pull"]
    );
    assert_eq!(
        step_names(&opening_sync_steps("master")),
        vec!["fetch", "switch master", "pull"]
    );
}

#[test]
fn feature_flow_keeps_the_raw_version_it_read() {
    let plan = engine()
        .do_feature(&Some("v3.4.5-SNAPSHOT".to_string()), false, false)
        .unwrap();
    assert_eq!(plan.result_branch.as_deref(), Some("feature/3.4.5"));
    assert!(plan
        .steps
        .iter()
        .any(|s| matches!(s, FlowStep::SetVersion(v) if v == "v3.4.5-SNAPSHOT")));
}

#[test]
fn feature_flow_rejects_a_malformed_version() {
    let r = engine().do_feature(&Some("not-a-version".to_string()), false, false);
    assert!(matches!(r, Err(FlowError::Parse(_))));
}

#[test]
fn branch_sync_skips_creation_when_remote_exists() {
    let plan = engine().do_feature(&None, true, false).unwrap();
    assert_eq!(
        step_names(&plan.steps),
        vec!["fetch", "switch feature/1.0.0", "pull"]
    );
    assert!(!plan.steps.iter().any(|s| matches!(s, FlowStep::CreateBranch(_))));
}

#[test]
fn branch_sync_runs_converge_on_reruns() {
    // A first run with no branch anywhere creates it.
    let first = engine().do_feature(&None, false, false).unwrap();
    assert!(first.steps.iter().any(|s| matches!(s, FlowStep::CreateBranch(_))));
    // A re-run, with the driver now reporting a remote copy, takes the
    // remote-exists path and never orders another creation.
    let second = engine().do_feature(&None, true, false).unwrap();
    assert!(!second.steps.iter().any(|s| matches!(s, FlowStep::CreateBranch(_))));
    assert_eq!(second.result_branch, first.result_branch);
    // The local-only case switches without creating, too.
    let local = engine().do_feature(&None, false, true).unwrap();
    assert_eq!(step_names(&local.steps), vec!["switch feature/1.0.0"]);
}

#[test]
fn hotfix_flow_bumps_the_patch_of_the_last_tag() {
    let plan = engine()
        .do_hotfix(&Some("v2.1.0.RELEASE.20240101".to_string()), false, false)
        .unwrap();
    assert_eq!(plan.result_branch.as_deref(), Some("hotfix/2.1.1"));
    assert_eq!(
        step_names(&plan.steps),
        vec![
            "create hotfix/2.1.1",
            "checkout hotfix/2.1.1",
            "set 2.1.1-SNAPSHOT",
            "commit? new hotfix: 2.1.1",
        ]
    );
}

#[test]
fn hotfix_flow_needs_a_prior_tag() {
    assert!(matches!(engine().do_hotfix(&None, false, false), Err(FlowError::NoTagFound)));
}

#[test]
fn hotfix_flow_rejects_a_tag_without_release_marker() {
    let r = engine().do_hotfix(&Some("v2.1.0-SNAPSHOT".to_string()), false, false);
    assert!(matches!(r, Err(FlowError::NotReleaseTag)));
}

#[test]
fn release_test_flow_produces_tag_and_next_feature_branch() {
    let plan = engine()
        .do_release_test(&Some("v1.0.0.RELEASE.20240101".to_string()), true, false, "20240201")
        .unwrap();
    assert_eq!(plan.result_tag.as_deref(), Some("v1.1.0.RELEASE.20240201"));
    assert_eq!(plan.result_branch.as_deref(), Some("feature/1.2.0"));
    assert_eq!(
        step_names(&plan.steps),
        vec![
            "fetch",
            "switch test/1.1.0",
            "pull",
            "checkout master",
            "pull",
            "merge test/1.1.0",
            "set 1.1.0.RELEASE",
            "commit? release: 1.1.0",
            "tag v1.1.0.RELEASE.20240201",
            "set 1.2.0-SNAPSHOT",
            "commit? back to: 1.2.0-SNAPSHOT",
            "switch develop",
            "pull",
            "merge master",
            "create feature/1.2.0",
            "checkout feature/1.2.0",
        ]
    );
}

#[test]
fn release_test_flow_needs_the_test_branch() {
    let r = engine().do_release_test(
        &Some("v1.0.0.RELEASE.20240101".to_string()),
        false,
        false,
        "20240201",
    );
    assert!(matches!(r, Err(FlowError::MissingTestBranch)));
}

#[test]
fn release_test_flow_defaults_to_first_release() {
    let plan = engine().do_release_test(&None, false, true, "20240201").unwrap();
    assert_eq!(plan.result_tag.as_deref(), Some("v1.0.0.RELEASE.20240201"));
    assert_eq!(plan.result_branch.as_deref(), Some("feature/1.1.0"));
    // Local-only test branch: fetch and switch, but no pull on it.
    assert_eq!(step_names(&plan.steps)[0..2], ["fetch", "switch test/1.0.0"]);
}

#[test]
fn release_specific_flow_releases_a_snapshot_source() {
    let plan = engine()
        .do_release_specific(
            "develop".to_string(),
            &Some("3.0.0-SNAPSHOT".to_string()),
            "20240101",
        )
        .unwrap();
    assert_eq!(plan.result_tag.as_deref(), Some("v3.0.0.RELEASE.20240101"));
    assert_eq!(plan.result_branch, None);
    assert_eq!(
        step_names(&plan.steps),
        vec![
            "switch master",
            "pull",
            "merge develop",
            "set 3.0.0.RELEASE",
            "commit? release: 3.0.0",
            "tag v3.0.0.RELEASE.20240101",
        ]
    );
}

#[test]
fn release_specific_flow_rejects_a_non_snapshot_version() {
    let r = engine().do_release_specific(
        "develop".to_string(),
        &Some("3.0.0.RELEASE".to_string()),
        "20240101",
    );
    assert!(matches!(r, Err(FlowError::NotSnapshotVersion)));
}

#[test]
fn release_specific_flow_needs_a_current_version() {
    let r = engine().do_release_specific("develop".to_string(), &None, "20240101");
    assert!(matches!(r, Err(FlowError::NoCurrentVersion)));
}

#[test]
fn release_hotfix_flow_merges_back_to_develop() {
    let plan = engine()
        .do_release_hotfix(&Some("v2.1.0.RELEASE.20240101".to_string()), false, true, "20240215")
        .unwrap();
    assert_eq!(plan.result_tag.as_deref(), Some("v2.1.1.RELEASE.20240215"));
    assert_eq!(plan.result_branch, None);
    assert_eq!(
        step_names(&plan.steps),
        vec![
            "fetch",
            "switch hotfix/2.1.1",
            "checkout master",
            "pull",
            "merge hotfix/2.1.1",
            "set 2.1.1.RELEASE",
            "commit? release: 2.1.1",
            "tag v2.1.1.RELEASE.20240215",
            "set 2.2.0-SNAPSHOT",
            "commit? back to: 2.2.0-SNAPSHOT",
            "switch develop",
            "pull",
            "merge master",
        ]
    );
}

#[test]
fn release_hotfix_flow_needs_the_hotfix_branch() {
    let r = engine().do_release_hotfix(
        &Some("v2.1.0.RELEASE.20240101".to_string()),
        false,
        false,
        "20240215",
    );
    assert!(matches!(r, Err(FlowError::MissingHotfixBranch)));
}

#[test]
fn commit_policy_commits_only_on_changes() {
    assert_eq!(commit_decision(false, "release: 1.1.0"), None);
    assert_eq!(commit_decision(true, "release: 1.1.0"), Some("release: 1.1.0".to_string()));
}

#[test]
fn target_branches_match_the_plans() {
    assert_eq!(feature_target_branch(&None).unwrap(), "feature/1.0.0");
    assert_eq!(
        feature_target_branch(&Some("v3.4.5-SNAPSHOT".to_string())).unwrap(),
        "feature/3.4.5"
    );
    assert_eq!(
        hotfix_target_branch(&Some("v2.1.0.RELEASE.20240101".to_string())).unwrap(),
        "hotfix/2.1.1"
    );
    assert!(matches!(hotfix_target_branch(&None), Err(FlowError::NoTagFound)));
    assert_eq!(
        release_test_target_branch(&Some("v1.0.0.RELEASE.20240101".to_string())).unwrap(),
        "test/1.1.0"
    );
    assert_eq!(release_test_target_branch(&None).unwrap(), "test/1.0.0");
}

#[test]
fn release_tags_parse_back_to_their_version() {
    assert_eq!(
        parse_release_tag(&"v2.1.0.RELEASE.20240101".to_string()),
        Ok(Version { major: 2, minor: 1, patch: 0, qualifier: Qualifier::Release })
    );
    assert!(matches!(
        parse_release_tag(&"v2.1.0".to_string()),
        Err(FlowError::NotReleaseTag)
    ));
}

#[test]
fn todays_release_test_plan_carries_todays_date() {
    let plan = engine()
        .do_release_test_now(&Some("v1.0.0.RELEASE.20240101".to_string()), true, false)
        .unwrap();
    let tag = plan.result_tag.unwrap();
    assert!(tag.starts_with("v1.1.0.RELEASE."));
    let date = &tag["v1.1.0.RELEASE.".len()..];
    assert_eq!(date.len(), 8);
    assert!(date.chars().all(|c| c.is_ascii_digit()));
}
