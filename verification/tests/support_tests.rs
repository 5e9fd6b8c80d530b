use git_flow::git_version::{check_git_version, extract_version_number, min_git_version};
use git_flow::manifest::{manifest_current_version, manifest_with_version};
use git_flow::naming::{compose_tag, BranchRole};
use git_flow::params::{
    FlowType, GitFlowParameter, ProjectType, ReleaseType, SelectionError,
};
use git_flow::util::{ends_with_str, find_str, starts_with_str, str_eq_whole, Util};

#[test]
fn tag_composition_is_fixed_by_version_and_date() {
    assert_eq!(compose_tag("1.3.0", "20240115"), "v1.3.0.RELEASE.20240115");
    assert_eq!(compose_tag("1.3.0", "20240115"), compose_tag("1.3.0", "20240115"));
    assert_eq!(compose_tag("0.0.1", "19991231"), "v0.0.1.RELEASE.19991231");
}

#[test]
fn branch_names_follow_their_role() {
    assert_eq!(BranchRole::Feature.name_for("1.2.3"), "feature/1.2.3");
    assert_eq!(BranchRole::Hotfix.name_for("2.1.1"), "hotfix/2.1.1");
    assert_eq!(BranchRole::Test.name_for("1.1.0"), "test/1.1.0");
    assert_eq!(BranchRole::Develop.name_for("9.9.9"), "develop");
    assert_eq!(BranchRole::Master.name_for("9.9.9"), "master");
    assert_eq!(BranchRole::Feature.prefix(), "feature");
}

#[test]
fn substring_between_cuts_between_first_occurrences() {
    let line = String::from("name [alpha] rest");
    assert_eq!(Util::substring_between(&line, "[", "]"), Some("[alpha".to_string()));
    assert_eq!(Util::substring_between(&line, "{", "]"), None);
    assert_eq!(Util::substring_between(&line, "[", "}"), None);
    let backwards = String::from("] then [");
    assert_eq!(Util::substring_between(&backwards, "[", "]"), None);
}

#[test]
fn substring_after_skips_one_character_past_the_match() {
    let line = String::from("v2.1.0.RELEASE");
    assert_eq!(Util::substring_after(&line, "v"), Some("2.1.0.RELEASE".to_string()));
    assert_eq!(Util::substring_after(&line, "x"), None);
    let tail = String::from("abc");
    assert_eq!(Util::substring_after(&tail, "c"), Some(String::new()));
}

#[test]
fn substring_before_cuts_at_the_first_match() {
    let line = String::from("2.1.0.RELEASE.20240101");
    assert_eq!(Util::substring_before(&line, ".RELEASE"), Some("2.1.0".to_string()));
    assert_eq!(Util::substring_before(&line, "-SNAPSHOT"), None);
    assert_eq!(Util::substring_before(&line, "2"), Some(String::new()));
}

#[test]
fn string_searching_reports_first_matches() {
    assert_eq!(find_str("abcabc", "bc"), Some(1));
    assert_eq!(find_str("abcabc", "cb"), None);
    assert_eq!(find_str("abc", ""), Some(0));
    assert!(starts_with_str("feature/1.0.0", "feature/"));
    assert!(!starts_with_str("feature/1.0.0", "hotfix/"));
    assert!(ends_with_str("1.0.0-SNAPSHOT", "-SNAPSHOT"));
    assert!(!ends_with_str("1.0.0.RELEASE", "-SNAPSHOT"));
    assert!(str_eq_whole("master", "master"));
    assert!(!str_eq_whole("master", "masters"));
}

#[test]
fn git_version_is_cut_out_of_the_report() {
    assert_eq!(
        extract_version_number("git version 2.39.1"),
        Some("2.39.1".to_string())
    );
    assert_eq!(
        extract_version_number("git version 2.39.1 (Apple Git-145)"),
        Some("2.39.1".to_string())
    );
    assert_eq!(extract_version_number("no digits here"), None);
    assert_eq!(extract_version_number(""), None);
    // The digit runs are taken greedily, left to right.
    assert_eq!(extract_version_number("x12.34.56y 9.9.9"), Some("12.34.56".to_string()));
}

#[test]
fn git_version_check_holds_against_the_minimum() {
    assert_eq!(min_git_version(), "2.23.0");
    assert!(check_git_version(&"2.39.1".to_string()));
    assert!(check_git_version(&"2.23.0".to_string()));
    assert!(!check_git_version(&"2.22.0".to_string()));
    assert!(!check_git_version(&"1.9.5".to_string()));
}

#[test]
fn selection_labels_name_their_kinds() {
    assert_eq!(ProjectType::from_str("Maven"), Ok(ProjectType::Maven));
    assert_eq!(ProjectType::from_str("Webpack"), Ok(ProjectType::Webpack));
    assert_eq!(
        ProjectType::from_str("Gradle"),
        Err(SelectionError::ProjectTypeNotFound)
    );
    assert_eq!(FlowType::from_str("Feature"), Ok(FlowType::Feature));
    assert_eq!(FlowType::from_str("Hotfix"), Ok(FlowType::Hotfix));
    assert_eq!(FlowType::from_str("Release"), Ok(FlowType::Release));
    assert_eq!(FlowType::from_str("feature"), Err(SelectionError::FlowTypeNotFound));
    assert_eq!(ReleaseType::from_str("Hotfix"), Ok(ReleaseType::Hotfix));
    assert_eq!(ReleaseType::from_str("Test"), Ok(ReleaseType::Test));
    assert_eq!(ReleaseType::from_str("Specific"), Ok(ReleaseType::Specific));
    assert_eq!(ReleaseType::from_str("Unset"), Err(SelectionError::ReleaseTypeNotFound));
    assert_eq!(ProjectType::Maven.to_string(), "Maven");
    assert_eq!(FlowType::Release.to_string(), "Release");
    assert_eq!(ReleaseType::Specific.to_string(), "Specific");
}

#[test]
fn parameters_collect_the_run_configuration() {
    let mut p = GitFlowParameter::new(ProjectType::Webpack, FlowType::Release);
    assert_eq!(p.project_type, ProjectType::Webpack);
    assert_eq!(p.flow_type, FlowType::Release);
    assert_eq!(p.release_type, None);
    assert_eq!(p.specific_branch_name, None);
    assert!(!p.need_push);
    assert!(!p.need_push_tag);
    p.set_release_type(ReleaseType::Specific);
    p.set_specific_release_branch_name("develop".to_string());
    p.set_need_push(true);
    p.set_need_push_tag(true);
    assert_eq!(p.release_type, Some(ReleaseType::Specific));
    assert_eq!(p.specific_branch_name.as_deref(), Some("develop"));
    assert!(p.need_push);
    assert!(p.need_push_tag);
    let adapter = p.get_git_flow_action_adapter();
    assert_eq!(adapter.current_project_type(), ProjectType::Webpack);
    let mut q = GitFlowParameter::new(ProjectType::Maven, FlowType::Feature);
    assert_eq!(
        q.get_git_flow_action_adapter().current_project_type(),
        ProjectType::Maven
    );
    q.set_need_push(false);
    assert!(!q.need_push);
}

#[test]
fn manifest_version_is_read_from_its_line() {
    let lines = vec![
        "{".to_string(),
        "\"name\": \"demo\",".to_string(),
        "\"version\": \"1.4.0-SNAPSHOT\",".to_string(),
        "}".to_string(),
    ];
    assert_eq!(manifest_current_version(&lines), Some("1.4.0-SNAPSHOT".to_string()));
    let none = vec!["{".to_string(), "}".to_string()];
    assert_eq!(manifest_current_version(&none), None);
}

#[test]
fn manifest_rewrite_touches_only_the_version_line() {
    let lines = vec![
        "{".to_string(),
        "\"name\": \"demo\",".to_string(),
        "\"version\": \"1.4.0-SNAPSHOT\",".to_string(),
        "\"license\": \"MIT\",".to_string(),
    ];
    let out = manifest_with_version(&lines, "1.4.0.RELEASE");
    assert_eq!(out.len(), lines.len());
    assert_eq!(out[0], "{");
    assert_eq!(out[1], "\"name\": \"demo\",");
    assert_eq!(out[2], "  \"version\": \"1.4.0.RELEASE\",");
    assert_eq!(out[3], "\"license\": \"MIT\",");
}
