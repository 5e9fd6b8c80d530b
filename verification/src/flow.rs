//! The flow engine: each of the five release workflows is a pure decision
//! function from repository observations (last tag, current version, branch
//! existence, the UTC date) to either a prerequisite error or a plan — the
//! ordered operations a repository driver must run, plus what to report.
//! A driver executes the steps in order; `CommitIfChanged` stands for the
//! commit policy, decided by [`commit_decision`] after the driver queries
//! the working tree.

use vstd::prelude::*;
use vstd::string::*;

use crate::naming::{spec_branch_name, spec_tag_name, BranchRole, compose_tag};
use crate::params::{AdapterChoice, ProjectType};
use crate::version::{
    parse_spec, spec_version_number, spec_version_string, spec_release_string, lemma_nat_digits_val,
    ParseVersionError, Qualifier, Version,
};
use crate::util::{spec_ends_with, spec_substring_before, ends_with_str, Util};

verus! {

/// One primitive operation of a plan, handed to the repository driver or
/// the project adapter.
#[derive(Clone, Debug)]
pub enum FlowStep {
    Fetch,
    Pull,
    Switch(String),
    Checkout(String),
    CreateBranch(String),
    MergeIntoCurrent(String),
    SetVersion(String),
    CommitIfChanged(String),
    Tag(String),
}

/// The mathematical shape of one step.
pub enum StepView {
    Fetch,
    Pull,
    Switch(Seq<char>),
    Checkout(Seq<char>),
    CreateBranch(Seq<char>),
    MergeIntoCurrent(Seq<char>),
    SetVersion(Seq<char>),
    CommitIfChanged(Seq<char>),
    Tag(Seq<char>),
}

impl View for FlowStep {
    type V = StepView;

    open spec fn view(&self) -> StepView {
        match self {
            FlowStep::Fetch => StepView::Fetch,
            FlowStep::Pull => StepView::Pull,
            FlowStep::Switch(b) => StepView::Switch(b@),
            FlowStep::Checkout(b) => StepView::Checkout(b@),
            FlowStep::CreateBranch(b) => StepView::CreateBranch(b@),
            FlowStep::MergeIntoCurrent(b) => StepView::MergeIntoCurrent(b@),
            FlowStep::SetVersion(v) => StepView::SetVersion(v@),
            FlowStep::CommitIfChanged(m) => StepView::CommitIfChanged(m@),
            FlowStep::Tag(t) => StepView::Tag(t@),
        }
    }
}

impl DeepView for FlowStep {
    type V = StepView;

    open spec fn deep_view(&self) -> StepView {
        self.view()
    }
}

/// A computed plan: the operations to run, in order, and the branch and tag
/// names to report on completion.
pub struct FlowPlan {
    pub steps: Vec<FlowStep>,
    pub result_branch: Option<String>,
    pub result_tag: Option<String>,
}

/// The mathematical shape of a plan.
pub struct PlanView {
    pub steps: Seq<StepView>,
    pub result_branch: Option<Seq<char>>,
    pub result_tag: Option<Seq<char>>,
}

impl View for FlowPlan {
    type V = PlanView;

    open spec fn view(&self) -> PlanView {
        PlanView {
            steps: self.steps.deep_view(),
            result_branch: self.result_branch.deep_view(),
            result_tag: self.result_tag.deep_view(),
        }
    }
}

/// Why a flow cannot proceed: a malformed version or tag, or a missing
/// prerequisite (no prior tag, no prepared branch, no usable version).
#[derive(Clone, Copy, Debug, PartialEq, Eq, Structural)]
pub enum FlowError {
    Parse(ParseVersionError),
    NotReleaseTag,
    NoTagFound,
    MissingTestBranch,
    MissingHotfixBranch,
    NoCurrentVersion,
    NotSnapshotVersion,
}

/// The view of a planning result.
pub open spec fn plan_result_view(r: Result<FlowPlan, FlowError>) -> Result<PlanView, FlowError> {
    match r {
        Ok(p) => Ok(p@),
        Err(e) => Err(e),
    }
}

/// The view of a branch-name result.
pub open spec fn name_result_view(r: Result<String, FlowError>) -> Result<Seq<char>, FlowError> {
    match r {
        Ok(s) => Ok(s@),
        Err(e) => Err(e),
    }
}

/// The unconditional sync onto a branch: fetch, switch, pull.
pub open spec fn spec_sync_steps(branch: Seq<char>) -> Seq<StepView> {
    seq![StepView::Fetch, StepView::Switch(branch), StepView::Pull]
}

/// The idempotent branch protocol, remote existence checked before local:
/// an existing remote copy is fetched, switched to and pulled; an existing
/// local copy is switched to; otherwise the branch is created from the
/// current position, checked out, given `version_to_set`, and committed
/// under the commit policy.
pub open spec fn spec_ensure_branch_steps(
    target: Seq<char>,
    remote_exists: bool,
    local_exists: bool,
    version_to_set: Seq<char>,
    commit_message: Seq<char>,
) -> Seq<StepView> {
    if remote_exists {
        seq![StepView::Fetch, StepView::Switch(target), StepView::Pull]
    } else if local_exists {
        seq![StepView::Switch(target)]
    } else {
        seq![
            StepView::CreateBranch(target),
            StepView::Checkout(target),
            StepView::SetVersion(version_to_set),
            StepView::CommitIfChanged(commit_message),
        ]
    }
}

/// The sync onto a branch that must already exist: fetch and switch, and a
/// pull when the remote copy is the one that exists.
pub open spec fn spec_sync_existing_steps(target: Seq<char>, remote_exists: bool) -> Seq<
    StepView,
> {
    if remote_exists {
        seq![StepView::Fetch, StepView::Switch(target), StepView::Pull]
    } else {
        seq![StepView::Fetch, StepView::Switch(target)]
    }
}

/// The branch-sync protocol is idempotent: once the target exists remotely,
/// a re-run decides fetch–switch–pull and never orders a branch creation.
pub proof fn lemma_ensure_branch_idempotent(
    target: Seq<char>,
    local_exists: bool,
    version_to_set: Seq<char>,
    commit_message: Seq<char>,
)
    ensures
        spec_ensure_branch_steps(target, true, local_exists, version_to_set, commit_message)
            =~= seq![StepView::Fetch, StepView::Switch(target), StepView::Pull],
        forall|i: int|
            0 <= i < spec_ensure_branch_steps(
                target,
                true,
                local_exists,
                version_to_set,
                commit_message,
            ).len() ==> !(#[trigger] spec_ensure_branch_steps(
                target,
                true,
                local_exists,
                version_to_set,
                commit_message,
            )[i] is CreateBranch),
{
}

/// Decide the commit policy after a version-set step: commit, with the
/// given message, exactly when the working tree reported changes.
pub fn commit_decision(anything_changed: bool, message: &str) -> (r: Option<String>)
    ensures
        anything_changed ==> (r matches Some(m) && m@ == message@),
        !anything_changed ==> r is None,
{
    if anything_changed {
        Some(message.to_owned())
    } else {
        None
    }
}

/// The steps every flow runs before it reads anything: fetch, switch to
/// the flow's base branch, pull. The feature flow opens on `develop`; the
/// hotfix and the tag-driven release flows open on `master`; a release from
/// a specific branch opens on that branch. Only after these steps are the
/// current version, the last tag and the branch existence observed, and the
/// rest of the flow planned.
pub fn opening_sync_steps(base_branch: &str) -> (r: Vec<FlowStep>)
    ensures
        r.deep_view() == spec_sync_steps(base_branch@),
{
    let mut steps: Vec<FlowStep> = Vec::new();
    steps.push(FlowStep::Fetch);
    steps.push(FlowStep::Switch(base_branch.to_owned()));
    steps.push(FlowStep::Pull);
    proof {
        assert(steps.deep_view() =~= spec_sync_steps(base_branch@));
    }
    steps
}

/// What the feature flow decides once `develop` is synced and the current
/// version read, for every combination of observations.
pub open spec fn feature_plan_spec(
    current_version: Option<Seq<char>>,
    remote_exists: bool,
    local_exists: bool,
) -> Result<PlanView, FlowError> {
    let raw = match current_version {
        Some(s) => s,
        None => "1.0.0-SNAPSHOT"@,
    };
    match parse_spec(raw) {
        Err(e) => Err(FlowError::Parse(e)),
        Ok(ver) => {
            let num = spec_version_number(ver);
            let target = spec_branch_name(BranchRole::Feature, num);
            Ok(
                PlanView {
                    steps: spec_ensure_branch_steps(
                        target,
                        remote_exists,
                        local_exists,
                        raw,
                        "new feature: "@ + num,
                    ),
                    result_branch: Some(target),
                    result_tag: None,
                },
            )
        },
    }
}

/// What a release tag `v<number>.RELEASE.<date>` names: the version before
/// its first `.RELEASE`, parsed with the `.RELEASE` qualifier restored, so
/// the trailing date falls away. A tag without `.RELEASE` is no release tag.
pub open spec fn parse_tag_spec(tag: Seq<char>) -> Result<Version, FlowError> {
    match spec_substring_before(tag, ".RELEASE"@) {
        None => Err(FlowError::NotReleaseTag),
        Some(before) => match parse_spec(before + ".RELEASE"@) {
            Err(e) => Err(FlowError::Parse(e)),
            Ok(v) => Ok(v),
        },
    }
}

/// The version a release tag names.
pub fn parse_release_tag(tag: &String) -> (r: Result<Version, FlowError>)
    ensures
        r == parse_tag_spec(tag@),
{
    let before: String = match Util::substring_before(tag, ".RELEASE") {
        Some(b) => b,
        None => {
            return Err(FlowError::NotReleaseTag);
        },
    };
    let mut full = before;
    full.append(".RELEASE");
    match Version::parse(full.as_str()) {
        Ok(v) => Ok(v),
        Err(e) => Err(FlowError::Parse(e)),
    }
}

/// The patch-line candidate after the last release tag: the tag's version
/// with its patch component one higher.
pub open spec fn patch_candidate_spec(last_tag: Option<Seq<char>>) -> Result<Version, FlowError> {
    match last_tag {
        None => Err(FlowError::NoTagFound),
        Some(tag) => match parse_tag_spec(tag) {
            Err(e) => Err(e),
            Ok(last) => {
                if last.patch == u64::MAX {
                    Err(FlowError::Parse(ParseVersionError::ComponentTooLarge { index: 2 }))
                } else {
                    Ok(
                        Version {
                            major: last.major,
                            minor: last.minor,
                            patch: (last.patch + 1) as u64,
                            qualifier: last.qualifier,
                        },
                    )
                }
            },
        },
    }
}

/// What the hotfix flow decides once `master` is synced and the last tag
/// read, for every combination of observations.
pub open spec fn hotfix_plan_spec(
    last_tag: Option<Seq<char>>,
    remote_exists: bool,
    local_exists: bool,
) -> Result<PlanView, FlowError> {
    match patch_candidate_spec(last_tag) {
        Err(e) => Err(e),
        Ok(cand) => {
            let next = Version {
                major: cand.major,
                minor: cand.minor,
                patch: cand.patch,
                qualifier: Qualifier::Snapshot,
            };
            let num = spec_version_number(next);
            let target = spec_branch_name(BranchRole::Hotfix, num);
            Ok(
                PlanView {
                    steps: spec_ensure_branch_steps(
                        target,
                        remote_exists,
                        local_exists,
                        spec_version_string(next),
                        "new hotfix: "@ + num,
                    ),
                    result_branch: Some(target),
                    result_tag: None,
                },
            )
        },
    }
}

/// The minor-line candidate for a release from test: the last release tag
/// with its minor component one higher and the patch reset, or `1.0.0`
/// when no tag exists yet.
pub open spec fn minor_candidate_spec(last_tag: Option<Seq<char>>) -> Result<Version, FlowError> {
    match last_tag {
        None => Ok(Version { major: 1, minor: 0, patch: 0, qualifier: Qualifier::Plain }),
        Some(tag) => match parse_tag_spec(tag) {
            Err(e) => Err(e),
            Ok(last) => {
                if last.minor == u64::MAX {
                    Err(FlowError::Parse(ParseVersionError::ComponentTooLarge { index: 1 }))
                } else {
                    Ok(
                        Version {
                            major: last.major,
                            minor: (last.minor + 1) as u64,
                            patch: 0,
                            qualifier: last.qualifier,
                        },
                    )
                }
            },
        },
    }
}

/// What the release-from-test flow decides once `master` is synced and the
/// last tag read, for every combination of observations.
pub open spec fn release_test_plan_spec(
    last_tag: Option<Seq<char>>,
    remote_exists: bool,
    local_exists: bool,
    date: Seq<char>,
) -> Result<PlanView, FlowError> {
    match minor_candidate_spec(last_tag) {
        Err(e) => Err(e),
        Ok(cand) => {
            let num = spec_version_number(cand);
            let test_branch = spec_branch_name(BranchRole::Test, num);
            if !remote_exists && !local_exists {
                Err(FlowError::MissingTestBranch)
            } else if cand.minor == u64::MAX {
                Err(FlowError::Parse(ParseVersionError::ComponentTooLarge { index: 1 }))
            } else {
                let tag = spec_tag_name(num, date);
                let next = Version {
                    major: cand.major,
                    minor: (cand.minor + 1) as u64,
                    patch: 0,
                    qualifier: Qualifier::Snapshot,
                };
                let next_str = spec_version_string(next);
                let feature_branch = spec_branch_name(
                    BranchRole::Feature,
                    spec_version_number(next),
                );
                Ok(
                    PlanView {
                        steps: spec_sync_existing_steps(test_branch, remote_exists) + seq![
                            StepView::Checkout("master"@),
                            StepView::Pull,
                            StepView::MergeIntoCurrent(test_branch),
                            StepView::SetVersion(spec_release_string(cand)),
                            StepView::CommitIfChanged("release: "@ + num),
                            StepView::Tag(tag),
                            StepView::SetVersion(next_str),
                            StepView::CommitIfChanged("back to: "@ + next_str),
                            StepView::Switch("develop"@),
                            StepView::Pull,
                            StepView::MergeIntoCurrent("master"@),
                            StepView::CreateBranch(feature_branch),
                            StepView::Checkout(feature_branch),
                        ],
                        result_branch: Some(feature_branch),
                        result_tag: Some(tag),
                    },
                )
            }
        },
    }
}

/// What the release-from-a-specific-branch flow decides once the source
/// branch is synced and its version read, for every combination of
/// observations. The caller-supplied source branch is trusted as given; no
/// follow-up merge back to other branches is planned.
pub open spec fn release_specific_plan_spec(
    source_branch: Seq<char>,
    current_version: Option<Seq<char>>,
    date: Seq<char>,
) -> Result<PlanView, FlowError> {
    match current_version {
        None => Err(FlowError::NoCurrentVersion),
        Some(cur) => {
            if !spec_ends_with(cur, "-SNAPSHOT"@) {
                Err(FlowError::NotSnapshotVersion)
            } else {
                match spec_substring_before(cur, "-SNAPSHOT"@) {
                    None => Err(FlowError::NotSnapshotVersion),
                    Some(num) => {
                        let tag = spec_tag_name(num, date);
                        Ok(
                            PlanView {
                                steps: seq![
                                    StepView::Switch("master"@),
                                    StepView::Pull,
                                    StepView::MergeIntoCurrent(source_branch),
                                    StepView::SetVersion(num + ".RELEASE"@),
                                    StepView::CommitIfChanged("release: "@ + num),
                                    StepView::Tag(tag),
                                ],
                                result_branch: None,
                                result_tag: Some(tag),
                            },
                        )
                    },
                }
            }
        },
    }
}

/// What the release-from-hotfix flow decides once `master` is synced and
/// the last tag read, for every combination of observations.
pub open spec fn release_hotfix_plan_spec(
    last_tag: Option<Seq<char>>,
    remote_exists: bool,
    local_exists: bool,
    date: Seq<char>,
) -> Result<PlanView, FlowError> {
    match patch_candidate_spec(last_tag) {
        Err(e) => Err(e),
        Ok(cand) => {
            let num = spec_version_number(cand);
            let hotfix_branch = spec_branch_name(BranchRole::Hotfix, num);
            if !remote_exists && !local_exists {
                Err(FlowError::MissingHotfixBranch)
            } else if cand.minor == u64::MAX {
                Err(FlowError::Parse(ParseVersionError::ComponentTooLarge { index: 1 }))
            } else {
                let tag = spec_tag_name(num, date);
                let next = Version {
                    major: cand.major,
                    minor: (cand.minor + 1) as u64,
                    patch: 0,
                    qualifier: Qualifier::Snapshot,
                };
                let next_str = spec_version_string(next);
                Ok(
                    PlanView {
                        steps: spec_sync_existing_steps(hotfix_branch, remote_exists) + seq![
                            StepView::Checkout("master"@),
                            StepView::Pull,
                            StepView::MergeIntoCurrent(hotfix_branch),
                            StepView::SetVersion(spec_release_string(cand)),
                            StepView::CommitIfChanged("release: "@ + num),
                            StepView::Tag(tag),
                            StepView::SetVersion(next_str),
                            StepView::CommitIfChanged("back to: "@ + next_str),
                            StepView::Switch("develop"@),
                            StepView::Pull,
                            StepView::MergeIntoCurrent("master"@),
                        ],
                        result_branch: None,
                        result_tag: Some(tag),
                    },
                )
            }
        },
    }
}

/// The branch the feature flow will ensure, from the current version alone.
pub open spec fn feature_target_spec(current_version: Option<Seq<char>>) -> Result<
    Seq<char>,
    FlowError,
> {
    let raw = match current_version {
        Some(s) => s,
        None => "1.0.0-SNAPSHOT"@,
    };
    match parse_spec(raw) {
        Err(e) => Err(FlowError::Parse(e)),
        Ok(ver) => Ok(spec_branch_name(BranchRole::Feature, spec_version_number(ver))),
    }
}

/// The branch the hotfix and release-from-hotfix flows work on, from the
/// last tag alone.
pub open spec fn hotfix_target_spec(last_tag: Option<Seq<char>>) -> Result<Seq<char>, FlowError> {
    match patch_candidate_spec(last_tag) {
        Err(e) => Err(e),
        Ok(cand) => Ok(spec_branch_name(BranchRole::Hotfix, spec_version_number(cand))),
    }
}

/// The branch the release-from-test flow works on, from the last tag alone.
pub open spec fn release_test_target_spec(last_tag: Option<Seq<char>>) -> Result<
    Seq<char>,
    FlowError,
> {
    match minor_candidate_spec(last_tag) {
        Err(e) => Err(e),
        Ok(cand) => Ok(spec_branch_name(BranchRole::Test, spec_version_number(cand))),
    }
}

/// The `feature/<number>` branch the feature flow will ensure; a driver
/// asks this first, so it can observe whether the branch already exists.
pub fn feature_target_branch(current_version: &Option<String>) -> (r: Result<String, FlowError>)
    ensures
        name_result_view(r) == feature_target_spec(current_version.deep_view()),
{
    let raw: String = match current_version {
        Some(s) => s.clone(),
        None => "1.0.0-SNAPSHOT".to_owned(),
    };
    let ver = match Version::parse(raw.as_str()) {
        Ok(v) => v,
        Err(e) => {
            return Err(FlowError::Parse(e));
        },
    };
    let num = ver.number_string();
    proof {
        lemma_nat_digits_val(ver.major as int);
    }
    Ok(BranchRole::Feature.name_for(num.as_str()))
}

/// The `hotfix/<number>` branch the hotfix and release-from-hotfix flows
/// work on; a driver asks this first, so it can observe branch existence.
pub fn hotfix_target_branch(last_tag: &Option<String>) -> (r: Result<String, FlowError>)
    ensures
        name_result_view(r) == hotfix_target_spec(last_tag.deep_view()),
{
    let tag: &String = match last_tag {
        Some(t) => t,
        None => {
            return Err(FlowError::NoTagFound);
        },
    };
    let last = match parse_release_tag(tag) {
        Ok(v) => v,
        Err(e) => {
            return Err(e);
        },
    };
    if last.patch == u64::MAX {
        return Err(FlowError::Parse(ParseVersionError::ComponentTooLarge { index: 2 }));
    }
    let cand = last.bump_patch();
    let num = cand.number_string();
    proof {
        lemma_nat_digits_val(cand.major as int);
    }
    Ok(BranchRole::Hotfix.name_for(num.as_str()))
}

/// The `test/<number>` branch the release-from-test flow works on; a driver
/// asks this first, so it can observe branch existence.
pub fn release_test_target_branch(last_tag: &Option<String>) -> (r: Result<String, FlowError>)
    ensures
        name_result_view(r) == release_test_target_spec(last_tag.deep_view()),
{
    let cand: Version = match last_tag {
        Some(tag) => {
            let last = match parse_release_tag(tag) {
                Ok(v) => v,
                Err(e) => {
                    return Err(e);
                },
            };
            if last.minor == u64::MAX {
                return Err(FlowError::Parse(ParseVersionError::ComponentTooLarge { index: 1 }));
            }
            last.bump_minor_reset_patch()
        },
        None => Version { major: 1, minor: 0, patch: 0, qualifier: Qualifier::Plain },
    };
    let num = cand.number_string();
    proof {
        lemma_nat_digits_val(cand.major as int);
    }
    Ok(BranchRole::Test.name_for(num.as_str()))
}

/// Relies on chrono's `Utc::now`, formatted with `%Y%m%d`: the current UTC
/// date as digits. The result depends on the clock, so nothing is promised
/// of it.
#[verifier::external_body]
fn utc_date_stamp() -> String {
    chrono::Utc::now().format("%Y%m%d").to_string()
}

/// The flow engine: carries the project adapter selected at flow start and
/// plans each workflow from the observations handed to it.
pub struct CommonGitFlowAction {
    pub git_flow_action_adapter: AdapterChoice,
}

impl CommonGitFlowAction {
    /// An engine bound to the given adapter.
    pub fn new(git_flow_action_adapter: AdapterChoice) -> (r: CommonGitFlowAction)
        ensures
            r.git_flow_action_adapter == git_flow_action_adapter,
    {
        CommonGitFlowAction { git_flow_action_adapter }
    }

    /// Plan the release-from-test flow against the current UTC date: the
    /// result is the plan for some date string, the clock's answer.
    pub fn do_release_test_now(
        &self,
        last_tag: &Option<String>,
        remote_exists: bool,
        local_exists: bool,
    ) -> (r: Result<FlowPlan, FlowError>)
        ensures
            exists|d: Seq<char>|
                plan_result_view(r) == release_test_plan_spec(
                    last_tag.deep_view(),
                    remote_exists,
                    local_exists,
                    d,
                ),
    {
        let date = utc_date_stamp();
        let r = self.do_release_test(last_tag, remote_exists, local_exists, date.as_str());
        proof {
            assert(plan_result_view(r) == release_test_plan_spec(
                last_tag.deep_view(),
                remote_exists,
                local_exists,
                date@,
            ));
        }
        r
    }

    /// Plan the release of a caller-chosen source branch against the
    /// current UTC date: the plan for some date string, the clock's answer.
    pub fn do_release_specific_now(
        &self,
        release_source_branch: String,
        current_version: &Option<String>,
    ) -> (r: Result<FlowPlan, FlowError>)
        ensures
            exists|d: Seq<char>|
                plan_result_view(r) == release_specific_plan_spec(
                    release_source_branch@,
                    current_version.deep_view(),
                    d,
                ),
    {
        let date = utc_date_stamp();
        let ghost source_view = release_source_branch@;
        let r = self.do_release_specific(release_source_branch, current_version, date.as_str());
        proof {
            assert(plan_result_view(r) == release_specific_plan_spec(
                source_view,
                current_version.deep_view(),
                date@,
            ));
        }
        r
    }

    /// Plan the release-from-hotfix flow against the current UTC date: the
    /// plan for some date string, the clock's answer.
    pub fn do_release_hotfix_now(
        &self,
        last_tag: &Option<String>,
        remote_exists: bool,
        local_exists: bool,
    ) -> (r: Result<FlowPlan, FlowError>)
        ensures
            exists|d: Seq<char>|
                plan_result_view(r) == release_hotfix_plan_spec(
                    last_tag.deep_view(),
                    remote_exists,
                    local_exists,
                    d,
                ),
    {
        let date = utc_date_stamp();
        let r = self.do_release_hotfix(last_tag, remote_exists, local_exists, date.as_str());
        proof {
            assert(plan_result_view(r) == release_hotfix_plan_spec(
                last_tag.deep_view(),
                remote_exists,
                local_exists,
                date@,
            ));
        }
        r
    }
}

/// The five workflows and the adapter query, together the whole surface a
/// driver needs to run a flow.
pub trait GitFlow {
    /// The project type the configured adapter serves.
    fn project_type(&self) -> ProjectType;

    /// Plan the feature flow, after the opening sync on `develop`: take
    /// the current version (or fall back to `1.0.0-SNAPSHOT`) and ensure
    /// `feature/<number>` exists through the idempotent branch protocol.
    fn do_feature(
        &self,
        current_version: &Option<String>,
        remote_exists: bool,
        local_exists: bool,
    ) -> (r: Result<FlowPlan, FlowError>)
        ensures
            plan_result_view(r) == feature_plan_spec(
                current_version.deep_view(),
                remote_exists,
                local_exists,
            ),
    ;

    /// Plan the hotfix flow, after the opening sync on `master`: bump the
    /// patch of the last release tag and ensure `hotfix/<number>` exists
    /// through the idempotent branch protocol.
    fn do_hotfix(
        &self,
        last_tag: &Option<String>,
        remote_exists: bool,
        local_exists: bool,
    ) -> (r: Result<FlowPlan, FlowError>)
        ensures
            plan_result_view(r) == hotfix_plan_spec(
                last_tag.deep_view(),
                remote_exists,
                local_exists,
            ),
    ;

    /// Plan the release-from-test flow for the given `YYYYMMDD` date,
    /// after the opening sync on `master`: bump the minor of the last tag
    /// (or default to `1.0.0`), sync onto the prepared `test/<number>`
    /// branch, merge it to `master`, set and commit the release version,
    /// tag, move to the next snapshot, and cut the next feature branch off
    /// `develop`.
    fn do_release_test(
        &self,
        last_tag: &Option<String>,
        remote_exists: bool,
        local_exists: bool,
        date: &str,
    ) -> (r: Result<FlowPlan, FlowError>)
        ensures
            plan_result_view(r) == release_test_plan_spec(
                last_tag.deep_view(),
                remote_exists,
                local_exists,
                date@,
            ),
    ;

    /// Plan the release of a caller-chosen source branch for the given
    /// `YYYYMMDD` date, after the opening sync on that branch: require a
    /// snapshot version on it, merge it to `master`, set and commit the
    /// release version, and tag; follow-up merges are left to the operator.
    fn do_release_specific(
        &self,
        release_source_branch: String,
        current_version: &Option<String>,
        date: &str,
    ) -> (r: Result<FlowPlan, FlowError>)
        ensures
            plan_result_view(r) == release_specific_plan_spec(
                release_source_branch@,
                current_version.deep_view(),
                date@,
            ),
    ;

    /// Plan the release-from-hotfix flow for the given `YYYYMMDD` date,
    /// after the opening sync on `master`: bump the patch of the last tag,
    /// sync onto the prepared `hotfix/<number>` branch, merge it to
    /// `master`, set and commit the release version, tag, move to the next
    /// snapshot, and merge `master` back to `develop`.
    fn do_release_hotfix(
        &self,
        last_tag: &Option<String>,
        remote_exists: bool,
        local_exists: bool,
        date: &str,
    ) -> (r: Result<FlowPlan, FlowError>)
        ensures
            plan_result_view(r) == release_hotfix_plan_spec(
                last_tag.deep_view(),
                remote_exists,
                local_exists,
                date@,
            ),
    ;
}

impl GitFlow for CommonGitFlowAction {
    fn project_type(&self) -> (r: ProjectType)
        ensures
            r == self.git_flow_action_adapter.spec_project_type(),
    {
        self.git_flow_action_adapter.current_project_type()
    }

    fn do_feature(
        &self,
        current_version: &Option<String>,
        remote_exists: bool,
        local_exists: bool,
    ) -> (r: Result<FlowPlan, FlowError>) {
        let raw: String = match current_version {
            Some(s) => s.clone(),
            None => "1.0.0-SNAPSHOT".to_owned(),
        };
        let ver = match Version::parse(raw.as_str()) {
            Ok(v) => v,
            Err(e) => {
                return Err(FlowError::Parse(e));
            },
        };
        let num = ver.number_string();
        proof {
            lemma_nat_digits_val(ver.major as int);
        }
        let target = BranchRole::Feature.name_for(num.as_str());
        let mut steps: Vec<FlowStep> = Vec::new();
        if remote_exists {
            steps.push(FlowStep::Fetch);
            steps.push(FlowStep::Switch(target.clone()));
            steps.push(FlowStep::Pull);
        } else if local_exists {
            steps.push(FlowStep::Switch(target.clone()));
        } else {
            steps.push(FlowStep::CreateBranch(target.clone()));
            steps.push(FlowStep::Checkout(target.clone()));
            steps.push(FlowStep::SetVersion(raw.clone()));
            let mut msg = "new feature: ".to_owned();
            msg.append(num.as_str());
            steps.push(FlowStep::CommitIfChanged(msg));
        }
        let plan = FlowPlan { steps, result_branch: Some(target), result_tag: None };
        proof {
            let expected = feature_plan_spec(
                current_version.deep_view(),
                remote_exists,
                local_exists,
            );
            assert(plan@.steps =~= expected->Ok_0.steps);
            assert(plan@.result_branch == expected->Ok_0.result_branch);
            assert(plan@.result_tag == expected->Ok_0.result_tag);
        }
        Ok(plan)
    }

    fn do_hotfix(
        &self,
        last_tag: &Option<String>,
        remote_exists: bool,
        local_exists: bool,
    ) -> (r: Result<FlowPlan, FlowError>) {
        let tag: &String = match last_tag {
            Some(t) => t,
            None => {
                return Err(FlowError::NoTagFound);
            },
        };
        let last = match parse_release_tag(tag) {
            Ok(v) => v,
            Err(e) => {
                return Err(e);
            },
        };
        if last.patch == u64::MAX {
            return Err(FlowError::Parse(ParseVersionError::ComponentTooLarge { index: 2 }));
        }
        let next = last.bump_patch().with_qualifier(Qualifier::Snapshot);
        let num = next.number_string();
        proof {
            lemma_nat_digits_val(next.major as int);
        }
        let target = BranchRole::Hotfix.name_for(num.as_str());
        let mut steps: Vec<FlowStep> = Vec::new();
        if remote_exists {
            steps.push(FlowStep::Fetch);
            steps.push(FlowStep::Switch(target.clone()));
            steps.push(FlowStep::Pull);
        } else if local_exists {
            steps.push(FlowStep::Switch(target.clone()));
        } else {
            steps.push(FlowStep::CreateBranch(target.clone()));
            steps.push(FlowStep::Checkout(target.clone()));
            steps.push(FlowStep::SetVersion(next.to_string()));
            let mut msg = "new hotfix: ".to_owned();
            msg.append(num.as_str());
            steps.push(FlowStep::CommitIfChanged(msg));
        }
        let plan = FlowPlan { steps, result_branch: Some(target), result_tag: None };
        proof {
            let expected = hotfix_plan_spec(last_tag.deep_view(), remote_exists, local_exists);
            assert(plan@.steps =~= expected->Ok_0.steps);
            assert(plan@.result_branch == expected->Ok_0.result_branch);
            assert(plan@.result_tag == expected->Ok_0.result_tag);
        }
        Ok(plan)
    }

    fn do_release_test(
        &self,
        last_tag: &Option<String>,
        remote_exists: bool,
        local_exists: bool,
        date: &str,
    ) -> (r: Result<FlowPlan, FlowError>) {
        let cand: Version = match last_tag {
            Some(tag) => {
                let last = match parse_release_tag(tag) {
                    Ok(v) => v,
                    Err(e) => {
                        return Err(e);
                    },
                };
                if last.minor == u64::MAX {
                    return Err(
                        FlowError::Parse(ParseVersionError::ComponentTooLarge { index: 1 }),
                    );
                }
                last.bump_minor_reset_patch()
            },
            None => Version { major: 1, minor: 0, patch: 0, qualifier: Qualifier::Plain },
        };
        let num = cand.number_string();
        proof {
            lemma_nat_digits_val(cand.major as int);
        }
        let test_branch = BranchRole::Test.name_for(num.as_str());
        if !remote_exists && !local_exists {
            return Err(FlowError::MissingTestBranch);
        }
        if cand.minor == u64::MAX {
            return Err(FlowError::Parse(ParseVersionError::ComponentTooLarge { index: 1 }));
        }
        let tag_name = compose_tag(num.as_str(), date);
        let next = cand.bump_minor();
        let next_str = next.to_string();
        let next_num = next.number_string();
        proof {
            lemma_nat_digits_val(next.major as int);
        }
        let feature_branch = BranchRole::Feature.name_for(next_num.as_str());
        let mut steps: Vec<FlowStep> = Vec::new();
        steps.push(FlowStep::Fetch);
        steps.push(FlowStep::Switch(test_branch.clone()));
        if remote_exists {
            steps.push(FlowStep::Pull);
        }
        steps.push(FlowStep::Checkout("master".to_owned()));
        steps.push(FlowStep::Pull);
        steps.push(FlowStep::MergeIntoCurrent(test_branch));
        steps.push(FlowStep::SetVersion(cand.to_release_string()));
        let mut rel_msg = "release: ".to_owned();
        rel_msg.append(num.as_str());
        steps.push(FlowStep::CommitIfChanged(rel_msg));
        steps.push(FlowStep::Tag(tag_name.clone()));
        steps.push(FlowStep::SetVersion(next_str.clone()));
        let mut back_msg = "back to: ".to_owned();
        back_msg.append(next_str.as_str());
        steps.push(FlowStep::CommitIfChanged(back_msg));
        steps.push(FlowStep::Switch("develop".to_owned()));
        steps.push(FlowStep::Pull);
        steps.push(FlowStep::MergeIntoCurrent("master".to_owned()));
        steps.push(FlowStep::CreateBranch(feature_branch.clone()));
        steps.push(FlowStep::Checkout(feature_branch.clone()));
        let plan = FlowPlan {
            steps,
            result_branch: Some(feature_branch),
            result_tag: Some(tag_name),
        };
        proof {
            let expected = release_test_plan_spec(
                last_tag.deep_view(),
                remote_exists,
                local_exists,
                date@,
            );
            assert(plan@.steps =~= expected->Ok_0.steps);
            assert(plan@.result_branch == expected->Ok_0.result_branch);
            assert(plan@.result_tag == expected->Ok_0.result_tag);
        }
        Ok(plan)
    }

    fn do_release_specific(
        &self,
        release_source_branch: String,
        current_version: &Option<String>,
        date: &str,
    ) -> (r: Result<FlowPlan, FlowError>) {
        let cur: &String = match current_version {
            Some(c) => c,
            None => {
                return Err(FlowError::NoCurrentVersion);
            },
        };
        if !ends_with_str(cur.as_str(), "-SNAPSHOT") {
            return Err(FlowError::NotSnapshotVersion);
        }
        let num: String = match Util::substring_before(cur, "-SNAPSHOT") {
            Some(n) => n,
            None => {
                return Err(FlowError::NotSnapshotVersion);
            },
        };
        let tag_name = compose_tag(num.as_str(), date);
        let mut rel = num.clone();
        rel.append(".RELEASE");
        let mut steps: Vec<FlowStep> = Vec::new();
        steps.push(FlowStep::Switch("master".to_owned()));
        steps.push(FlowStep::Pull);
        steps.push(FlowStep::MergeIntoCurrent(release_source_branch));
        steps.push(FlowStep::SetVersion(rel));
        let mut rel_msg = "release: ".to_owned();
        rel_msg.append(num.as_str());
        steps.push(FlowStep::CommitIfChanged(rel_msg));
        steps.push(FlowStep::Tag(tag_name.clone()));
        let plan = FlowPlan { steps, result_branch: None, result_tag: Some(tag_name) };
        proof {
            let expected = release_specific_plan_spec(
                release_source_branch@,
                current_version.deep_view(),
                date@,
            );
            assert(plan@.steps =~= expected->Ok_0.steps);
            assert(plan@.result_branch == expected->Ok_0.result_branch);
            assert(plan@.result_tag == expected->Ok_0.result_tag);
        }
        Ok(plan)
    }

    fn do_release_hotfix(
        &self,
        last_tag: &Option<String>,
        remote_exists: bool,
        local_exists: bool,
        date: &str,
    ) -> (r: Result<FlowPlan, FlowError>) {
        let tag: &String = match last_tag {
            Some(t) => t,
            None => {
                return Err(FlowError::NoTagFound);
            },
        };
        let last = match parse_release_tag(tag) {
            Ok(v) => v,
            Err(e) => {
                return Err(e);
            },
        };
        if last.patch == u64::MAX {
            return Err(FlowError::Parse(ParseVersionError::ComponentTooLarge { index: 2 }));
        }
        let cand = last.bump_patch();
        let num = cand.number_string();
        proof {
            lemma_nat_digits_val(cand.major as int);
        }
        let hotfix_branch = BranchRole::Hotfix.name_for(num.as_str());
        if !remote_exists && !local_exists {
            return Err(FlowError::MissingHotfixBranch);
        }
        if cand.minor == u64::MAX {
            return Err(FlowError::Parse(ParseVersionError::ComponentTooLarge { index: 1 }));
        }
        let tag_name = compose_tag(num.as_str(), date);
        let next = cand.bump_minor();
        let next_str = next.to_string();
        let mut steps: Vec<FlowStep> = Vec::new();
        steps.push(FlowStep::Fetch);
        steps.push(FlowStep::Switch(hotfix_branch.clone()));
        if remote_exists {
            steps.push(FlowStep::Pull);
        }
        steps.push(FlowStep::Checkout("master".to_owned()));
        steps.push(FlowStep::Pull);
        steps.push(FlowStep::MergeIntoCurrent(hotfix_branch));
        steps.push(FlowStep::SetVersion(cand.to_release_string()));
        let mut rel_msg = "release: ".to_owned();
        rel_msg.append(num.as_str());
        steps.push(FlowStep::CommitIfChanged(rel_msg));
        steps.push(FlowStep::Tag(tag_name.clone()));
        steps.push(FlowStep::SetVersion(next_str.clone()));
        let mut back_msg = "back to: ".to_owned();
        back_msg.append(next_str.as_str());
        steps.push(FlowStep::CommitIfChanged(back_msg));
        steps.push(FlowStep::Switch("develop".to_owned()));
        steps.push(FlowStep::Pull);
        steps.push(FlowStep::MergeIntoCurrent("master".to_owned()));
        let plan = FlowPlan { steps, result_branch: None, result_tag: Some(tag_name) };
        proof {
            let expected = release_hotfix_plan_spec(
                last_tag.deep_view(),
                remote_exists,
                local_exists,
                date@,
            );
            assert(plan@.steps =~= expected->Ok_0.steps);
            assert(plan@.result_branch == expected->Ok_0.result_branch);
            assert(plan@.result_tag == expected->Ok_0.result_tag);
        }
        Ok(plan)
    }
}

} // verus!
