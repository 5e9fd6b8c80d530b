//! Flow configuration: the project, flow and release kinds a user selects,
//! the parameter record they are collected in, and the project-adapter
//! selection.

use vstd::prelude::*;
use vstd::string::*;

use crate::util::str_eq_whole;

verus! {

/// The build ecosystem of the project being released.
#[derive(Clone, Copy, Debug, PartialEq, Eq, Structural)]
pub enum ProjectType {
    Maven,
    Webpack,
}

/// The top-level workflow to run.
#[derive(Clone, Copy, Debug, PartialEq, Eq, Structural)]
pub enum FlowType {
    Feature,
    Hotfix,
    Release,
}

/// Which release workflow to run; `Unset` stands for no selection yet.
#[derive(Clone, Copy, Debug, PartialEq, Eq, Structural)]
pub enum ReleaseType {
    Unset,
    Hotfix,
    Test,
    Specific,
}

/// A selection label that names no known kind.
#[derive(Clone, Copy, Debug, PartialEq, Eq, Structural)]
pub enum SelectionError {
    ProjectTypeNotFound,
    FlowTypeNotFound,
    ReleaseTypeNotFound,
}

impl ProjectType {
    /// The display label of this project type.
    pub open spec fn spec_label(&self) -> Seq<char> {
        match self {
            ProjectType::Maven => "Maven"@,
            ProjectType::Webpack => "Webpack"@,
        }
    }

    /// The project type a selection label names.
    pub fn from_str(input: &str) -> (r: Result<ProjectType, SelectionError>)
        ensures
            input@ == "Maven"@ ==> r == Ok::<ProjectType, SelectionError>(ProjectType::Maven),
            input@ == "Webpack"@ ==> r == Ok::<ProjectType, SelectionError>(ProjectType::Webpack),
            (input@ != "Maven"@ && input@ != "Webpack"@) ==> r == Err::<ProjectType, SelectionError>(
                SelectionError::ProjectTypeNotFound,
            ),
    {
        proof {
            reveal_strlit("Maven");
            reveal_strlit("Webpack");
            assert("Maven"@.len() == 5);
            assert("Webpack"@.len() == 7);
        }
        if str_eq_whole(input, "Maven") {
            Ok(ProjectType::Maven)
        } else if str_eq_whole(input, "Webpack") {
            Ok(ProjectType::Webpack)
        } else {
            Err(SelectionError::ProjectTypeNotFound)
        }
    }

    /// The display label, freshly owned.
    pub fn to_string(&self) -> (r: String)
        ensures
            r@ == self.spec_label(),
    {
        match self {
            ProjectType::Maven => "Maven".to_owned(),
            ProjectType::Webpack => "Webpack".to_owned(),
        }
    }
}

impl FlowType {
    /// The display label of this flow type.
    pub open spec fn spec_label(&self) -> Seq<char> {
        match self {
            FlowType::Feature => "Feature"@,
            FlowType::Hotfix => "Hotfix"@,
            FlowType::Release => "Release"@,
        }
    }

    /// The flow type a selection label names.
    pub fn from_str(input: &str) -> (r: Result<FlowType, SelectionError>)
        ensures
            input@ == "Feature"@ ==> r == Ok::<FlowType, SelectionError>(FlowType::Feature),
            input@ == "Hotfix"@ ==> r == Ok::<FlowType, SelectionError>(FlowType::Hotfix),
            input@ == "Release"@ ==> r == Ok::<FlowType, SelectionError>(FlowType::Release),
            (input@ != "Feature"@ && input@ != "Hotfix"@ && input@ != "Release"@) ==> r
                == Err::<FlowType, SelectionError>(SelectionError::FlowTypeNotFound),
    {
        proof {
            reveal_strlit("Feature");
            reveal_strlit("Hotfix");
            reveal_strlit("Release");
            assert("Feature"@.len() == 7);
            assert("Hotfix"@.len() == 6);
            assert("Release"@.len() == 7);
            assert("Feature"@[0] == 'F');
            assert("Release"@[0] == 'R');
        }
        if str_eq_whole(input, "Feature") {
            Ok(FlowType::Feature)
        } else if str_eq_whole(input, "Hotfix") {
            Ok(FlowType::Hotfix)
        } else if str_eq_whole(input, "Release") {
            Ok(FlowType::Release)
        } else {
            Err(SelectionError::FlowTypeNotFound)
        }
    }

    /// The display label, freshly owned.
    pub fn to_string(&self) -> (r: String)
        ensures
            r@ == self.spec_label(),
    {
        match self {
            FlowType::Feature => "Feature".to_owned(),
            FlowType::Hotfix => "Hotfix".to_owned(),
            FlowType::Release => "Release".to_owned(),
        }
    }
}

impl ReleaseType {
    /// The display label of this release type.
    pub open spec fn spec_label(&self) -> Seq<char> {
        match self {
            ReleaseType::Unset => "Unset"@,
            ReleaseType::Hotfix => "Hotfix"@,
            ReleaseType::Test => "Test"@,
            ReleaseType::Specific => "Specific"@,
        }
    }

    /// The release type a selection label names; `Unset` is never produced.
    pub fn from_str(input: &str) -> (r: Result<ReleaseType, SelectionError>)
        ensures
            input@ == "Hotfix"@ ==> r == Ok::<ReleaseType, SelectionError>(ReleaseType::Hotfix),
            input@ == "Test"@ ==> r == Ok::<ReleaseType, SelectionError>(ReleaseType::Test),
            input@ == "Specific"@ ==> r == Ok::<ReleaseType, SelectionError>(ReleaseType::Specific),
            (input@ != "Hotfix"@ && input@ != "Test"@ && input@ != "Specific"@) ==> r
                == Err::<ReleaseType, SelectionError>(SelectionError::ReleaseTypeNotFound),
    {
        proof {
            reveal_strlit("Hotfix");
            reveal_strlit("Test");
            reveal_strlit("Specific");
            assert("Hotfix"@.len() == 6);
            assert("Test"@.len() == 4);
            assert("Specific"@.len() == 8);
        }
        if str_eq_whole(input, "Hotfix") {
            Ok(ReleaseType::Hotfix)
        } else if str_eq_whole(input, "Test") {
            Ok(ReleaseType::Test)
        } else if str_eq_whole(input, "Specific") {
            Ok(ReleaseType::Specific)
        } else {
            Err(SelectionError::ReleaseTypeNotFound)
        }
    }

    /// The display label, freshly owned.
    pub fn to_string(&self) -> (r: String)
        ensures
            r@ == self.spec_label(),
    {
        match self {
            ReleaseType::Unset => "Unset".to_owned(),
            ReleaseType::Hotfix => "Hotfix".to_owned(),
            ReleaseType::Test => "Test".to_owned(),
            ReleaseType::Specific => "Specific".to_owned(),
        }
    }
}

/// A project adapter: reads and writes the version metadata of one build
/// ecosystem. The reading and writing themselves are driver work outside
/// this library; here an adapter answers which ecosystem it serves.
pub trait GitFlowActionAdapter {
    /// The project type this adapter serves.
    fn current_project_type(&self) -> ProjectType;
}

/// The adapter for Maven projects: versions live in the build descriptor
/// and are read and written through the build tool.
pub struct MavenGitFlowActionAdapter {}

/// The adapter for Webpack projects: versions live in a manifest file in
/// the working directory.
pub struct WebpackGitFlowActionAdapter {}

impl GitFlowActionAdapter for MavenGitFlowActionAdapter {
    fn current_project_type(&self) -> (r: ProjectType)
        ensures
            r == ProjectType::Maven,
    {
        ProjectType::Maven
    }
}

impl GitFlowActionAdapter for WebpackGitFlowActionAdapter {
    fn current_project_type(&self) -> (r: ProjectType)
        ensures
            r == ProjectType::Webpack,
    {
        ProjectType::Webpack
    }
}

/// The adapter selected for a run, fixed once at flow start.
pub enum AdapterChoice {
    Maven(MavenGitFlowActionAdapter),
    Webpack(WebpackGitFlowActionAdapter),
}

impl AdapterChoice {
    /// The project type the selected adapter serves.
    pub open spec fn spec_project_type(&self) -> ProjectType {
        match self {
            AdapterChoice::Maven(_) => ProjectType::Maven,
            AdapterChoice::Webpack(_) => ProjectType::Webpack,
        }
    }

    /// The project type the selected adapter serves.
    pub fn current_project_type(&self) -> (r: ProjectType)
        ensures
            r == self.spec_project_type(),
    {
        match self {
            AdapterChoice::Maven(a) => a.current_project_type(),
            AdapterChoice::Webpack(a) => a.current_project_type(),
        }
    }
}

/// Everything a run needs: what kind of project, which flow, and the
/// release details when the flow is a release.
pub struct GitFlowParameter {
    pub project_type: ProjectType,
    pub flow_type: FlowType,
    pub release_type: Option<ReleaseType>,
    pub specific_branch_name: Option<String>,
    pub need_push: bool,
    pub need_push_tag: bool,
}

impl GitFlowParameter {
    /// A fresh parameter record: nothing selected beyond project and flow.
    pub fn new(project_type: ProjectType, flow_type: FlowType) -> (r: GitFlowParameter)
        ensures
            r.project_type == project_type,
            r.flow_type == flow_type,
            r.release_type is None,
            r.specific_branch_name is None,
            !r.need_push,
            !r.need_push_tag,
    {
        GitFlowParameter {
            project_type,
            flow_type,
            release_type: None,
            specific_branch_name: None,
            need_push: false,
            need_push_tag: false,
        }
    }

    /// Record the selected release type.
    pub fn set_release_type(&mut self, release_type: ReleaseType)
        ensures
            final(self).release_type == Some(release_type),
            final(self).project_type == old(self).project_type,
            final(self).flow_type == old(self).flow_type,
            final(self).specific_branch_name == old(self).specific_branch_name,
            final(self).need_push == old(self).need_push,
            final(self).need_push_tag == old(self).need_push_tag,
    {
        self.release_type = Some(release_type);
    }

    /// Record the branch a specific release is cut from.
    pub fn set_specific_release_branch_name(&mut self, specific_release_branch_name: String)
        ensures
            final(self).specific_branch_name == Some(specific_release_branch_name),
            final(self).project_type == old(self).project_type,
            final(self).flow_type == old(self).flow_type,
            final(self).release_type == old(self).release_type,
            final(self).need_push == old(self).need_push,
            final(self).need_push_tag == old(self).need_push_tag,
    {
        self.specific_branch_name = Some(specific_release_branch_name);
    }

    /// Record whether branches are pushed to the remote.
    pub fn set_need_push(&mut self, need_push: bool)
        ensures
            final(self).need_push == need_push,
            final(self).project_type == old(self).project_type,
            final(self).flow_type == old(self).flow_type,
            final(self).release_type == old(self).release_type,
            final(self).specific_branch_name == old(self).specific_branch_name,
            final(self).need_push_tag == old(self).need_push_tag,
    {
        self.need_push = need_push;
    }

    /// Record whether tags are pushed to the remote.
    pub fn set_need_push_tag(&mut self, need_push_tag: bool)
        ensures
            final(self).need_push_tag == need_push_tag,
            final(self).project_type == old(self).project_type,
            final(self).flow_type == old(self).flow_type,
            final(self).release_type == old(self).release_type,
            final(self).specific_branch_name == old(self).specific_branch_name,
            final(self).need_push == old(self).need_push,
    {
        self.need_push_tag = need_push_tag;
    }

    /// The adapter for the selected project type.
    pub fn get_git_flow_action_adapter(&self) -> (r: AdapterChoice)
        ensures
            r.spec_project_type() == self.project_type,
    {
        if self.project_type == ProjectType::Maven {
            AdapterChoice::Maven(MavenGitFlowActionAdapter {})
        } else {
            AdapterChoice::Webpack(WebpackGitFlowActionAdapter {})
        }
    }
}

} // verus!
