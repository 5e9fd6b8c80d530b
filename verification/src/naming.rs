//! Branch and tag naming: each branch role is bound to a fixed literal
//! prefix, and release tags follow `v<number>.RELEASE.<YYYYMMDD>`.

use vstd::prelude::*;
use vstd::string::*;

verus! {

/// The role a branch plays in the flows.
#[derive(Clone, Copy, Debug, PartialEq, Eq, Structural)]
pub enum BranchRole {
    Develop,
    Master,
    Feature,
    Hotfix,
    Test,
}

/// The fixed literal bound to each role.
pub open spec fn spec_role_prefix(role: BranchRole) -> Seq<char> {
    match role {
        BranchRole::Develop => "develop"@,
        BranchRole::Master => "master"@,
        BranchRole::Feature => "feature"@,
        BranchRole::Hotfix => "hotfix"@,
        BranchRole::Test => "test"@,
    }
}

/// The canonical branch name: the bare literal for develop and master,
/// `<prefix>/<number>` for the role-scoped branches.
pub open spec fn spec_branch_name(role: BranchRole, number: Seq<char>) -> Seq<char> {
    match role {
        BranchRole::Develop => "develop"@,
        BranchRole::Master => "master"@,
        _ => spec_role_prefix(role) + "/"@ + number,
    }
}

/// The tag marking a release of `number` on `date`:
/// `v<number>.RELEASE.<date>`.
pub open spec fn spec_tag_name(number: Seq<char>, date: Seq<char>) -> Seq<char> {
    "v"@ + number + ".RELEASE."@ + date
}

impl BranchRole {
    /// The fixed literal bound to this role.
    pub fn prefix(&self) -> (r: &'static str)
        ensures
            r@ == spec_role_prefix(*self),
    {
        match self {
            BranchRole::Develop => "develop",
            BranchRole::Master => "master",
            BranchRole::Feature => "feature",
            BranchRole::Hotfix => "hotfix",
            BranchRole::Test => "test",
        }
    }

    /// The canonical branch name for this role and version number string.
    pub fn name_for(&self, number: &str) -> (r: String)
        requires
            (*self matches BranchRole::Feature || *self matches BranchRole::Hotfix
                || *self matches BranchRole::Test) ==> number@.len() > 0,
        ensures
            r@ == spec_branch_name(*self, number@),
    {
        match self {
            BranchRole::Develop => "develop".to_owned(),
            BranchRole::Master => "master".to_owned(),
            _ => {
                let mut s = self.prefix().to_owned();
                s.append("/");
                s.append(number);
                s
            },
        }
    }
}

/// The release tag for a version number string and a `YYYYMMDD` date: tag
/// composition is a pure function of the two, `v<number>.RELEASE.<date>`.
pub fn compose_tag(number: &str, date: &str) -> (r: String)
    ensures
        r@ == spec_tag_name(number@, date@),
{
    let mut s = "v".to_owned();
    s.append(number);
    s.append(".RELEASE.");
    s.append(date);
    s
}

} // verus!
