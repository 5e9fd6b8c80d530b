//! A git-flow release engine: semantic-version arithmetic, branch and tag
//! naming, and the five release workflows (feature, hotfix, release from a
//! test branch, release from a specific branch, release from a hotfix
//! branch), each expressed as a pure decision function from repository
//! observations to an ordered plan of repository operations.

pub mod flow;
pub mod git_version;
pub mod manifest;
pub mod naming;
pub mod params;
pub mod util;
pub mod version;
