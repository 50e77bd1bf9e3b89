//! The run configuration: repository lists with their type classification,
//! branch and credential parameters, and the feature toggles.

use vstd::prelude::*;
use crate::errors::{CustomError, CustomResult};
use crate::logger::LogLevel;
use crate::strutil::str_eq;

verus! {

/// How a repository is built and which files declare its version.
#[derive(Clone, Copy, Debug, PartialEq, Eq, Structural)]
pub enum RepoType {
    Node,
    Python,
}

/// The two configured repository name lists, one per type.
pub struct WorkersConfig {
    pub node_workers: Vec<String>,
    pub python_workers: Vec<String>,
}

/// Branch names and the optional explicit version override.
pub struct GitConfig {
    pub version: Option<String>,
    pub branch: String,
    pub release_branch: String,
}

/// Credential parameters: the role, the script that switches to it, and
/// the SSO start URL that cached sessions must match.
pub struct AwsConfig {
    pub role_script_path: String,
    pub role: String,
    pub sso_start_url: String,
}

/// Logging verbosity.
pub struct LoggerConfig {
    pub log_level: LogLevel,
}

/// The whole run configuration.
pub struct Data {
    pub git: GitConfig,
    pub aws: AwsConfig,
    pub root: String,
    pub version_update_required: bool,
    pub repo_rebuild_required: bool,
    pub process_only_updated_repo: bool,
    pub disable_checks: bool,
    pub repos: WorkersConfig,
    pub logger: LoggerConfig,
}

/// `name` occurs in the list `ws`.
pub open spec fn list_has(ws: Seq<String>, name: Seq<char>) -> bool {
    exists|i: int| 0 <= i < ws.len() && ws[i]@ == name
}

/// Finds `name` in `ws`.
fn list_contains(ws: &Vec<String>, name: &str) -> (r: bool)
    ensures
        r == list_has(ws@, name@),
{
    let mut i: usize = 0;
    while i < ws.len()
        invariant
            i <= ws.len(),
            forall|j: int| 0 <= j < i ==> ws@[j]@ != name@,
        decreases ws.len() - i,
    {
        if str_eq(ws[i].as_str(), name) {
            return true;
        }
        i += 1;
    }
    false
}

impl WorkersConfig {
    /// All configured repository names: the node list followed by the
    /// python list.
    pub fn get_repos_list(&self) -> (r: Vec<String>)
        ensures
            r.deep_view() == self.node_workers.deep_view() + self.python_workers.deep_view(),
    {
        let mut repos: Vec<String> = Vec::new();
        let mut i: usize = 0;
        while i < self.node_workers.len()
            invariant
                i <= self.node_workers.len(),
                repos@.len() == i,
                forall|k: int| 0 <= k < i ==> repos@[k]@ == self.node_workers@[k]@,
            decreases self.node_workers.len() - i,
        {
            repos.push(self.node_workers[i].clone());
            i += 1;
        }
        let mut j: usize = 0;
        while j < self.python_workers.len()
            invariant
                j <= self.python_workers.len(),
                repos@.len() == self.node_workers@.len() + j,
                forall|k: int|
                    0 <= k < self.node_workers@.len() ==> repos@[k]@ == self.node_workers@[k]@,
                forall|k: int|
                    0 <= k < j ==> repos@[self.node_workers@.len() + k]@ == self.python_workers@[k]@,
            decreases self.python_workers.len() - j,
        {
            repos.push(self.python_workers[j].clone());
            j += 1;
        }
        proof {
            let target = self.node_workers.deep_view() + self.python_workers.deep_view();
            assert forall|k: int| 0 <= k < repos@.len() implies repos.deep_view()[k] == target[k]
            by {
                assert(repos.deep_view()[k] == repos@[k]@);
                if k < self.node_workers@.len() {
                    assert(target[k] == self.node_workers@[k]@);
                } else {
                    assert(target[k] == self.python_workers@[k - self.node_workers@.len()]@);
                }
            }
            assert(repos.deep_view() =~~= target);
        }
        repos
    }

    /// Classifies a repository by membership in the two lists; the node
    /// list wins when a name is (wrongly) in both, and a name in neither
    /// is a classification error rather than an abort.
    pub fn get_repo_type(&self, repo: &str) -> (r: CustomResult<RepoType>)
        ensures
            match r {
                Ok(t) => if list_has(self.node_workers@, repo@) {
                    t == RepoType::Node
                } else {
                    list_has(self.python_workers@, repo@) && t == RepoType::Python
                },
                Err(e) => !list_has(self.node_workers@, repo@) && !list_has(
                    self.python_workers@,
                    repo@,
                ) && e is UnknownBranch,
            },
    {
        if list_contains(&self.node_workers, repo) {
            return Ok(RepoType::Node);
        }
        if list_contains(&self.python_workers, repo) {
            return Ok(RepoType::Python);
        }
        Err(CustomError::UnknownBranch)
    }
}

} // verus!
