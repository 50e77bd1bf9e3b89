//! Conditional rebuild of a repository's artifacts: node repositories get
//! a clean reinstall and build, python repositories need nothing.

use vstd::prelude::*;
use vstd::string::StringExecFns;
use crate::commands::{args_of, is_exec_cmd, PlannedCommand};
use crate::config::RepoType;
use crate::errors::CustomError;

verus! {

/// Regenerates build artifacts for repository types that require it.
pub struct RepoRebuilder {
    pub repo: String,
    pub repo_type: RepoType,
}

/// The three calls of a node rebuild, in order: delete the dependency
/// and build output directories, reinstall dependencies, run the build.
pub open spec fn is_node_rebuild_plan(cmds: Seq<PlannedCommand>, repo: Seq<char>) -> bool {
    &&& cmds.len() == 3
    &&& is_exec_cmd(
        cmds[0],
        "rm"@,
        seq!["-rf"@, "node_modules"@, "dist"@],
        Some(repo),
        "Failed to delete folders in repo"@,
    )
    &&& is_exec_cmd(
        cmds[1],
        "npm"@,
        seq!["install"@],
        Some(repo),
        "Failed to install packages in repo"@,
    )
    &&& is_exec_cmd(
        cmds[2],
        "npm"@,
        seq!["run"@, "build"@],
        Some(repo),
        "Failed to build node repo"@,
    )
}

impl RepoRebuilder {
    /// The rebuild plan for this repository: the node sequence for node
    /// repositories, and nothing at all for python ones.
    pub fn rebuild_repo(&self) -> (cmds: Vec<PlannedCommand>)
        ensures
            match self.repo_type {
                RepoType::Node => is_node_rebuild_plan(cmds@, self.repo@),
                RepoType::Python => cmds@.len() == 0,
            },
    {
        match self.repo_type {
            RepoType::Node => self.rebuild_node_repo(),
            RepoType::Python => Vec::new(),
        }
    }

    /// The node rebuild sequence, exactly as [`is_node_rebuild_plan`]
    /// describes.
    pub fn rebuild_node_repo(&self) -> (cmds: Vec<PlannedCommand>)
        ensures
            is_node_rebuild_plan(cmds@, self.repo@),
    {
        let mut cmds: Vec<PlannedCommand> = Vec::new();

        let mut rm_parts: Vec<&str> = Vec::new();
        rm_parts.push("-rf");
        rm_parts.push("node_modules");
        rm_parts.push("dist");
        let rm = PlannedCommand {
            program: String::from_str("rm"),
            args: args_of(&rm_parts),
            dir: Some(self.repo.clone()),
            on_failure: CustomError::CommandExecution(
                String::from_str("Failed to delete folders in repo"),
            ),
            recover_on_new_tag: false,
        };
        proof {
            assert(rm.args.deep_view() =~~= seq!["-rf"@, "node_modules"@, "dist"@]);
        }
        cmds.push(rm);

        let mut install_parts: Vec<&str> = Vec::new();
        install_parts.push("install");
        let install = PlannedCommand {
            program: String::from_str("npm"),
            args: args_of(&install_parts),
            dir: Some(self.repo.clone()),
            on_failure: CustomError::CommandExecution(
                String::from_str("Failed to install packages in repo"),
            ),
            recover_on_new_tag: false,
        };
        proof {
            assert(install.args.deep_view() =~~= seq!["install"@]);
        }
        cmds.push(install);

        let mut build_parts: Vec<&str> = Vec::new();
        build_parts.push("run");
        build_parts.push("build");
        let build = PlannedCommand {
            program: String::from_str("npm"),
            args: args_of(&build_parts),
            dir: Some(self.repo.clone()),
            on_failure: CustomError::CommandExecution(
                String::from_str("Failed to build node repo"),
            ),
            recover_on_new_tag: false,
        };
        proof {
            assert(build.args.deep_view() =~~= seq!["run"@, "build"@]);
        }
        cmds.push(build);

        cmds
    }
}

} // verus!
