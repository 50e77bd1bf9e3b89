//! Repository synchronization: the fixed four-step git sequence that makes
//! a working tree identical to the remote tip of the target branch.

use vstd::prelude::*;
use vstd::string::StringExecFns;
use crate::commands::{args_of, is_exec_cmd, PlannedCommand};
use crate::errors::CustomError;

verus! {

/// Brings a working copy to a clean, up-to-date state of the target
/// branch.
pub struct BranchSwitcher {
    pub target_branch: String,
}

impl BranchSwitcher {
    /// The four git calls that synchronize one repository, in order:
    /// stash local modifications, fetch remote refs, check out the target
    /// branch, and hard-reset onto its remote tip. Each runs in
    /// `repo_path`, and each failure carries its own message.
    pub fn checkout_target_branch(&self, repo_path: &str) -> (cmds: Vec<PlannedCommand>)
        ensures
            cmds@.len() == 4,
            is_exec_cmd(
                cmds@[0],
                "git"@,
                seq!["stash"@],
                Some(repo_path@),
                "Failed to stash repo"@,
            ),
            is_exec_cmd(
                cmds@[1],
                "git"@,
                seq!["fetch"@],
                Some(repo_path@),
                "Failed to fetch repo"@,
            ),
            is_exec_cmd(
                cmds@[2],
                "git"@,
                seq!["checkout"@, self.target_branch@],
                Some(repo_path@),
                "Failed to switch branch for repo"@,
            ),
            is_exec_cmd(
                cmds@[3],
                "git"@,
                seq!["reset"@, "--hard"@, "origin/"@ + self.target_branch@],
                Some(repo_path@),
                "Failed to hard reset branch for repo"@,
            ),
    {
        let mut cmds: Vec<PlannedCommand> = Vec::new();

        let mut stash_parts: Vec<&str> = Vec::new();
        stash_parts.push("stash");
        let stash = PlannedCommand {
            program: String::from_str("git"),
            args: args_of(&stash_parts),
            dir: Some(String::from_str(repo_path)),
            on_failure: CustomError::CommandExecution(String::from_str("Failed to stash repo")),
            recover_on_new_tag: false,
        };
        proof {
            assert(stash.args.deep_view() =~~= seq!["stash"@]);
        }
        cmds.push(stash);

        let mut fetch_parts: Vec<&str> = Vec::new();
        fetch_parts.push("fetch");
        let fetch = PlannedCommand {
            program: String::from_str("git"),
            args: args_of(&fetch_parts),
            dir: Some(String::from_str(repo_path)),
            on_failure: CustomError::CommandExecution(String::from_str("Failed to fetch repo")),
            recover_on_new_tag: false,
        };
        proof {
            assert(fetch.args.deep_view() =~~= seq!["fetch"@]);
        }
        cmds.push(fetch);

        let mut checkout_args: Vec<String> = Vec::new();
        checkout_args.push(String::from_str("checkout"));
        checkout_args.push(self.target_branch.clone());
        let checkout = PlannedCommand {
            program: String::from_str("git"),
            args: checkout_args,
            dir: Some(String::from_str(repo_path)),
            on_failure: CustomError::CommandExecution(
                String::from_str("Failed to switch branch for repo"),
            ),
            recover_on_new_tag: false,
        };
        proof {
            assert(checkout.args.deep_view() =~~= seq!["checkout"@, self.target_branch@]);
        }
        cmds.push(checkout);

        let mut reset_args: Vec<String> = Vec::new();
        reset_args.push(String::from_str("reset"));
        reset_args.push(String::from_str("--hard"));
        reset_args.push(String::from_str("origin/").concat(self.target_branch.as_str()));
        let reset = PlannedCommand {
            program: String::from_str("git"),
            args: reset_args,
            dir: Some(String::from_str(repo_path)),
            on_failure: CustomError::CommandExecution(
                String::from_str("Failed to hard reset branch for repo"),
            ),
            recover_on_new_tag: false,
        };
        proof {
            assert(reset.args.deep_view() =~~= seq![
                "reset"@,
                "--hard"@,
                "origin/"@ + self.target_branch@,
            ]);
        }
        cmds.push(reset);

        cmds
    }
}

} // verus!
