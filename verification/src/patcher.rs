//! Publishing a new version: the in-place manifest edits, the git
//! commit/tag/push sequence, and the pull-request creation call with its
//! response handling.

use vstd::prelude::*;
use vstd::string::StringExecFns;
use crate::commands::{args_of, is_exec_cmd, PlannedCommand};
use crate::config::RepoType;
use crate::errors::{CustomError, CustomResult};
use crate::json::{json_ok, json_pr_id_of, read_pr_id_field};
use crate::strutil::{append_chars, chars_of, replacen_s, replacen_vec, string_of};

verus! {

/// The exact substring a version declaration occupies in a manifest.
pub open spec fn version_needle(v: Seq<char>) -> Seq<char> {
    "\"version\": \""@ + v + "\""@
}

/// The release commit message for a next version.
pub open spec fn commit_message(next: Seq<char>) -> Seq<char> {
    "@"@ + next + " release"@
}

/// The annotated tag name for a next version.
pub open spec fn tag_name(next: Seq<char>) -> Seq<char> {
    "release/"@ + next
}

/// The message on the annotated tag.
pub open spec fn tag_message(next: Seq<char>) -> Seq<char> {
    "release/"@ + next + " version"@
}

/// Writes the new version into declared files, commits, tags, pushes and
/// opens a pull request for one repository.
pub struct Patcher {
    pub next_version: String,
    pub current_version: String,
    pub repo_name: String,
    pub path: String,
    pub repo_type: RepoType,
    pub branch: String,
    pub release_branch: String,
    pub role: String,
    pub sso_script_path: String,
    pub disable_checks: bool,
}

/// One in-place manifest edit: which file, and how many occurrences of
/// the version declaration to replace in it.
pub struct FileEdit {
    pub file_name: String,
    pub count: usize,
}

/// Everything the publish step must do, in order: the file edits, the git
/// command sequence, and finally the pull-request creation call whose
/// standard output carries the response.
pub struct PublishPlan {
    pub edits: Vec<FileEdit>,
    pub commands: Vec<PlannedCommand>,
    pub pr_command: PlannedCommand,
}

/// The git commit arguments: hooks are bypassed when checks are disabled.
pub open spec fn commit_args(disable_checks: bool, next: Seq<char>) -> Seq<Seq<char>> {
    if disable_checks {
        seq!["commit"@, "--no-verify"@, "-m"@, commit_message(next)]
    } else {
        seq!["commit"@, "-am"@, commit_message(next)]
    }
}

/// The branch push arguments: the push is forced, and hooks are bypassed
/// when checks are disabled.
pub open spec fn push_origin_args(disable_checks: bool, branch: Seq<char>) -> Seq<Seq<char>> {
    if disable_checks {
        seq!["push"@, "origin"@, "--no-verify"@, branch, "-f"@]
    } else {
        seq!["push"@, "origin"@, branch, "-f"@]
    }
}

/// The tag push arguments: hooks are bypassed when checks are disabled.
pub open spec fn push_tags_args(disable_checks: bool) -> Seq<Seq<char>> {
    if disable_checks {
        seq!["push"@, "--tags"@, "--no-verify"@]
    } else {
        seq!["push"@, "--tags"@]
    }
}

/// The git sequence of a publish: stage everything, commit the release
/// message, create the annotated tag, push the branch, push the tags.
/// Only the tag push may recover, on the `[new tag]` announcement.
pub open spec fn is_publish_commands(cmds: Seq<PlannedCommand>, p: Patcher) -> bool {
    &&& cmds.len() == 5
    &&& is_exec_cmd(
        cmds[0],
        "git"@,
        seq!["add"@, "--all"@],
        Some(p.path@),
        "Failed add changes for repo"@,
    )
    &&& is_exec_cmd(
        cmds[1],
        "git"@,
        commit_args(p.disable_checks, p.next_version@),
        Some(p.path@),
        "Failed to commit for repo"@,
    )
    &&& is_exec_cmd(
        cmds[2],
        "git"@,
        seq![
            "tag"@,
            "-a"@,
            tag_name(p.next_version@),
            "-m"@,
            tag_message(p.next_version@),
        ],
        Some(p.path@),
        "Failed add tags for repo"@,
    )
    &&& is_exec_cmd(
        cmds[3],
        "git"@,
        push_origin_args(p.disable_checks, p.branch@),
        Some(p.path@),
        "Failed to push changes for repo"@,
    )
    &&& cmds[4].program@ == "git"@
    &&& cmds[4].args.deep_view() == push_tags_args(p.disable_checks)
    &&& cmds[4].dir matches Some(d) && d@ == p.path@
    &&& cmds[4].on_failure matches CustomError::CommandExecution(m) && m@
        == "Failed to push tags for repo"@
    &&& cmds[4].recover_on_new_tag
}

/// The file edits of a publish: node repositories patch their manifest
/// once and their lock file twice, python repositories patch their
/// manifest and their version file once each.
pub open spec fn is_publish_edits(edits: Seq<FileEdit>, t: RepoType) -> bool {
    &&& edits.len() == 2
    &&& edits[0].file_name@ == "package.json"@
    &&& edits[0].count == 1
    &&& match t {
        RepoType::Node => edits[1].file_name@ == "package-lock.json"@ && edits[1].count == 2,
        RepoType::Python => edits[1].file_name@ == "version.json"@ && edits[1].count == 1,
    }
}

impl Patcher {
    /// Rewrites manifest text in place: the first `replacement_number`
    /// occurrences of the current version's declaration become the next
    /// version's, exactly as [`replacen_s`] describes; absent occurrences
    /// are silently left alone.
    pub fn up_version_by_replacement(&self, content: &str, replacement_number: usize) -> (r:
        String)
        ensures
            r@ == replacen_s(
                content@,
                version_needle(self.current_version@),
                version_needle(self.next_version@),
                replacement_number as nat,
            ),
    {
        let text = chars_of(content);
        let from = self.needle(&self.current_version);
        let to = self.needle(&self.next_version);
        proof {
            reveal_strlit("\"version\": \"");
            assert(version_needle(self.current_version@).len() > 0);
        }
        let out = replacen_vec(&text, &from, &to, replacement_number);
        string_of(&out)
    }

    /// The declaration substring for one version value.
    fn needle(&self, v: &String) -> (r: Vec<char>)
        ensures
            r@ == version_needle(v@),
    {
        let mut r = chars_of("\"version\": \"");
        let mid = chars_of(v.as_str());
        append_chars(&mut r, &mid);
        let tail = chars_of("\"");
        append_chars(&mut r, &tail);
        proof {
            assert(r@ =~= version_needle(v@));
        }
        r
    }

    /// The node edit pair: manifest text patched once, lock-file text
    /// patched twice.
    pub fn up_node_version(&self, package_json: &str, package_lock: &str) -> (r: (String, String))
        ensures
            r.0@ == replacen_s(
                package_json@,
                version_needle(self.current_version@),
                version_needle(self.next_version@),
                1,
            ),
            r.1@ == replacen_s(
                package_lock@,
                version_needle(self.current_version@),
                version_needle(self.next_version@),
                2,
            ),
    {
        (self.up_version_by_replacement(package_json, 1), self.up_version_by_replacement(
            package_lock,
            2,
        ))
    }

    /// The python edit pair: manifest text and version-file text each
    /// patched once.
    pub fn up_python_version(&self, package_json: &str, version_json: &str) -> (r: (String, String))
        ensures
            r.0@ == replacen_s(
                package_json@,
                version_needle(self.current_version@),
                version_needle(self.next_version@),
                1,
            ),
            r.1@ == replacen_s(
                version_json@,
                version_needle(self.current_version@),
                version_needle(self.next_version@),
                1,
            ),
    {
        (self.up_version_by_replacement(package_json, 1), self.up_version_by_replacement(
            version_json,
            1,
        ))
    }

    /// The whole publish plan for this repository: which files to edit
    /// and how often, the git sequence to run, and the pull-request call
    /// to finish with.
    pub fn update_version_in_repo(&self) -> (r: PublishPlan)
        ensures
            is_publish_edits(r.edits@, self.repo_type),
            is_publish_commands(r.commands@, *self),
            r.pr_command.program@ == "zsh"@,
            r.pr_command.args.deep_view() == seq![
                "-c"@,
                pr_create_with_login_script(
                    self.sso_script_path@,
                    self.role@,
                    self.next_version@,
                    self.repo_name@,
                    self.branch@,
                    self.release_branch@,
                ),
            ],
            r.pr_command.dir matches Some(d) && d@ == self.path@,
            r.pr_command.on_failure matches CustomError::CommandExecution(m) && m@
                == "Failed to create PR for repo"@,
            !r.pr_command.recover_on_new_tag,
    {
        let mut edits: Vec<FileEdit> = Vec::new();
        edits.push(FileEdit { file_name: String::from_str("package.json"), count: 1 });
        match self.repo_type {
            RepoType::Node => {
                edits.push(FileEdit { file_name: String::from_str("package-lock.json"), count: 2 });
            },
            RepoType::Python => {
                edits.push(FileEdit { file_name: String::from_str("version.json"), count: 1 });
            },
        }

        let mut cmds: Vec<PlannedCommand> = Vec::new();

        let mut add_parts: Vec<&str> = Vec::new();
        add_parts.push("add");
        add_parts.push("--all");
        let add = PlannedCommand {
            program: String::from_str("git"),
            args: args_of(&add_parts),
            dir: Some(self.path.clone()),
            on_failure: CustomError::CommandExecution(
                String::from_str("Failed add changes for repo"),
            ),
            recover_on_new_tag: false,
        };
        proof {
            assert(add.args.deep_view() =~~= seq!["add"@, "--all"@]);
        }
        cmds.push(add);

        let message = String::from_str("@").concat(self.next_version.as_str()).concat(" release");
        let mut commit_argv: Vec<String> = Vec::new();
        commit_argv.push(String::from_str("commit"));
        if self.disable_checks {
            commit_argv.push(String::from_str("--no-verify"));
            commit_argv.push(String::from_str("-m"));
        } else {
            commit_argv.push(String::from_str("-am"));
        }
        commit_argv.push(message);
        let commit = PlannedCommand {
            program: String::from_str("git"),
            args: commit_argv,
            dir: Some(self.path.clone()),
            on_failure: CustomError::CommandExecution(
                String::from_str("Failed to commit for repo"),
            ),
            recover_on_new_tag: false,
        };
        proof {
            assert(commit.args.deep_view() =~~= commit_args(
                self.disable_checks,
                self.next_version@,
            ));
        }
        cmds.push(commit);

        let tag = String::from_str("release/").concat(self.next_version.as_str());
        let tag_msg = String::from_str("release/").concat(self.next_version.as_str()).concat(
            " version",
        );
        let mut tag_argv: Vec<String> = Vec::new();
        tag_argv.push(String::from_str("tag"));
        tag_argv.push(String::from_str("-a"));
        tag_argv.push(tag);
        tag_argv.push(String::from_str("-m"));
        tag_argv.push(tag_msg);
        let tag_cmd = PlannedCommand {
            program: String::from_str("git"),
            args: tag_argv,
            dir: Some(self.path.clone()),
            on_failure: CustomError::CommandExecution(
                String::from_str("Failed add tags for repo"),
            ),
            recover_on_new_tag: false,
        };
        proof {
            assert(tag_cmd.args.deep_view() =~~= seq![
                "tag"@,
                "-a"@,
                tag_name(self.next_version@),
                "-m"@,
                tag_message(self.next_version@),
            ]);
        }
        cmds.push(tag_cmd);

        let mut push_argv: Vec<String> = Vec::new();
        push_argv.push(String::from_str("push"));
        push_argv.push(String::from_str("origin"));
        if self.disable_checks {
            push_argv.push(String::from_str("--no-verify"));
        }
        push_argv.push(self.branch.clone());
        push_argv.push(String::from_str("-f"));
        let push = PlannedCommand {
            program: String::from_str("git"),
            args: push_argv,
            dir: Some(self.path.clone()),
            on_failure: CustomError::CommandExecution(
                String::from_str("Failed to push changes for repo"),
            ),
            recover_on_new_tag: false,
        };
        proof {
            assert(push.args.deep_view() =~~= push_origin_args(self.disable_checks, self.branch@));
        }
        cmds.push(push);

        let mut tags_argv: Vec<String> = Vec::new();
        tags_argv.push(String::from_str("push"));
        tags_argv.push(String::from_str("--tags"));
        if self.disable_checks {
            tags_argv.push(String::from_str("--no-verify"));
        }
        let push_tags = PlannedCommand {
            program: String::from_str("git"),
            args: tags_argv,
            dir: Some(self.path.clone()),
            on_failure: CustomError::CommandExecution(
                String::from_str("Failed to push tags for repo"),
            ),
            recover_on_new_tag: true,
        };
        proof {
            assert(push_tags.args.deep_view() =~~= push_tags_args(self.disable_checks));
        }
        cmds.push(push_tags);

        let script = self.get_pr_create_with_login_command();
        let mut pr_argv: Vec<String> = Vec::new();
        pr_argv.push(String::from_str("-c"));
        pr_argv.push(script);
        let pr_command = PlannedCommand {
            program: String::from_str("zsh"),
            args: pr_argv,
            dir: Some(self.path.clone()),
            on_failure: CustomError::CommandExecution(
                String::from_str("Failed to create PR for repo"),
            ),
            recover_on_new_tag: false,
        };
        proof {
            assert(pr_command.args.deep_view() =~~= seq![
                "-c"@,
                pr_create_with_login_script(
                    self.sso_script_path@,
                    self.role@,
                    self.next_version@,
                    self.repo_name@,
                    self.branch@,
                    self.release_branch@,
                ),
            ]);
        }

        PublishPlan { edits, commands: cmds, pr_command }
    }

    /// The pull-request creation call, exactly as
    /// [`pr_create_command`] describes.
    pub fn get_pr_create_command_string(&self) -> (r: CustomResult<String>)
        ensures
            r matches Ok(s) && s@ == pr_create_command(
                self.next_version@,
                self.repo_name@,
                self.branch@,
                self.release_branch@,
            ),
    {
        Ok(self.pr_create_command_text())
    }

    /// Renders the pull-request creation call with its title and target
    /// triple.
    fn pr_create_command_text(&self) -> (r: String)
        ensures
            r@ == pr_create_command(
                self.next_version@,
                self.repo_name@,
                self.branch@,
                self.release_branch@,
            ),
    {
        let cda_artifact = String::from_str("'CDA Artifact ").concat(
            self.next_version.as_str(),
        ).concat("'");
        String::from_str("aws codecommit create-pull-request --title ").concat(
            cda_artifact.as_str(),
        ).concat(" --targets repositoryName=").concat(self.repo_name.as_str()).concat(
            ",sourceReference=",
        ).concat(self.branch.as_str()).concat(",destinationReference=").concat(
            self.release_branch.as_str(),
        )
    }

    /// The shell text that re-establishes the role and then creates the
    /// pull request, exactly as [`pr_create_with_login_script`] describes.
    pub fn get_pr_create_with_login_command(&self) -> (r: String)
        ensures
            r@ == pr_create_with_login_script(
                self.sso_script_path@,
                self.role@,
                self.next_version@,
                self.repo_name@,
                self.branch@,
                self.release_branch@,
            ),
    {
        let switch = crate::loginer::get_switch_role_command(
            self.sso_script_path.as_str(),
            self.role.as_str(),
        );
        let pr = self.pr_create_command_text();
        String::from_str("\n                ").concat(switch.as_str()).concat(
            "\n                ",
        ).concat(pr.as_str()).concat("\n            ")
    }

    /// Reads the pull-request identifier out of the creation response:
    /// exactly the `pullRequestId` string under the `pullRequest`
    /// member, as [`json_pr_id_of`] names it. A response that is not
    /// such a document cannot be read.
    pub fn parse_pr_id(&self, stdout: &str) -> (r: CustomResult<String>)
        ensures
            match r {
                Ok(id) => json_ok(stdout@) && (json_pr_id_of(stdout@) matches Some(t) && id@ == t),
                Err(e) => (!json_ok(stdout@) || json_pr_id_of(stdout@) is None) && (e matches
                    CustomError::CommandExecution(m) && m@ == "Failed to parse json"@),
            },
    {
        match read_pr_id_field(stdout) {
            Err(_) => Err(CustomError::CommandExecution(String::from_str("Failed to parse json"))),
            Ok(None) => Err(
                CustomError::CommandExecution(String::from_str("Failed to parse json")),
            ),
            Ok(Some(id)) => Ok(id),
        }
    }

    /// The viewer URL of a created pull request, exactly as
    /// [`pr_link_text`] describes.
    pub fn pr_link(&self, pr_id: &str) -> (r: String)
        ensures
            r@ == pr_link_text(self.repo_name@, pr_id@),
    {
        String::from_str("https://console.aws.amazon.com/codesuite/codecommit/repositories/")
            .concat(self.repo_name.as_str()).concat("/pull-requests/").concat(pr_id).concat(
            "/details?region=us-east-1",
        )
    }
}

/// The pull-request creation call with its title and target triple.
pub open spec fn pr_create_command(
    next: Seq<char>,
    repo_name: Seq<char>,
    branch: Seq<char>,
    release_branch: Seq<char>,
) -> Seq<char> {
    "aws codecommit create-pull-request --title "@ + "'CDA Artifact "@ + next + "'"@
        + " --targets repositoryName="@ + repo_name + ",sourceReference="@ + branch
        + ",destinationReference="@ + release_branch
}

/// The role switch followed by the pull-request creation, laid out as the
/// shell receives it.
pub open spec fn pr_create_with_login_script(
    script_path: Seq<char>,
    role: Seq<char>,
    next: Seq<char>,
    repo_name: Seq<char>,
    branch: Seq<char>,
    release_branch: Seq<char>,
) -> Seq<char> {
    "\n                "@ + crate::loginer::switch_role_command(script_path, role)
        + "\n                "@ + pr_create_command(next, repo_name, branch, release_branch)
        + "\n            "@
}

/// The viewer URL built from the repository name and the identifier.
pub open spec fn pr_link_text(repo_name: Seq<char>, pr_id: Seq<char>) -> Seq<char> {
    "https://console.aws.amazon.com/codesuite/codecommit/repositories/"@ + repo_name
        + "/pull-requests/"@ + pr_id + "/details?region=us-east-1"@
}

} // verus!
