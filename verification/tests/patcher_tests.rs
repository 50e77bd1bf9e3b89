use version_updater::branch::BranchSwitcher;
use version_updater::commands::command_outcome;
use version_updater::config::RepoType;
use version_updater::errors::CustomError;
use version_updater::logger::LogLevel;
use version_updater::patcher::Patcher;
use version_updater::rebuilder::RepoRebuilder;

fn patcher(repo_type: RepoType, disable_checks: bool) -> Patcher {
    Patcher {
        next_version: String::from("1.0.1"),
        current_version: String::from("1.0.0"),
        repo_name: String::from("web"),
        path: String::from("/repo/web"),
        repo_type,
        branch: String::from("main"),
        release_branch: String::from("release"),
        role: String::from("deploy"),
        sso_script_path: String::from("/opt/sso.sh"),
        disable_checks: disable_checks,
    }
}

#[test]
fn replaces_only_the_requested_number_of_occurrences() {
    let p = patcher(RepoType::Node, false);
    let content = "{\"version\": \"1.0.0\"}\n{\"version\": \"1.0.0\"}";
    assert_eq!(
        p.up_version_by_replacement(content, 1),
        "{\"version\": \"1.0.1\"}\n{\"version\": \"1.0.0\"}"
    );
    assert_eq!(
        p.up_version_by_replacement(content, 2),
        "{\"version\": \"1.0.1\"}\n{\"version\": \"1.0.1\"}"
    );
}

#[test]
fn absent_needle_leaves_content_untouched() {
    let p = patcher(RepoType::Node, false);
    let content = "{\"version\": \"9.9.9\"}";
    assert_eq!(p.up_version_by_replacement(content, 1), content);
}

#[test]
fn node_edits_patch_manifest_once_and_lock_twice() {
    let p = patcher(RepoType::Node, false);
    let lock = "{\"version\": \"1.0.0\", \"packages\": {\"\": {\"version\": \"1.0.0\"}}}";
    let (manifest, lockfile) = p.up_node_version("{\"version\": \"1.0.0\"}", lock);
    assert_eq!(manifest, "{\"version\": \"1.0.1\"}");
    assert_eq!(
        lockfile,
        "{\"version\": \"1.0.1\", \"packages\": {\"\": {\"version\": \"1.0.1\"}}}"
    );
}

#[test]
fn publish_plan_edits_depend_on_repo_type() {
    let node = patcher(RepoType::Node, false).update_version_in_repo();
    assert_eq!(node.edits[0].file_name, "package.json");
    assert_eq!(node.edits[0].count, 1);
    assert_eq!(node.edits[1].file_name, "package-lock.json");
    assert_eq!(node.edits[1].count, 2);

    let python = patcher(RepoType::Python, false).update_version_in_repo();
    assert_eq!(python.edits[1].file_name, "version.json");
    assert_eq!(python.edits[1].count, 1);
}

#[test]
fn publish_commands_commit_tag_and_push() {
    let plan = patcher(RepoType::Node, false).update_version_in_repo();
    let cmds = plan.commands;
    assert_eq!(cmds.len(), 5);
    assert_eq!(cmds[0].args, vec![String::from("add"), String::from("--all")]);
    assert_eq!(
        cmds[1].args,
        vec![String::from("commit"), String::from("-am"), String::from("@1.0.1 release")]
    );
    assert_eq!(
        cmds[2].args,
        vec![
            String::from("tag"),
            String::from("-a"),
            String::from("release/1.0.1"),
            String::from("-m"),
            String::from("release/1.0.1 version"),
        ]
    );
    assert_eq!(
        cmds[3].args,
        vec![
            String::from("push"),
            String::from("origin"),
            String::from("main"),
            String::from("-f"),
        ]
    );
    assert_eq!(cmds[4].args, vec![String::from("push"), String::from("--tags")]);
    assert!(cmds[4].recover_on_new_tag);
}

#[test]
fn disabled_checks_bypass_hooks() {
    let plan = patcher(RepoType::Node, true).update_version_in_repo();
    let cmds = plan.commands;
    assert_eq!(
        cmds[1].args,
        vec![
            String::from("commit"),
            String::from("--no-verify"),
            String::from("-m"),
            String::from("@1.0.1 release"),
        ]
    );
    assert_eq!(
        cmds[3].args,
        vec![
            String::from("push"),
            String::from("origin"),
            String::from("--no-verify"),
            String::from("main"),
            String::from("-f"),
        ]
    );
    assert_eq!(
        cmds[4].args,
        vec![String::from("push"), String::from("--tags"), String::from("--no-verify")]
    );
}

#[test]
fn rejected_tag_push_with_new_tag_marker_is_success() {
    let plan = patcher(RepoType::Node, false).update_version_in_repo();
    let push_tags = plan.commands.into_iter().nth(4).unwrap();
    let stderr = "error: failed to push\n * [new tag]  release/1.0.1 -> release/1.0.1";
    assert!(command_outcome(push_tags, false, stderr).is_ok());
}

#[test]
fn rejected_tag_push_without_marker_is_failure() {
    let plan = patcher(RepoType::Node, false).update_version_in_repo();
    let push_tags = plan.commands.into_iter().nth(4).unwrap();
    match command_outcome(push_tags, false, "error: remote rejected") {
        Err(CustomError::CommandExecution(m)) => assert_eq!(m, "Failed to push tags for repo"),
        _ => panic!("a rejected tag push without the marker must fail"),
    }
}

#[test]
fn pr_create_command_names_title_and_targets() {
    let cmd = patcher(RepoType::Node, false).get_pr_create_command_string().unwrap();
    assert_eq!(
        cmd,
        "aws codecommit create-pull-request --title 'CDA Artifact 1.0.1' \
         --targets repositoryName=web,sourceReference=main,destinationReference=release"
    );
}

#[test]
fn pr_shell_script_switches_role_then_creates_pr() {
    let p = patcher(RepoType::Node, false);
    let script = p.get_pr_create_with_login_command();
    let expected = format!(
        "\n                {}\n                {}\n            ",
        "source /opt/sso.sh -profile deploy",
        p.get_pr_create_command_string().unwrap()
    );
    assert_eq!(script, expected);
}

#[test]
fn pr_id_is_read_from_the_response() {
    let p = patcher(RepoType::Node, false);
    let stdout = "{\"pullRequest\": {\"pullRequestId\": \"42\"}}";
    assert_eq!(p.parse_pr_id(stdout).unwrap(), "42");
}

#[test]
fn malformed_pr_response_is_an_error() {
    let p = patcher(RepoType::Node, false);
    for bad in ["not json", "{}", "{\"pullRequest\": {}}", "{\"pullRequest\": {\"pullRequestId\": 7}}"] {
        match p.parse_pr_id(bad) {
            Err(CustomError::CommandExecution(m)) => assert_eq!(m, "Failed to parse json"),
            _ => panic!("an unreadable response must be an error"),
        }
    }
}

#[test]
fn pr_link_embeds_repo_and_id() {
    let p = patcher(RepoType::Node, false);
    assert_eq!(
        p.pr_link("42"),
        "https://console.aws.amazon.com/codesuite/codecommit/repositories/web/pull-requests/42/details?region=us-east-1"
    );
}

#[test]
fn pr_command_runs_through_the_shell_in_the_repo() {
    let plan = patcher(RepoType::Node, false).update_version_in_repo();
    assert_eq!(plan.pr_command.program, "zsh");
    assert_eq!(plan.pr_command.args[0], "-c");
    assert_eq!(plan.pr_command.dir, Some(String::from("/repo/web")));
}

#[test]
fn error_descriptions_carry_the_variant_and_message() {
    assert_eq!(
        CustomError::VersionBuild(String::from("Could not get next version")).describe(),
        "VersionBuild(\"Could not get next version\")"
    );
    assert_eq!(CustomError::UnknownBranch.describe(), "UnknownBranch");
}

#[test]
fn log_levels_render_lower_case() {
    assert_eq!(LogLevel::Info.name(), "info");
    assert_eq!(LogLevel::Error.name(), "error");
}

#[test]
fn rebuild_plan_is_node_only() {
    let node = RepoRebuilder {
        repo: String::from("/repo/web"),
        repo_type: RepoType::Node,
    };
    let cmds = node.rebuild_repo();
    assert_eq!(cmds.len(), 3);
    assert_eq!(cmds[0].program, "rm");
    assert_eq!(
        cmds[0].args,
        vec![String::from("-rf"), String::from("node_modules"), String::from("dist")]
    );
    assert_eq!(cmds[1].args, vec![String::from("install")]);
    assert_eq!(cmds[2].args, vec![String::from("run"), String::from("build")]);

    let python = RepoRebuilder {
        repo: String::from("/repo/api"),
        repo_type: RepoType::Python,
    };
    assert_eq!(python.rebuild_repo().len(), 0);
}

#[test]
fn sync_plan_ends_with_hard_reset_to_remote() {
    let cmds = BranchSwitcher { target_branch: String::from("main") }
        .checkout_target_branch("/repo/web");
    assert_eq!(cmds.len(), 4);
    assert_eq!(cmds[0].args, vec![String::from("stash")]);
    assert_eq!(cmds[1].args, vec![String::from("fetch")]);
    assert_eq!(cmds[2].args, vec![String::from("checkout"), String::from("main")]);
    assert_eq!(
        cmds[3].args,
        vec![String::from("reset"), String::from("--hard"), String::from("origin/main")]
    );
    for cmd in &cmds {
        assert_eq!(cmd.dir, Some(String::from("/repo/web")));
    }
}
