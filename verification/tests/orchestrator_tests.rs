use version_updater::commands::command_outcome;
use version_updater::config::{RepoType, WorkersConfig};
use version_updater::errors::CustomError;
use version_updater::orchestrator::{
    aggregate, PipelineOutcome, RepoPipeline, RepoVerdict, Stage, StepEvent,
};

fn named(name: &str, v: RepoVerdict) -> (String, RepoVerdict) {
    (String::from(name), v)
}

#[test]
fn one_failure_isolates_to_one_error_entry() {
    let results = vec![
        named("alpha", RepoVerdict::Success(String::from("https://pr/1"))),
        named("beta", RepoVerdict::Failed(String::from("sync failed"))),
        named("gamma", RepoVerdict::Skipped),
    ];
    let out = aggregate(results);
    assert_eq!(out.errors.len(), 1);
    assert_eq!(out.errors[0], (String::from("beta"), String::from("sync failed")));
    assert_eq!(out.successes.len(), 1);
    assert_eq!(out.successes[0], (String::from("alpha"), String::from("https://pr/1")));
}

#[test]
fn dry_run_repositories_land_in_neither_map() {
    let results = vec![
        named("alpha", RepoVerdict::DryRun),
        named("beta", RepoVerdict::DryRun),
    ];
    let out = aggregate(results);
    assert_eq!(out.successes.len(), 0);
    assert_eq!(out.errors.len(), 0);
}

#[test]
fn record_keeps_maps_disjoint() {
    let mut out = PipelineOutcome::new();
    out.record(String::from("a"), RepoVerdict::Success(String::from("u")));
    out.record(String::from("b"), RepoVerdict::Failed(String::from("e")));
    out.record(String::from("c"), RepoVerdict::Skipped);
    assert_eq!(out.successes, vec![(String::from("a"), String::from("u"))]);
    assert_eq!(out.errors, vec![(String::from("b"), String::from("e"))]);
}

#[test]
fn pipeline_walks_the_full_sequence_to_success() {
    let mut p = RepoPipeline::new(true, true, false);
    p.advance(StepEvent::TypeResolved);
    assert!(matches!(p.stage, Stage::Sync));
    p.advance(StepEvent::Synced);
    assert!(matches!(p.stage, Stage::Summarize));
    p.advance(StepEvent::Summarized { history_empty: false });
    assert!(matches!(p.stage, Stage::Rebuild));
    p.advance(StepEvent::Rebuilt);
    assert!(matches!(p.stage, Stage::ResolveVersion));
    p.advance(StepEvent::VersionResolved);
    assert!(matches!(p.stage, Stage::Publish));
    p.advance(StepEvent::Published(String::from("https://pr/9")));
    match p.stage {
        Stage::Done(RepoVerdict::Success(url)) => assert_eq!(url, "https://pr/9"),
        _ => panic!("a published repository must finish successfully"),
    }
}

#[test]
fn empty_history_skips_when_only_updated_are_processed() {
    let mut p = RepoPipeline::new(true, true, true);
    p.advance(StepEvent::TypeResolved);
    p.advance(StepEvent::Synced);
    p.advance(StepEvent::Summarized { history_empty: true });
    assert!(matches!(p.stage, Stage::Done(RepoVerdict::Skipped)));
}

#[test]
fn rebuild_is_bypassed_when_not_required() {
    let mut p = RepoPipeline::new(false, true, false);
    p.advance(StepEvent::TypeResolved);
    p.advance(StepEvent::Synced);
    p.advance(StepEvent::Summarized { history_empty: true });
    assert!(matches!(p.stage, Stage::ResolveVersion));
}

#[test]
fn dry_run_stops_after_version_resolution() {
    let mut p = RepoPipeline::new(false, false, false);
    p.advance(StepEvent::TypeResolved);
    p.advance(StepEvent::Synced);
    p.advance(StepEvent::Summarized { history_empty: false });
    p.advance(StepEvent::VersionResolved);
    assert!(matches!(p.stage, Stage::Done(RepoVerdict::DryRun)));
}

#[test]
fn a_step_failure_ends_the_repository_only() {
    let mut p = RepoPipeline::new(true, true, false);
    p.advance(StepEvent::TypeResolved);
    p.advance(StepEvent::StepFailed(String::from("CommandExecution(\"boom\")")));
    match p.stage {
        Stage::Done(RepoVerdict::Failed(m)) => assert_eq!(m, "CommandExecution(\"boom\")"),
        _ => panic!("a failed step must end in a failure verdict"),
    }
}

#[test]
fn repo_type_is_resolved_by_list_membership() {
    let config = WorkersConfig {
        node_workers: vec![String::from("web")],
        python_workers: vec![String::from("api")],
    };
    assert!(matches!(config.get_repo_type("web"), Ok(RepoType::Node)));
    assert!(matches!(config.get_repo_type("api"), Ok(RepoType::Python)));
    assert!(matches!(config.get_repo_type("ghost"), Err(CustomError::UnknownBranch)));
}

#[test]
fn repos_list_concatenates_both_kinds() {
    let config = WorkersConfig {
        node_workers: vec![String::from("web"), String::from("cli")],
        python_workers: vec![String::from("api")],
    };
    assert_eq!(
        config.get_repos_list(),
        vec![String::from("web"), String::from("cli"), String::from("api")]
    );
}

#[test]
fn successful_commands_pass_through() {
    let plan = version_updater::branch::BranchSwitcher {
        target_branch: String::from("main"),
    }
    .checkout_target_branch("/repo");
    for cmd in plan {
        assert!(command_outcome(cmd, true, "").is_ok());
    }
}

#[test]
fn failed_command_surfaces_its_planned_error() {
    let plan = version_updater::branch::BranchSwitcher {
        target_branch: String::from("main"),
    }
    .checkout_target_branch("/repo");
    let first = plan.into_iter().next().unwrap();
    match command_outcome(first, false, "fatal: not a git repository") {
        Err(CustomError::CommandExecution(m)) => assert_eq!(m, "Failed to stash repo"),
        _ => panic!("a failed stash must surface its error"),
    }
}
