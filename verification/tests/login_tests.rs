use version_updater::errors::CustomError;
use version_updater::loginer::{
    get_switch_role_command, get_target_config, login, parse_cache_entry, sso_token_still_valid,
    SsoCacheEntry, TargetConfig,
};

const NOW: i64 = 1700000000;

fn entry(url: Option<&str>, expires: Option<i64>) -> Option<SsoCacheEntry> {
    Some(SsoCacheEntry {
        start_url: url.map(String::from),
        expires_epoch: expires,
    })
}

#[test]
fn matching_url_and_future_expiry_is_valid() {
    let entries = vec![entry(Some("https://x"), Some(NOW + 100))];
    assert!(sso_token_still_valid(&entries, "https://x", NOW));
}

#[test]
fn past_expiry_is_invalid() {
    let entries = vec![entry(Some("https://x"), Some(NOW - 100))];
    assert!(!sso_token_still_valid(&entries, "https://x", NOW));
}

#[test]
fn different_url_is_invalid() {
    let entries = vec![entry(Some("https://y"), Some(NOW + 100))];
    assert!(!sso_token_still_valid(&entries, "https://x", NOW));
}

#[test]
fn missing_fields_are_invalid() {
    let entries = vec![
        entry(None, Some(NOW + 100)),
        entry(Some("https://x"), None),
        None,
    ];
    assert!(!sso_token_still_valid(&entries, "https://x", NOW));
}

#[test]
fn one_valid_entry_among_many_suffices() {
    let entries = vec![
        None,
        entry(Some("https://y"), Some(NOW + 100)),
        entry(Some("https://x"), Some(NOW + 100)),
    ];
    assert!(sso_token_still_valid(&entries, "https://x", NOW));
}

#[test]
fn cache_files_parse_into_entries() {
    let parsed = parse_cache_entry(
        "{\"startUrl\": \"https://x\", \"expiresAt\": \"2030-01-01T00:00:00Z\"}",
    )
    .unwrap();
    assert_eq!(parsed.start_url, Some(String::from("https://x")));
    let expires = parsed.expires_epoch.unwrap();
    assert!(expires > NOW);
    let entries = vec![Some(parsed)];
    assert!(sso_token_still_valid(&entries, "https://x", NOW));
}

#[test]
fn malformed_cache_files_are_ignored_without_raising() {
    assert!(parse_cache_entry("{not json").is_none());
    let entries = vec![parse_cache_entry("{not json")];
    assert!(!sso_token_still_valid(&entries, "https://x", NOW));
}

#[test]
fn unparsable_expiry_leaves_the_field_empty() {
    let parsed = parse_cache_entry(
        "{\"startUrl\": \"https://x\", \"expiresAt\": \"not a date\"}",
    )
    .unwrap();
    assert_eq!(parsed.expires_epoch, None);
}

#[test]
fn next_branch_maps_to_jfrog() {
    match get_target_config("next").unwrap() {
        TargetConfig::JFrog(p) => assert_eq!(p, "jfrog"),
        TargetConfig::CodeBuild(_) => panic!("next must use the JFrog profile"),
    }
}

#[test]
fn other_branches_map_to_codebuild() {
    match get_target_config("main").unwrap() {
        TargetConfig::CodeBuild(p) => assert_eq!(p, "codebuild"),
        TargetConfig::JFrog(_) => panic!("other branches must use the CodeBuild profile"),
    }
}

#[test]
fn switch_role_line_sources_the_script() {
    assert_eq!(
        get_switch_role_command("/opt/sso.sh", "deploy"),
        "source /opt/sso.sh -profile deploy"
    );
}

#[test]
fn jfrog_login_plan_has_no_sso_step() {
    let cmds = login("next", "/opt/sso.sh", "deploy", "https://x", &vec![], NOW).unwrap();
    assert_eq!(cmds.len(), 3);
    assert_eq!(cmds[0].program, "npmrc");
    assert_eq!(cmds[0].args, vec![String::from("jfrog")]);
    assert_eq!(cmds[1].program, "aws");
    assert_eq!(cmds[1].args[0], "codeartifact");
    assert_eq!(cmds[2].program, "zsh");
    assert_eq!(
        cmds[2].args,
        vec![String::from("-c"), String::from("source /opt/sso.sh -profile deploy")]
    );
}

#[test]
fn codebuild_plan_logs_in_when_cache_is_stale() {
    let entries = vec![entry(Some("https://x"), Some(NOW - 1))];
    let cmds = login("main", "/opt/sso.sh", "deploy", "https://x", &entries, NOW).unwrap();
    assert_eq!(cmds.len(), 4);
    assert_eq!(cmds[0].args, vec![String::from("codebuild")]);
    assert_eq!(
        cmds[1].args,
        vec![
            String::from("sso"),
            String::from("login"),
            String::from("--sso-session"),
            String::from("sso"),
        ]
    );
    assert_eq!(cmds[2].args[0], "codeartifact");
    assert_eq!(cmds[3].program, "zsh");
}

#[test]
fn codebuild_plan_skips_login_when_cache_grants() {
    let entries = vec![entry(Some("https://x"), Some(NOW + 1))];
    let cmds = login("main", "/opt/sso.sh", "deploy", "https://x", &entries, NOW).unwrap();
    assert_eq!(cmds.len(), 3);
    assert_eq!(cmds[1].args[0], "codeartifact");
}

#[test]
fn npmrc_failure_is_a_config_error() {
    let cmds = login("main", "/opt/sso.sh", "deploy", "https://x", &vec![], NOW).unwrap();
    match &cmds[0].on_failure {
        CustomError::NpmConfigError(m) => assert_eq!(m, "Failed to use target config"),
        _ => panic!("profile activation must report a config error"),
    }
}
