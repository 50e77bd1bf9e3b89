//! Credential establishment: classifying the session target from the
//! branch, checking cached SSO sessions, and planning the tool calls that
//! log in and switch to the configured role.

use vstd::prelude::*;
use vstd::string::StringExecFns;
use crate::commands::{args_of, is_exec_cmd, PlannedCommand};
use crate::errors::{CustomError, CustomResult};
use crate::json::{json_ok, json_string_field, read_string_field};
use crate::strutil::str_eq;
use crate::timeparse::rfc3339_to_epoch;

verus! {

/// The session profile a branch maps to, each carrying the name of the
/// tool configuration to activate.
pub enum TargetConfig {
    JFrog(String),
    CodeBuild(String),
}

/// One parsed session-cache entry; a file that lacks either field can
/// never witness a valid session.
pub struct SsoCacheEntry {
    pub start_url: Option<String>,
    pub expires_epoch: Option<i64>,
}

/// The entry witnesses a usable session: its start URL is the configured
/// one and its expiry lies strictly in the future.
pub open spec fn entry_grants(e: SsoCacheEntry, url: Seq<char>, now: int) -> bool {
    &&& e.start_url matches Some(u) && u@ == url
    &&& e.expires_epoch matches Some(t) && t > now
}

/// Some readable, well-formed cache entry witnesses a usable session.
pub open spec fn cache_grants(
    entries: Seq<Option<SsoCacheEntry>>,
    url: Seq<char>,
    now: int,
) -> bool {
    exists|i: int|
        0 <= i < entries.len() && (#[trigger] entries[i] matches Some(e) && entry_grants(
            e,
            url,
            now,
        ))
}

/// The shell line that switches the active role by sourcing the
/// configured script.
pub open spec fn switch_role_command(script_path: Seq<char>, role: Seq<char>) -> Seq<char> {
    "source "@ + script_path + " -profile "@ + role
}

/// Renders the role-switch line, exactly as [`switch_role_command`]
/// describes.
pub fn get_switch_role_command(script_path: &str, role: &str) -> (r: String)
    ensures
        r@ == switch_role_command(script_path@, role@),
{
    String::from_str("source ").concat(script_path).concat(" -profile ").concat(role)
}

/// Classifies the session target: the `next` branch publishes through
/// JFrog, every other branch through CodeBuild.
pub fn get_target_config(branch: &str) -> (r: CustomResult<TargetConfig>)
    ensures
        match r {
            Ok(t) => if branch@ == "next"@ {
                t matches TargetConfig::JFrog(p) && p@ == "jfrog"@
            } else {
                t matches TargetConfig::CodeBuild(p) && p@ == "codebuild"@
            },
            Err(_) => false,
        },
{
    if str_eq(branch, "next") {
        Ok(TargetConfig::JFrog(String::from_str("jfrog")))
    } else {
        Ok(TargetConfig::CodeBuild(String::from_str("codebuild")))
    }
}

/// The expiry a cache document carries, in epoch seconds: the
/// `expiresAt` string member read as an RFC 3339 stamp, when both exist.
pub open spec fn expires_epoch_of(s: Seq<char>) -> Option<int> {
    match json_string_field(s, "expiresAt"@) {
        Some(text) => crate::timeparse::rfc3339_epoch(text),
        None => None,
    }
}

/// Reads one session-cache document: its `startUrl` string and its
/// `expiresAt` stamp in epoch seconds, either of which may be missing.
/// A document that is not JSON yields no entry at all (and is skipped by
/// the validity scan, never an error); a well-formed one yields exactly
/// its `startUrl` member and [`expires_epoch_of`] the text.
pub fn parse_cache_entry(content: &str) -> (r: Option<SsoCacheEntry>)
    ensures
        r is Some <==> json_ok(content@),
        r matches Some(e) ==> ({
            &&& match (e.start_url, json_string_field(content@, "startUrl"@)) {
                (Some(u), Some(t)) => u@ == t,
                (None, None) => true,
                _ => false,
            }
            &&& match (e.expires_epoch, expires_epoch_of(content@)) {
                (Some(v), Some(t)) => v as int == t,
                (None, None) => true,
                _ => false,
            }
        }),
{
    let start_url = match read_string_field(content, "startUrl") {
        Err(_) => {
            return None;
        },
        Ok(v) => v,
    };
    let expires_epoch = match read_string_field(content, "expiresAt") {
        Err(_) => None,
        Ok(None) => None,
        Ok(Some(text)) => rfc3339_to_epoch(text.as_str()),
    };
    Some(SsoCacheEntry { start_url, expires_epoch })
}

/// Scans the parsed cache entries for one that still grants a session:
/// valid means the start URL equals the configured one and the expiry is
/// strictly later than now; unreadable or malformed files (the `None`
/// entries) are skipped, exactly as [`cache_grants`] describes.
pub fn sso_token_still_valid(
    entries: &Vec<Option<SsoCacheEntry>>,
    sso_start_url: &str,
    now_epoch: i64,
) -> (r: bool)
    ensures
        r == cache_grants(entries@, sso_start_url@, now_epoch as int),
{
    let mut i: usize = 0;
    while i < entries.len()
        invariant
            i <= entries.len(),
            forall|k: int|
                0 <= k < i ==> !(#[trigger] entries@[k] matches Some(e) && entry_grants(
                    e,
                    sso_start_url@,
                    now_epoch as int,
                )),
        decreases entries.len() - i,
    {
        match &entries[i] {
            None => {},
            Some(entry) => {
                match (&entry.start_url, &entry.expires_epoch) {
                    (Some(url), Some(expires)) => {
                        if str_eq(url.as_str(), sso_start_url) && *expires > now_epoch {
                            proof {
                                assert(entries@[i as int] matches Some(e) && entry_grants(
                                    e,
                                    sso_start_url@,
                                    now_epoch as int,
                                ));
                            }
                            return true;
                        }
                    },
                    _ => {},
                }
            },
        }
        i += 1;
    }
    false
}

/// The profile-activation call.
pub open spec fn is_npmrc_cmd(c: PlannedCommand, profile: Seq<char>) -> bool {
    &&& c.program@ == "npmrc"@
    &&& c.args.deep_view() == seq![profile]
    &&& c.dir is None
    &&& c.on_failure matches CustomError::NpmConfigError(m) && m@ == "Failed to use target config"@
    &&& !c.recover_on_new_tag
}

/// The interactive SSO login call.
pub open spec fn is_sso_login_cmd(c: PlannedCommand) -> bool {
    is_exec_cmd(
        c,
        "aws"@,
        seq!["sso"@, "login"@, "--sso-session"@, "sso"@],
        None,
        "Failed to login to AWS"@,
    )
}

/// The registry-token generation call, with its fixed domain, repository
/// and profile arguments.
pub open spec fn is_npm_token_cmd(c: PlannedCommand) -> bool {
    is_exec_cmd(
        c,
        "aws"@,
        seq![
            "codeartifact"@,
            "login"@,
            "--tool"@,
            "npm"@,
            "--domain"@,
            "conform"@,
            "--domain-owner"@,
            "022587608743"@,
            "--profile"@,
            "conform5-code-artifacts-read-role"@,
            "--region"@,
            "us-east-1"@,
            "--repository"@,
            "conform5-npm-common"@,
            "--profile"@,
            "conform5-edetek-dev-01.conform5-batch-dev"@,
        ],
        None,
        "Failed to generate token to codeartifact"@,
    )
}

/// The role-switch call through the shell.
pub open spec fn is_switch_role_cmd(
    c: PlannedCommand,
    script_path: Seq<char>,
    role: Seq<char>,
) -> bool {
    is_exec_cmd(
        c,
        "zsh"@,
        seq!["-c"@, switch_role_command(script_path, role)],
        None,
        "Failed to switch the aws role"@,
    )
}

fn npmrc_cmd(profile: String) -> (c: PlannedCommand)
    ensures
        is_npmrc_cmd(c, profile@),
{
    let mut argv: Vec<String> = Vec::new();
    argv.push(profile);
    let c = PlannedCommand {
        program: String::from_str("npmrc"),
        args: argv,
        dir: None,
        on_failure: CustomError::NpmConfigError(String::from_str("Failed to use target config")),
        recover_on_new_tag: false,
    };
    proof {
        assert(c.args.deep_view() =~~= seq![c.args@[0]@]);
    }
    c
}

fn sso_login_cmd() -> (c: PlannedCommand)
    ensures
        is_sso_login_cmd(c),
{
    let mut parts: Vec<&str> = Vec::new();
    parts.push("sso");
    parts.push("login");
    parts.push("--sso-session");
    parts.push("sso");
    let c = PlannedCommand {
        program: String::from_str("aws"),
        args: args_of(&parts),
        dir: None,
        on_failure: CustomError::CommandExecution(String::from_str("Failed to login to AWS")),
        recover_on_new_tag: false,
    };
    proof {
        assert(c.args.deep_view() =~~= seq!["sso"@, "login"@, "--sso-session"@, "sso"@]);
    }
    c
}

fn npm_token_cmd() -> (c: PlannedCommand)
    ensures
        is_npm_token_cmd(c),
{
    let mut parts: Vec<&str> = Vec::new();
    parts.push("codeartifact");
    parts.push("login");
    parts.push("--tool");
    parts.push("npm");
    parts.push("--domain");
    parts.push("conform");
    parts.push("--domain-owner");
    parts.push("022587608743");
    parts.push("--profile");
    parts.push("conform5-code-artifacts-read-role");
    parts.push("--region");
    parts.push("us-east-1");
    parts.push("--repository");
    parts.push("conform5-npm-common");
    parts.push("--profile");
    parts.push("conform5-edetek-dev-01.conform5-batch-dev");
    let c = PlannedCommand {
        program: String::from_str("aws"),
        args: args_of(&parts),
        dir: None,
        on_failure: CustomError::CommandExecution(
            String::from_str("Failed to generate token to codeartifact"),
        ),
        recover_on_new_tag: false,
    };
    proof {
        assert(c.args.deep_view() =~~= seq![
            "codeartifact"@,
            "login"@,
            "--tool"@,
            "npm"@,
            "--domain"@,
            "conform"@,
            "--domain-owner"@,
            "022587608743"@,
            "--profile"@,
            "conform5-code-artifacts-read-role"@,
            "--region"@,
            "us-east-1"@,
            "--repository"@,
            "conform5-npm-common"@,
            "--profile"@,
            "conform5-edetek-dev-01.conform5-batch-dev"@,
        ]);
    }
    c
}

fn switch_role_cmd(script_path: &str, role: &str) -> (c: PlannedCommand)
    ensures
        is_switch_role_cmd(c, script_path@, role@),
{
    let mut argv: Vec<String> = Vec::new();
    argv.push(String::from_str("-c"));
    argv.push(get_switch_role_command(script_path, role));
    let c = PlannedCommand {
        program: String::from_str("zsh"),
        args: argv,
        dir: None,
        on_failure: CustomError::CommandExecution(
            String::from_str("Failed to switch the aws role"),
        ),
        recover_on_new_tag: false,
    };
    proof {
        assert(c.args.deep_view() =~~= seq!["-c"@, switch_role_command(script_path@, role@)]);
    }
    c
}

/// The registry-login part of the plan: activate the profile, then — for
/// the CodeBuild target, when no cached session grants access — log in
/// interactively, and in every case generate the registry token.
pub fn login_to_aws(
    target_config: TargetConfig,
    cache_entries: &Vec<Option<SsoCacheEntry>>,
    sso_start_url: &str,
    now_epoch: i64,
) -> (cmds: Vec<PlannedCommand>)
    ensures
        match target_config {
            TargetConfig::JFrog(p) => cmds@.len() == 2 && is_npmrc_cmd(cmds@[0], p@)
                && is_npm_token_cmd(cmds@[1]),
            TargetConfig::CodeBuild(p) => if cache_grants(
                cache_entries@,
                sso_start_url@,
                now_epoch as int,
            ) {
                cmds@.len() == 2 && is_npmrc_cmd(cmds@[0], p@) && is_npm_token_cmd(cmds@[1])
            } else {
                cmds@.len() == 3 && is_npmrc_cmd(cmds@[0], p@) && is_sso_login_cmd(cmds@[1])
                    && is_npm_token_cmd(cmds@[2])
            },
        },
{
    let mut cmds: Vec<PlannedCommand> = Vec::new();
    match target_config {
        TargetConfig::JFrog(profile) => {
            cmds.push(npmrc_cmd(profile));
            cmds.push(npm_token_cmd());
        },
        TargetConfig::CodeBuild(profile) => {
            cmds.push(npmrc_cmd(profile));
            if !sso_token_still_valid(cache_entries, sso_start_url, now_epoch) {
                cmds.push(sso_login_cmd());
            }
            cmds.push(npm_token_cmd());
        },
    }
    cmds
}

/// The whole credential plan: the registry login for the branch's target,
/// followed by the role switch. The cached session state decides whether
/// an interactive login is needed, exactly as [`cache_grants`] describes.
pub fn login(
    branch: &str,
    script_path: &str,
    role: &str,
    sso_start_url: &str,
    cache_entries: &Vec<Option<SsoCacheEntry>>,
    now_epoch: i64,
) -> (r: CustomResult<Vec<PlannedCommand>>)
    ensures
        match r {
            Ok(cmds) => {
                &&& cmds@.len() >= 3
                &&& if branch@ == "next"@ {
                    cmds@.len() == 3 && is_npmrc_cmd(cmds@[0], "jfrog"@) && is_npm_token_cmd(
                        cmds@[1],
                    ) && is_switch_role_cmd(cmds@[2], script_path@, role@)
                } else if cache_grants(cache_entries@, sso_start_url@, now_epoch as int) {
                    cmds@.len() == 3 && is_npmrc_cmd(cmds@[0], "codebuild"@) && is_npm_token_cmd(
                        cmds@[1],
                    ) && is_switch_role_cmd(cmds@[2], script_path@, role@)
                } else {
                    cmds@.len() == 4 && is_npmrc_cmd(cmds@[0], "codebuild"@) && is_sso_login_cmd(
                        cmds@[1],
                    ) && is_npm_token_cmd(cmds@[2]) && is_switch_role_cmd(
                        cmds@[3],
                        script_path@,
                        role@,
                    )
                }
            },
            Err(_) => false,
        },
{
    let target_config = match get_target_config(branch) {
        Ok(t) => t,
        Err(e) => {
            return Err(e);
        },
    };
    let mut cmds = login_to_aws(target_config, cache_entries, sso_start_url, now_epoch);
    cmds.push(switch_role_cmd(script_path, role));
    Ok(cmds)
}

} // verus!
