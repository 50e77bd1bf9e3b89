use version_updater::history::HistoryProvider;

fn provider() -> HistoryProvider {
    HistoryProvider { path: String::from("/path/to/repo") }
}

#[test]
fn truncates_at_release_marker() {
    let raw = String::from("fix: a\nfeat: b\nrelease/1.2.3\n* old commit");
    let summary = provider().provide(raw).unwrap();
    assert_eq!(summary, "fix: a\nfeat: b\n");
}

#[test]
fn truncates_at_release_commit_message() {
    let raw = String::from("feat: new\n@1.2.3 release\nfeat: older");
    let summary = provider().provide(raw).unwrap();
    assert_eq!(summary, "feat: new\n");
}

#[test]
fn strips_graph_markers_and_whitespace() {
    let raw = String::from("* fix: a\n  * feat: b");
    let summary = provider().generate_git_history_string(raw).unwrap();
    assert_eq!(summary, "fix: a\nfeat: b\n");
}

#[test]
fn marker_detection_applies_after_cleaning() {
    let raw = String::from("feat: x\n  * release/2.0.0\nfeat: y");
    let summary = provider().generate_git_history_string(raw).unwrap();
    assert_eq!(summary, "feat: x\n");
}

#[test]
fn without_marker_the_full_window_is_returned() {
    let raw = String::from("one\ntwo\nthree");
    let summary = provider().generate_git_history_string(raw).unwrap();
    assert_eq!(summary, "one\ntwo\nthree\n");
}

#[test]
fn empty_history_yields_single_newline() {
    let summary = provider().generate_git_history_string(String::new()).unwrap();
    assert_eq!(summary, "\n");
}

#[test]
fn history_command_asks_for_hundred_decorated_subjects() {
    let c = provider().history_command();
    assert_eq!(c.program, "git");
    assert_eq!(
        c.args,
        vec![
            String::from("log"),
            String::from("--pretty=format:%s"),
            String::from("--graph"),
            String::from("--abbrev-commit"),
            String::from("--decorate"),
            String::from("--date=relative"),
            String::from("-100"),
        ]
    );
    assert_eq!(c.dir, Some(String::from("/path/to/repo")));
}
