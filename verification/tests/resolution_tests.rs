use version_updater::errors::CustomError;
use version_updater::version::{real_version_of, VersionSelecter};

fn selecter(expected: Option<&str>, release: &str) -> VersionSelecter {
    VersionSelecter {
        expected_version: expected.map(String::from),
        repo: String::from("/path/to/repo"),
        release: String::from(release),
    }
}

#[test]
fn reads_version_from_first_manifest() {
    let contents = vec![Some(String::from("{\"version\": \"1.2.3\"}")), None];
    let pair = selecter(None, "11.0_RELEASE").get_version(&contents).unwrap();
    assert_eq!(pair.0, "1.2.3");
    assert_eq!(pair.1, "1.2.4");
}

#[test]
fn explicit_version_is_used_verbatim() {
    let contents = vec![Some(String::from("{\"version\": \"1.2.3\"}"))];
    let pair = selecter(Some("7.7.7"), "11.0_RELEASE").get_version(&contents).unwrap();
    assert_eq!(pair.0, "1.2.3");
    assert_eq!(pair.1, "7.7.7");
}

#[test]
fn empty_override_is_rejected() {
    let contents = vec![Some(String::from("{\"version\": \"1.2.3\"}"))];
    match selecter(Some(""), "11.0_RELEASE").get_version(&contents) {
        Ok(_) => panic!("an empty override must not yield an empty next version"),
        Err(CustomError::VersionBuild(m)) => assert_eq!(m, "Expected version is empty"),
        Err(_) => panic!("unexpected error kind"),
    }
}

#[test]
fn letter_channel_uses_letter_policy() {
    let contents = vec![Some(String::from("{\"version\": \"1.2.3\"}"))];
    let pair = selecter(None, "5.9_RELEASE").get_version(&contents).unwrap();
    assert_eq!(pair.1, "1.2.3a");
}

#[test]
fn placeholder_version_falls_through_to_next_file() {
    let contents = vec![
        Some(String::from("{\"version\": \"0.0.0\"}")),
        Some(String::from("{\"version\": \"4.5.6\"}")),
    ];
    let pair = selecter(None, "11.0_RELEASE").get_version(&contents).unwrap();
    assert_eq!(pair.0, "4.5.6");
    assert_eq!(pair.1, "4.5.7");
}

#[test]
fn missing_version_field_falls_through() {
    let contents = vec![
        Some(String::from("{\"name\": \"thing\"}")),
        Some(String::from("{\"version\": \"2.0.0\"}")),
    ];
    let pair = selecter(None, "11.0_RELEASE").get_version(&contents).unwrap();
    assert_eq!(pair.0, "2.0.0");
}

#[test]
fn unreadable_files_are_skipped() {
    let contents = vec![None, Some(String::from("{\"version\": \"3.0.0\"}"))];
    let pair = selecter(None, "11.0_RELEASE").get_version(&contents).unwrap();
    assert_eq!(pair.0, "3.0.0");
}

#[test]
fn no_real_version_anywhere_is_an_error() {
    let contents = vec![Some(String::from("{\"version\": null}")), None];
    match selecter(None, "11.0_RELEASE").get_version(&contents) {
        Ok(_) => panic!("resolution must fail without a real version"),
        Err(CustomError::VersionBuild(m)) => {
            assert_eq!(m, "Could not get version from any of the files")
        }
        Err(_) => panic!("unexpected error kind"),
    }
}

#[test]
fn malformed_manifest_stops_resolution() {
    let contents = vec![Some(String::from("{not json"))];
    match selecter(None, "11.0_RELEASE").get_version(&contents) {
        Ok(_) => panic!("malformed JSON must not resolve"),
        Err(CustomError::VersionBuild(m)) => assert_eq!(m, "JSON was not well-formatted"),
        Err(_) => panic!("unexpected error kind"),
    }
}

#[test]
fn quoted_rendering_is_stripped() {
    assert_eq!(real_version_of("\"1.9.0\"").unwrap(), "1.9.0");
}

#[test]
fn null_empty_and_placeholder_are_not_versions() {
    assert!(real_version_of("null").is_none());
    assert!(real_version_of("").is_none());
    assert!(real_version_of("\"0.0.0\"").is_none());
    assert!(real_version_of("0.0.0").is_none());
}

#[test]
fn unquoted_rendering_is_kept_as_is() {
    assert_eq!(real_version_of("1.4").unwrap(), "1.4");
}

#[test]
fn numeric_version_renders_unquoted_and_advances() {
    let contents = vec![Some(String::from("{\"version\": 1.25}"))];
    let pair = selecter(None, "11.0_RELEASE").get_version(&contents).unwrap();
    assert_eq!(pair.0, "1.25");
    assert_eq!(pair.1, "1.26");
}

#[test]
fn version_path_joins_with_separator() {
    let s = selecter(None, "11.0_RELEASE");
    assert_eq!(s.get_version_path("package.json").unwrap(), "/path/to/repo/package.json");
}

#[test]
fn version_file_candidates_in_order() {
    let names = selecter(None, "11.0_RELEASE").version_file_names();
    assert_eq!(names, vec![String::from("package.json"), String::from("version.json")]);
}
