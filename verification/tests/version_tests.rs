use version_updater::errors::CustomError;
use version_updater::version::VersionSelecter;

fn selecter(release: &str) -> VersionSelecter {
    VersionSelecter {
        expected_version: None,
        repo: String::from("/path/to/repo"),
        release: String::from(release),
    }
}

#[test]
fn test_get_next_letter_version_from_current_0_should_be_0a() {
    let version_selecter = selecter("5.8_RELEASE");

    let next_version = version_selecter.get_next_char_version_from_current(String::from("1.0.0"));

    match next_version {
        Ok(value) => assert_eq!(value, "1.0.0a"),
        Err(err) => match err {
            CustomError::VersionBuild(m) => assert_eq!(m, "Could not get next version"),
            _ => panic!("unexpected error kind"),
        },
    }
}

#[test]
fn test_get_next_letter_version_from_current_0a_should_be_0b() {
    let version_selecter = selecter("5.91_RELEASE");

    let next_version = version_selecter.get_next_char_version_from_current(String::from("1.0.0a"));

    match next_version {
        Ok(value) => assert_eq!(value, "1.0.0b"),
        Err(err) => match err {
            CustomError::VersionBuild(m) => assert_eq!(m, "Could not get next version"),
            _ => panic!("unexpected error kind"),
        },
    }
}

#[test]
fn test_get_next_letter_version_from_current_0z_should_be_0aa() {
    let version_selecter = selecter("5.9_RELEASE");

    let next_version = version_selecter.get_next_char_version_from_current(String::from("1.0.0z"));

    match next_version {
        Ok(value) => assert_eq!(value, "1.0.0aa"),
        Err(err) => match err {
            CustomError::VersionBuild(m) => assert_eq!(m, "Could not get next version"),
            _ => panic!("unexpected error kind"),
        },
    }
}

#[test]
fn test_get_next_letter_version_from_current_0az_should_be_0aaa() {
    let version_selecter = selecter("5.8_RELEASE");

    let next_version = version_selecter.get_next_char_version_from_current(String::from(
        "1.0.0az",
    ));

    match next_version {
        Ok(value) => assert_eq!(value, "1.0.0aaa"),
        Err(err) => match err {
            CustomError::VersionBuild(m) => assert_eq!(m, "Could not get next version"),
            _ => panic!("unexpected error kind"),
        },
    }
}

#[test]
fn test_get_next_digit_version_from_current_0_should_be_1() {
    let version_selecter = selecter("5.10_RELEASE");

    let next_version = version_selecter.get_next_digit_version_from_current(String::from("1.0.0"));

    match next_version {
        Ok(value) => assert_eq!(value, "1.0.1"),
        Err(err) => match err {
            CustomError::VersionBuild(m) => assert_eq!(m, "Could not get next version"),
            _ => panic!("unexpected error kind"),
        },
    }
}

#[test]
fn test_get_next_digit_version_from_current_2a_should_be_3() {
    let version_selecter = selecter("10.1_RELEASE");

    let next_version = version_selecter.get_next_digit_version_from_current(String::from(
        "1.0.2a",
    ));

    match next_version {
        Ok(value) => assert_eq!(value, "1.0.3"),
        Err(err) => match err {
            CustomError::VersionBuild(m) => assert_eq!(m, "Could not get next version"),
            _ => panic!("unexpected error kind"),
        },
    }
}

#[test]
fn test_get_next_digit_version_from_current_1z_should_be_2() {
    let version_selecter = selecter("11.0_RELEASE");

    let next_version = version_selecter.get_next_digit_version_from_current(String::from(
        "1.0.1z",
    ));

    match next_version {
        Ok(value) => assert_eq!(value, "1.0.2"),
        Err(err) => match err {
            CustomError::VersionBuild(m) => assert_eq!(m, "Could not get next version"),
            _ => panic!("unexpected error kind"),
        },
    }
}

#[test]
fn test_get_next_digit_version_from_current_9_should_be_10() {
    let version_selecter = selecter("11.0_RELEASE");

    let next_version = version_selecter.get_next_digit_version_from_current(String::from(
        "10.1.9",
    ));

    match next_version {
        Ok(value) => assert_eq!(value, "10.1.10"),
        Err(err) => match err {
            CustomError::VersionBuild(m) => assert_eq!(m, "Could not get next version"),
            _ => panic!("unexpected error kind"),
        },
    }
}

#[test]
fn test_get_next_digit_version_from_current_19_should_be_20() {
    let version_selecter = selecter("11.0_RELEASE");

    let next_version = version_selecter.get_next_digit_version_from_current(String::from(
        "10.1.19",
    ));

    match next_version {
        Ok(value) => assert_eq!(value, "10.1.20"),
        Err(err) => match err {
            CustomError::VersionBuild(m) => assert_eq!(m, "Could not get next version"),
            _ => panic!("unexpected error kind"),
        },
    }
}

#[test]
fn test_get_next_digit_version_from_current_29_should_be_30() {
    let version_selecter = selecter("11.0_RELEASE");

    let next_version = version_selecter.get_next_digit_version_from_current(String::from(
        "10.1.29",
    ));

    match next_version {
        Ok(value) => assert_eq!(value, "10.1.30"),
        Err(err) => match err {
            CustomError::VersionBuild(m) => assert_eq!(m, "Could not get next version"),
            _ => panic!("unexpected error kind"),
        },
    }
}

#[test]
fn test_get_next_digit_version_from_current_0az_should_be_1() {
    let version_selecter = selecter("5.10_RELEASE");

    let next_version = version_selecter.get_next_digit_version_from_current(String::from(
        "1.0.0az",
    ));

    match next_version {
        Ok(value) => assert_eq!(value, "1.0.1"),
        Err(err) => match err {
            CustomError::VersionBuild(m) => assert_eq!(m, "Could not get next version"),
            _ => panic!("unexpected error kind"),
        },
    }
}

#[test]
fn letter_policy_appends_a_after_digit() {
    let next = selecter("5.8_RELEASE")
        .get_next_char_version_from_current(String::from("2.4.7"))
        .unwrap();
    assert_eq!(next, "2.4.7a");
}

#[test]
fn letter_policy_advances_uppercase_too() {
    let next = selecter("5.8_RELEASE")
        .get_next_char_version_from_current(String::from("1.0.0B"))
        .unwrap();
    assert_eq!(next, "1.0.0C");
}

#[test]
fn digit_policy_without_any_digit_is_an_error() {
    let result = selecter("11.0_RELEASE").get_next_digit_version_from_current(String::from(
        "abc.def",
    ));
    match result {
        Ok(_) => panic!("a version without digits must not advance"),
        Err(CustomError::VersionBuild(m)) => assert_eq!(m, "Could not get next version"),
        Err(_) => panic!("unexpected error kind"),
    }
}

#[test]
fn digit_policy_keeps_leading_segments_intact() {
    let next = selecter("11.0_RELEASE")
        .get_next_digit_version_from_current(String::from("2.9.9"))
        .unwrap();
    assert_eq!(next, "2.9.10");
}

#[test]
fn increment_always_changes_the_version() {
    let letters = selecter("5.8_RELEASE");
    let digits = selecter("11.0_RELEASE");
    for current in ["1.0.0", "1.0.0a", "1.0.0z", "1.0.0az", "9.9.9", "0.0.1Z"] {
        let next = letters
            .get_next_char_version_from_current(String::from(current))
            .unwrap();
        assert_ne!(next, current);
        let next = digits
            .get_next_digit_version_from_current(String::from(current))
            .unwrap();
        assert_ne!(next, current);
    }
}
