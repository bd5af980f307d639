use genesis_kit::credentials::{
    check_target, lookup_target, select_credentials, validate_target, Lookup, TargetEntry,
};
use genesis_kit::error::RepipeError;
use genesis_kit::locate::Candidate;

const FLYRC: &str = "targets:\n  prod:\n    api: https://ci.example.com\n    team: main\n    token:\n      type: bearer\n      value: abc\n  bare: {}\n  odd:\n    api: 42\n    team: [a]\n";

fn c(path: &str, exists: bool) -> Candidate {
    Candidate { path: path.to_string(), exists }
}

fn s(text: &str) -> Option<String> {
    Some(text.to_string())
}

fn entry(api: &str, team: &str) -> Lookup {
    Lookup::Found(TargetEntry { api: api.to_string(), team: team.to_string() })
}

#[test]
fn credentials_in_home_come_first() {
    let r = select_credentials(
        &Some(c("/home/u/.flyrc", true)),
        &Some(c("/etc/flyrc", true)),
        &c(".flyrc", true),
    );
    assert_eq!(r, Ok("/home/u/.flyrc".to_string()));
}

#[test]
fn named_credentials_come_before_local_ones() {
    let r = select_credentials(
        &Some(c("/home/u/.flyrc", false)),
        &Some(c("/etc/flyrc", true)),
        &c(".flyrc", true),
    );
    assert_eq!(r, Ok("/etc/flyrc".to_string()));
    let r = select_credentials(&None, &Some(c("/etc/flyrc", true)), &c(".flyrc", true));
    assert_eq!(r, Ok("/etc/flyrc".to_string()));
}

#[test]
fn local_credentials_are_the_last_resort() {
    let r = select_credentials(&Some(c("/home/u/.flyrc", false)), &None, &c(".flyrc", true));
    assert_eq!(r, Ok(".flyrc".to_string()));
    let r = select_credentials(&None, &None, &c(".flyrc", true));
    assert_eq!(r, Ok(".flyrc".to_string()));
}

#[test]
fn no_credentials_anywhere_is_an_error() {
    let r = select_credentials(
        &Some(c("/home/u/.flyrc", false)),
        &Some(c("/etc/flyrc", false)),
        &c(".flyrc", false),
    );
    assert_eq!(r, Err(RepipeError::CredentialsNotFound));
    let r = select_credentials(&None, &None, &c(".flyrc", false));
    assert_eq!(r, Err(RepipeError::CredentialsNotFound));
}

#[test]
fn lookup_finds_the_entry_of_a_target() {
    assert_eq!(lookup_target(FLYRC, "prod"), entry("https://ci.example.com", "main"));
}

#[test]
fn lookup_leaves_missing_fields_empty() {
    assert_eq!(lookup_target(FLYRC, "bare"), entry("", ""));
}

#[test]
fn lookup_leaves_fields_that_are_no_strings_empty() {
    assert_eq!(lookup_target(FLYRC, "odd"), entry("", ""));
}

#[test]
fn lookup_of_an_unknown_target() {
    assert_eq!(lookup_target(FLYRC, "dev"), Lookup::Unknown);
    assert_eq!(lookup_target(FLYRC, ""), Lookup::Unknown);
    assert_eq!(lookup_target(FLYRC, "targets"), Lookup::Unknown);
}

#[test]
fn lookup_in_a_file_without_targets() {
    assert_eq!(lookup_target("other: 1\n", "prod"), Lookup::Unknown);
    assert_eq!(lookup_target("targets: 3\n", "prod"), Lookup::Unknown);
    assert_eq!(lookup_target("- a\n- b\n", "prod"), Lookup::Unknown);
}

#[test]
fn lookup_in_a_file_that_is_no_yaml() {
    assert_eq!(lookup_target("targets: [a, b", "prod"), Lookup::Unreadable);
    assert_eq!(lookup_target("a: b: c: {", "prod"), Lookup::Unreadable);
}

#[test]
fn check_passes_where_nothing_is_declared() {
    let found = entry("https://ci.example.com", "main");
    assert_eq!(check_target("prod", &None, &None, &found), Ok(()));
}

#[test]
fn check_passes_where_url_and_team_agree() {
    let found = entry("https://ci.example.com", "main");
    assert_eq!(check_target("prod", &s("https://ci.example.com"), &s("main"), &found), Ok(()));
}

#[test]
fn check_fails_on_another_url() {
    let found = entry("https://other.example.com", "main");
    assert_eq!(
        check_target("prod", &s("https://ci.example.com"), &s("main"), &found),
        Err(RepipeError::TargetURLMismatch)
    );
    let found = entry("https://ci.example.com/", "main");
    assert_eq!(
        check_target("prod", &s("https://ci.example.com"), &None, &found),
        Err(RepipeError::TargetURLMismatch)
    );
}

#[test]
fn check_fails_on_another_team() {
    let found = entry("https://ci.example.com", "ops");
    assert_eq!(
        check_target("prod", &s("https://ci.example.com"), &s("main"), &found),
        Err(RepipeError::TargetTeamMismatch)
    );
    assert_eq!(
        check_target("prod", &None, &s("main"), &found),
        Err(RepipeError::TargetTeamMismatch)
    );
}

#[test]
fn url_is_checked_before_team() {
    let found = entry("https://other.example.com", "ops");
    assert_eq!(
        check_target("prod", &s("https://ci.example.com"), &s("main"), &found),
        Err(RepipeError::TargetURLMismatch)
    );
}

#[test]
fn check_reports_unknown_and_unreadable() {
    assert_eq!(
        check_target("dev", &None, &None, &Lookup::Unknown),
        Err(RepipeError::UnknownTarget { target: "dev".to_string() })
    );
    assert_eq!(
        check_target("dev", &None, &None, &Lookup::Unreadable),
        Err(RepipeError::InvalidCredentials)
    );
}

#[test]
fn a_declared_url_does_not_match_a_missing_one() {
    assert_eq!(
        validate_target(FLYRC, "bare", &s("https://ci.example.com"), &None),
        Err(RepipeError::TargetURLMismatch)
    );
    assert_eq!(validate_target(FLYRC, "bare", &s(""), &s("")), Ok(()));
}

#[test]
fn validate_reads_the_credentials_text() {
    assert_eq!(validate_target(FLYRC, "prod", &s("https://ci.example.com"), &s("main")), Ok(()));
    assert_eq!(validate_target(FLYRC, "prod", &None, &None), Ok(()));
    assert_eq!(
        validate_target(FLYRC, "prod", &s("https://ci.example.org"), &s("main")),
        Err(RepipeError::TargetURLMismatch)
    );
    assert_eq!(
        validate_target(FLYRC, "prod", &None, &s("dev")),
        Err(RepipeError::TargetTeamMismatch)
    );
    assert_eq!(
        validate_target(FLYRC, "stage", &None, &None),
        Err(RepipeError::UnknownTarget { target: "stage".to_string() })
    );
    assert_eq!(
        validate_target("{{", "prod", &None, &None),
        Err(RepipeError::InvalidCredentials)
    );
}
