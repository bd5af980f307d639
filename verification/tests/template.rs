use genesis_kit::template::{check_version, judge_version, progress_message};

#[test]
fn semantic_versions_are_accepted() {
    assert_eq!(check_version("2.1.0"), Ok(()));
    assert_eq!(check_version("0.0.1"), Ok(()));
    assert_eq!(check_version("1.2.3-rc.1+build.5"), Ok(()));
}

#[test]
fn other_texts_get_the_advice() {
    let advice = Err("Please enter a valid semantic version (e.g., 2.1.0)");
    assert_eq!(check_version(""), advice);
    assert_eq!(check_version("2.1"), advice);
    assert_eq!(check_version("v2.1.0"), advice);
    assert_eq!(check_version("2.1.0 "), advice);
    assert_eq!(check_version("1.0.01"), advice);
    assert_eq!(check_version("latest"), advice);
}

#[test]
fn judging_follows_the_parser() {
    assert_eq!(judge_version(true), Ok(()));
    assert_eq!(judge_version(false), Err("Please enter a valid semantic version (e.g., 2.1.0)"));
}

#[test]
fn progress_changes_its_message_at_three_steps() {
    assert_eq!(progress_message(30), Some("Validating template compatibility..."));
    assert_eq!(progress_message(60), Some("Updating dependencies..."));
    assert_eq!(progress_message(90), Some("Regenerating configurations..."));
    assert_eq!(progress_message(0), None);
    assert_eq!(progress_message(29), None);
    assert_eq!(progress_message(31), None);
    assert_eq!(progress_message(99), None);
}
