use genesis_kit::error::RepipeError;
use genesis_kit::locate::{
    candidate_paths, find_ci_directory, first_existing, first_existing_path, Candidate,
};

fn c(path: &str, exists: bool) -> Candidate {
    Candidate { path: path.to_string(), exists }
}

#[test]
fn working_directory_named_ci_is_taken() {
    let r = find_ci_directory(
        "/work/kit/ci",
        &Some("ci".to_string()),
        &c("/work/kit/ci/ci", true),
        &Some(c("/work/kit/ci", true)),
    );
    assert_eq!(r, Ok("/work/kit/ci".to_string()));
}

#[test]
fn child_comes_before_parent() {
    let r = find_ci_directory(
        "/work/kit",
        &Some("kit".to_string()),
        &c("/work/kit/ci", true),
        &Some(c("/work/ci", true)),
    );
    assert_eq!(r, Ok("/work/kit/ci".to_string()));
}

#[test]
fn parent_is_taken_where_child_is_missing() {
    let r = find_ci_directory(
        "/work/kit/src",
        &Some("src".to_string()),
        &c("/work/kit/src/ci", false),
        &Some(c("/work/kit/ci", true)),
    );
    assert_eq!(r, Ok("/work/kit/ci".to_string()));
}

#[test]
fn nothing_found_reports_every_place() {
    let r = find_ci_directory(
        "/work",
        &Some("work".to_string()),
        &c("/work/ci", false),
        &Some(c("/ci", false)),
    );
    assert_eq!(
        r,
        Err(RepipeError::DirectoryNotFound {
            checked: vec!["/work".to_string(), "/work/ci".to_string(), "/ci".to_string()]
        })
    );
}

#[test]
fn root_has_no_parent_candidate() {
    let r = find_ci_directory("/", &None, &c("/ci", false), &None);
    assert_eq!(
        r,
        Err(RepipeError::DirectoryNotFound { checked: vec!["/".to_string(), "/ci".to_string()] })
    );
    let r = find_ci_directory("/", &None, &c("/ci", true), &None);
    assert_eq!(r, Ok("/ci".to_string()));
}

#[test]
fn a_name_that_only_ends_in_ci_is_not_ci() {
    let r = find_ci_directory(
        "/work/magici",
        &Some("magici".to_string()),
        &c("/work/magici/ci", false),
        &None,
    );
    assert!(matches!(r, Err(RepipeError::DirectoryNotFound { .. })));
}

#[test]
fn first_existing_takes_the_earliest() {
    let list = vec![c("a", false), c("b", true), c("c", true)];
    assert_eq!(first_existing(&list), Some(1));
    assert_eq!(first_existing_path(&list), Ok("b".to_string()));
    let list = vec![c("a", false), c("b", false)];
    assert_eq!(first_existing(&list), None);
    assert_eq!(
        first_existing_path(&list),
        Err(RepipeError::DirectoryNotFound { checked: vec!["a".to_string(), "b".to_string()] })
    );
    assert_eq!(first_existing(&vec![]), None);
}

#[test]
fn candidate_paths_keep_their_order() {
    let list = vec![c("x/ci", false), c("ci", true), c("../ci", false)];
    assert_eq!(
        candidate_paths(&list),
        vec!["x/ci".to_string(), "ci".to_string(), "../ci".to_string()]
    );
}
