use genesis_kit::error::RepipeError;
use genesis_kit::merge::{
    check_merge, cherry_pick_command, has_yaml_extension, is_excluded_directory, judge_merge,
    merge_command, PipelineFile,
};

fn file(directories: &[&str], name: &str) -> PipelineFile {
    PipelineFile {
        directories: directories.iter().map(|d| d.to_string()).collect(),
        name: name.to_string(),
    }
}

fn strings(items: &[&str]) -> Vec<String> {
    items.iter().map(|i| i.to_string()).collect()
}

#[test]
fn only_custom_and_optional_are_left_out() {
    assert!(is_excluded_directory("custom"));
    assert!(is_excluded_directory("optional"));
    assert!(!is_excluded_directory("customs"));
    assert!(!is_excluded_directory("Custom"));
    assert!(!is_excluded_directory("jobs"));
    assert!(!is_excluded_directory(""));
}

#[test]
fn yaml_extension_needs_a_stem() {
    assert!(has_yaml_extension("base.yml"));
    assert!(has_yaml_extension("a.yml"));
    assert!(has_yaml_extension("..yml"));
    assert!(has_yaml_extension("caf\u{e9}.yml"));
    assert!(!has_yaml_extension(".yml"));
    assert!(!has_yaml_extension("yml"));
    assert!(!has_yaml_extension("a.yaml"));
    assert!(!has_yaml_extension("a.yml.bak"));
    assert!(!has_yaml_extension("a.YML"));
    assert!(!has_yaml_extension(""));
}

#[test]
fn base_file_is_only_the_one_at_the_top() {
    assert!(file(&[], "base.yml").is_base());
    assert!(!file(&["jobs"], "base.yml").is_base());
    assert!(!file(&[], "other.yml").is_base());
}

#[test]
fn a_file_below_an_excluded_directory_is_not_reachable() {
    assert!(file(&[], "a.yml").reachable());
    assert!(file(&["jobs", "deep"], "a.yml").reachable());
    assert!(!file(&["custom"], "a.yml").reachable());
    assert!(!file(&["jobs", "optional", "x"], "a.yml").reachable());
}

#[test]
fn selection_takes_reachable_yaml_but_not_the_base() {
    assert!(file(&["jobs"], "build.yml").selected());
    assert!(file(&[], "custom.yml").selected());
    assert!(!file(&[], "base.yml").selected());
    assert!(!file(&["optional"], "build.yml").selected());
    assert!(!file(&["jobs"], "README.md").selected());
}

#[test]
fn relative_path_joins_with_slashes() {
    assert_eq!(file(&[], "base.yml").relative_path(), "pipeline/base.yml");
    assert_eq!(file(&["jobs"], "build.yml").relative_path(), "pipeline/jobs/build.yml");
    assert_eq!(file(&["a", "b", "c"], "d.yml").relative_path(), "pipeline/a/b/c/d.yml");
}

#[test]
fn merge_command_puts_base_first_and_settings_last() {
    let files = vec![
        file(&["jobs"], "build.yml"),
        file(&[], "base.yml"),
        file(&["custom"], "mine.yml"),
        file(&[], "notes.txt"),
        file(&["resources"], "git.yml"),
        file(&["jobs", "optional"], "extra.yml"),
    ];
    assert_eq!(
        merge_command(&files, "settings-prod.yml"),
        strings(&[
            "merge",
            "--fallback-append",
            "pipeline/base.yml",
            "pipeline/jobs/build.yml",
            "pipeline/resources/git.yml",
            "settings-prod.yml",
        ])
    );
}

#[test]
fn merge_command_with_base_only() {
    let files = vec![file(&[], "base.yml")];
    assert_eq!(
        merge_command(&files, "settings.yml"),
        strings(&["merge", "--fallback-append", "pipeline/base.yml", "settings.yml"])
    );
    assert_eq!(
        merge_command(&vec![], "settings.yml"),
        strings(&["merge", "--fallback-append", "pipeline/base.yml", "settings.yml"])
    );
}

#[test]
fn merge_command_is_the_same_for_the_same_inputs() {
    let files = vec![file(&["jobs"], "b.yml"), file(&["jobs"], "a.yml")];
    let first = merge_command(&files, "settings.yml");
    let second = merge_command(&files.clone(), "settings.yml");
    assert_eq!(first, second);
    assert_eq!(first[3], "pipeline/jobs/b.yml");
    assert_eq!(first[4], "pipeline/jobs/a.yml");
}

#[test]
fn cherry_pick_reads_the_meta_block_from_input() {
    assert_eq!(
        cherry_pick_command(),
        strings(&["merge", "--skip-eval", "--cherry-pick", "meta", "-"])
    );
}

#[test]
fn judge_merge_reports_the_tools_failure() {
    let r = judge_merge(false, Some("a: 1".to_string()), true, "boom".to_string());
    assert_eq!(r, Err(RepipeError::MergeFailed { diagnostics: "boom".to_string() }));
}

#[test]
fn judge_merge_wants_well_formed_text() {
    assert_eq!(
        judge_merge(true, None, false, String::new()),
        Err(RepipeError::InvalidMergedDocument)
    );
    assert_eq!(
        judge_merge(true, Some("a: [".to_string()), false, String::new()),
        Err(RepipeError::InvalidMergedDocument)
    );
    assert_eq!(
        judge_merge(true, Some("a: 1".to_string()), true, String::new()),
        Ok("a: 1".to_string())
    );
}

#[test]
fn check_merge_accepts_a_yaml_document() {
    let text = "jobs:\n- name: build\nmeta:\n  target: prod\n";
    assert_eq!(check_merge(true, text.as_bytes().to_vec(), String::new()), Ok(text.to_string()));
}

#[test]
fn check_merge_rejects_what_is_no_yaml() {
    let r = check_merge(true, b"jobs: [1, 2".to_vec(), String::new());
    assert_eq!(r, Err(RepipeError::InvalidMergedDocument));
    let r = check_merge(true, b"a: b: c: {".to_vec(), String::new());
    assert_eq!(r, Err(RepipeError::InvalidMergedDocument));
}

#[test]
fn check_merge_rejects_what_is_no_text() {
    let r = check_merge(true, vec![0x6a, 0xff, 0xfe], String::new());
    assert_eq!(r, Err(RepipeError::InvalidMergedDocument));
}

#[test]
fn check_merge_decodes_utf8() {
    let text = "name: caf\u{e9} \u{1f680}\n";
    assert_eq!(check_merge(true, text.as_bytes().to_vec(), String::new()), Ok(text.to_string()));
}

#[test]
fn check_merge_reports_failure_with_diagnostics() {
    let r = check_merge(false, b"jobs: []".to_vec(), "unresolved (( grab ))".to_string());
    assert_eq!(r, Err(RepipeError::MergeFailed { diagnostics: "unresolved (( grab ))".to_string() }));
}
