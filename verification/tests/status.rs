use genesis_kit::meta::PipelineMeta;
use genesis_kit::status::{
    build_state, classify_build, first_number, kit_status, latest_build_number, pipeline_name,
    status_row, test_job_name, BuildState, KitStatus,
};

fn empty() -> PipelineMeta {
    PipelineMeta { target: None, url: None, team: None, pipeline: None, name: None, exposed: None }
}

#[test]
fn labels_of_the_states() {
    assert_eq!(BuildState::Passing.label(), "Passing");
    assert_eq!(BuildState::Failed.label(), "Failed");
    assert_eq!(BuildState::Running.label(), "Running");
    assert_eq!(BuildState::Unknown.label(), "Unknown");
    assert_eq!(BuildState::Error.label(), "Error");
}

#[test]
fn words_stand_for_states() {
    assert_eq!(classify_build(&Some("succeeded".to_string())), BuildState::Passing);
    assert_eq!(classify_build(&Some("failed".to_string())), BuildState::Failed);
    assert_eq!(classify_build(&Some("started".to_string())), BuildState::Running);
    assert_eq!(classify_build(&Some("aborted".to_string())), BuildState::Unknown);
    assert_eq!(classify_build(&Some("Succeeded".to_string())), BuildState::Unknown);
    assert_eq!(classify_build(&None), BuildState::Unknown);
}

#[test]
fn state_is_the_third_word_of_the_first_line() {
    let out = "4821  shield/test-kit  succeeded  2024-01-01  2024-01-01  3m\n4820  shield/test-kit  failed  x\n";
    assert_eq!(build_state(true, out), BuildState::Passing);
    assert_eq!(build_state(true, "1 j failed"), BuildState::Failed);
    assert_eq!(build_state(true, "\t1\tj\tstarted\r\nnext line succeeded"), BuildState::Running);
    assert_eq!(build_state(true, "1 j started\r\n"), BuildState::Running);
}

#[test]
fn state_is_unknown_without_a_third_word() {
    assert_eq!(build_state(true, ""), BuildState::Unknown);
    assert_eq!(build_state(true, "1 j"), BuildState::Unknown);
    assert_eq!(build_state(true, "1 j\nsucceeded succeeded succeeded"), BuildState::Unknown);
    assert_eq!(build_state(true, "\n1 j succeeded"), BuildState::Unknown);
    assert_eq!(build_state(true, "1 j pending"), BuildState::Unknown);
    assert_eq!(build_state(true, "   "), BuildState::Unknown);
}

#[test]
fn state_is_error_where_the_orchestrator_failed() {
    assert_eq!(build_state(false, "1 j succeeded"), BuildState::Error);
    assert_eq!(build_state(false, ""), BuildState::Error);
}

#[test]
fn pipeline_name_falls_back_to_the_kit() {
    let mut m = empty();
    assert_eq!(pipeline_name(&m, "vault-v2"), "genesis-kit-vault-v2");
    m.name = Some("vault".to_string());
    assert_eq!(pipeline_name(&m, "vault-v2"), "vault");
    m.pipeline = Some("vault-main".to_string());
    assert_eq!(pipeline_name(&m, "vault-v2"), "vault-main");
}

#[test]
fn test_job_is_named_after_the_pipeline() {
    assert_eq!(test_job_name("vault-main"), "vault-main/test-kit");
    assert_eq!(test_job_name(""), "/test-kit");
}

#[test]
fn row_reads_versions_from_the_configuration() {
    let json = "{\"version\": \"1.4.2\", \"template_version\": \"2.0.0\", \"x\": 1}";
    let row = kit_status("bosh-v2", BuildState::Passing, &Some(json.as_bytes().to_vec()));
    assert_eq!(
        row,
        Some(KitStatus {
            name: "bosh-v2".to_string(),
            version: "1.4.2".to_string(),
            template_version: "2.0.0".to_string(),
            ci_status: "Passing".to_string(),
        })
    );
}

#[test]
fn row_says_unknown_where_a_version_is_missing() {
    let json = "{\"version\": 3}";
    let row = kit_status("bosh-v2", BuildState::Failed, &Some(json.as_bytes().to_vec())).unwrap();
    assert_eq!(row.version, "unknown");
    assert_eq!(row.template_version, "unknown");
    assert_eq!(row.ci_status, "Failed");
    let row = kit_status("bosh-v2", BuildState::Error, &None).unwrap();
    assert_eq!(row.name, "bosh-v2");
    assert_eq!(row.version, "unknown");
    assert_eq!(row.template_version, "unknown");
    assert_eq!(row.ci_status, "Error");
    let row = kit_status("bosh-v2", BuildState::Unknown, &Some(b"[1, 2]".to_vec())).unwrap();
    assert_eq!(row.version, "unknown");
}

#[test]
fn no_row_where_the_configuration_is_no_json() {
    assert_eq!(kit_status("bosh-v2", BuildState::Passing, &Some(b"{\"version\": ".to_vec())), None);
    assert_eq!(kit_status("bosh-v2", BuildState::Passing, &Some(vec![])), None);
}

#[test]
fn row_from_a_parsed_configuration() {
    let value = serde_json::from_str::<serde_json::Value>("{\"version\": \"9.9.9\"}").unwrap();
    let row = status_row("shield-v2", BuildState::Running, &Some(value));
    assert_eq!(row.version, "9.9.9");
    assert_eq!(row.template_version, "unknown");
    assert_eq!(row.ci_status, "Running");
}

#[test]
fn latest_build_number_is_that_of_the_first_build() {
    let json = "[{\"number\": \"17\", \"status\": \"succeeded\"}, {\"number\": \"16\"}]";
    assert_eq!(latest_build_number(&json.as_bytes().to_vec()), Ok(Some("17".to_string())));
}

#[test]
fn latest_build_number_may_be_missing() {
    assert_eq!(latest_build_number(&b"[]".to_vec()), Ok(None));
    assert_eq!(latest_build_number(&b"{\"number\": \"17\"}".to_vec()), Ok(None));
    assert_eq!(latest_build_number(&b"[{\"number\": 17}]".to_vec()), Ok(None));
    assert_eq!(latest_build_number(&b"[{\"id\": \"17\"}]".to_vec()), Ok(None));
    assert_eq!(latest_build_number(&b"[[\"number\"]]".to_vec()), Ok(None));
}

#[test]
fn latest_build_number_of_what_is_no_json() {
    assert_eq!(latest_build_number(&b"[{\"number\": ".to_vec()), Err(()));
    assert_eq!(latest_build_number(&b"not json".to_vec()), Err(()));
}

#[test]
fn first_number_of_a_parsed_list() {
    let value =
        serde_json::from_str::<serde_json::Value>("[{\"number\": \"3\"}, {\"number\": \"2\"}]")
            .unwrap();
    assert_eq!(first_number(&value), Some("3".to_string()));
}
