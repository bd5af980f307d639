use genesis_kit::error::RepipeError;
use genesis_kit::meta::PipelineMeta;

fn s(text: &str) -> Option<String> {
    Some(text.to_string())
}

fn empty() -> PipelineMeta {
    PipelineMeta { target: None, url: None, team: None, pipeline: None, name: None, exposed: None }
}

#[test]
fn target_comes_from_metadata_first() {
    let mut m = empty();
    m.target = s("prod");
    assert_eq!(m.resolve_target(&s("dev")), Ok("prod".to_string()));
    assert_eq!(m.resolve_target(&None), Ok("prod".to_string()));
}

#[test]
fn target_falls_back_to_the_environment() {
    let m = empty();
    assert_eq!(m.resolve_target(&s("dev")), Ok("dev".to_string()));
}

#[test]
fn target_missing_on_both_sides_is_an_error() {
    let m = empty();
    assert_eq!(m.resolve_target(&None), Err(RepipeError::MissingTarget));
}

#[test]
fn an_empty_target_counts_as_missing() {
    let mut m = empty();
    m.target = s("");
    assert_eq!(m.resolve_target(&s("dev")), Ok("dev".to_string()));
    assert_eq!(m.resolve_target(&s("")), Err(RepipeError::MissingTarget));
    assert_eq!(m.resolve_target(&None), Err(RepipeError::MissingTarget));
}

#[test]
fn pipeline_name_prefers_pipeline_over_name() {
    let mut m = empty();
    m.pipeline = s("shield-main");
    m.name = s("shield");
    assert_eq!(m.resolve_pipeline(), Ok("shield-main".to_string()));
    m.pipeline = None;
    assert_eq!(m.resolve_pipeline(), Ok("shield".to_string()));
    m.pipeline = s("");
    assert_eq!(m.resolve_pipeline(), Ok("shield".to_string()));
}

#[test]
fn pipeline_name_missing_is_an_error() {
    let mut m = empty();
    assert_eq!(m.resolve_pipeline(), Err(RepipeError::MissingPipelineName));
    m.name = s("");
    assert_eq!(m.resolve_pipeline(), Err(RepipeError::MissingPipelineName));
}

#[test]
fn dashboard_url_joins_url_team_and_pipeline() {
    let mut m = empty();
    m.url = s("https://ci.example.com");
    m.team = s("main");
    assert_eq!(m.dashboard_url("shield"), "https://ci.example.com/teams/main/pipelines/shield");
}

#[test]
fn dashboard_url_leaves_missing_parts_empty() {
    let m = empty();
    assert_eq!(m.dashboard_url("shield"), "/teams//pipelines/shield");
}
