//! Reading the state of a kit's pipeline out of what the orchestrator
//! prints.

use vstd::prelude::*;
use crate::json::{json_as_array, json_as_str, json_document, json_elements, json_get, json_member,
    json_string, parse_json};
use crate::meta::{PipelineMeta, PipelineMetaView};
use crate::text::{first_line, first_line_of, nth_word, word};

verus! {

/// One row of the status table.
#[derive(Clone, Debug, PartialEq, Eq)]
pub struct KitStatus {
    pub name: String,
    pub version: String,
    pub template_version: String,
    pub ci_status: String,
}

/// The mathematical content of a [`KitStatus`].
pub ghost struct KitStatusView {
    pub name: Seq<char>,
    pub version: Seq<char>,
    pub template_version: Seq<char>,
    pub ci_status: Seq<char>,
}

impl View for KitStatus {
    type V = KitStatusView;

    open spec fn view(&self) -> KitStatusView {
        KitStatusView {
            name: self.name@,
            version: self.version@,
            template_version: self.template_version@,
            ci_status: self.ci_status@,
        }
    }
}

/// How the latest build of a kit's test job stands.
#[derive(Clone, Copy, Debug, PartialEq, Eq, Structural)]
pub enum BuildState {
    Passing,
    Failed,
    Running,
    /// The orchestrator said something else, or nothing.
    Unknown,
    /// The orchestrator could not be asked.
    Error,
}

impl BuildState {
    /// The state as the table shows it.
    pub open spec fn spec_label(self) -> Seq<char> {
        match self {
            BuildState::Passing => "Passing"@,
            BuildState::Failed => "Failed"@,
            BuildState::Running => "Running"@,
            BuildState::Unknown => "Unknown"@,
            BuildState::Error => "Error"@,
        }
    }

    /// The state as the table shows it.
    pub fn label(self) -> (r: &'static str)
        ensures
            r@ == self.spec_label(),
    {
        match self {
            BuildState::Passing => "Passing",
            BuildState::Failed => "Failed",
            BuildState::Running => "Running",
            BuildState::Unknown => "Unknown",
            BuildState::Error => "Error",
        }
    }
}

/// The state that a word of the orchestrator's list of builds stands for.
pub open spec fn state_of_word(word: Option<Seq<char>>) -> BuildState {
    if word == Some("succeeded"@) {
        BuildState::Passing
    } else if word == Some("failed"@) {
        BuildState::Failed
    } else if word == Some("started"@) {
        BuildState::Running
    } else {
        BuildState::Unknown
    }
}

/// The state of the latest build: the third word of the first line of the
/// list of builds says it. Where the orchestrator failed, the state is
/// `Error`.
pub open spec fn latest_state(success: bool, output: Seq<char>) -> BuildState {
    if success {
        state_of_word(nth_word(first_line(output), 0, 2))
    } else {
        BuildState::Error
    }
}

/// The name of the pipeline whose builds are listed for `kit`: the
/// metadata's `pipeline`, else its `name`, else `genesis-kit-` and the
/// kit's name.
pub open spec fn listed_pipeline(meta: PipelineMetaView, kit: Seq<char>) -> Seq<char> {
    match meta.pipeline {
        Some(p) => p,
        None => match meta.name {
            Some(n) => n,
            None => "genesis-kit-"@ + kit,
        },
    }
}

/// The job that tests a kit, in the pipeline `pipeline`.
pub open spec fn test_job(pipeline: Seq<char>) -> Seq<char> {
    pipeline + "/test-kit"@
}

/// The text under `key` in a configuration; `unknown` where the
/// configuration is missing, has no such member, or has one that is no
/// string.
pub open spec fn configured(configuration: Option<serde_json::Value>, key: Seq<char>) -> Seq<
    char,
> {
    match configuration {
        Some(value) => match json_member(value, key) {
            Some(member) => match json_string(member) {
                Some(text) => text,
                None => "unknown"@,
            },
            None => "unknown"@,
        },
        None => "unknown"@,
    }
}

/// The number of the first build in a list of builds, where the list is
/// an array, is not empty, and its first build has a number that is a
/// string.
pub open spec fn first_build_number(builds: serde_json::Value) -> Option<Seq<char>> {
    match json_elements(builds) {
        Some(elements) => if elements.len() > 0 {
            match json_member(elements[0], "number"@) {
                Some(number) => json_string(number),
                None => None,
            }
        } else {
            None
        },
        None => None,
    }
}

/// The state that a word of the orchestrator's list of builds stands for.
pub fn classify_build(word: &Option<String>) -> (r: BuildState)
    ensures
        r == state_of_word(word.deep_view()),
{
    match word {
        Some(w) => {
            if w.as_str().eq("succeeded") {
                BuildState::Passing
            } else if w.as_str().eq("failed") {
                BuildState::Failed
            } else if w.as_str().eq("started") {
                BuildState::Running
            } else {
                BuildState::Unknown
            }
        },
        None => BuildState::Unknown,
    }
}

/// The state of the latest build of a job, from whether the orchestrator
/// could list the builds and from the list that it printed.
pub fn build_state(success: bool, output: &str) -> (r: BuildState)
    ensures
        r == latest_state(success, output@),
{
    if !success {
        return BuildState::Error;
    }
    let line = first_line_of(output);
    let third = word(&line, 2);
    classify_build(&third)
}

/// The name of the pipeline whose builds are listed for `kit`.
pub fn pipeline_name(meta: &PipelineMeta, kit: &str) -> (r: String)
    ensures
        r@ == listed_pipeline(meta@, kit@),
{
    if let Some(p) = &meta.pipeline {
        return p.clone();
    }
    if let Some(n) = &meta.name {
        return n.clone();
    }
    let mut out = "genesis-kit-".to_owned();
    out.append(kit);
    out
}

/// The job that tests a kit, in the pipeline `pipeline`.
pub fn test_job_name(pipeline: &str) -> (r: String)
    ensures
        r@ == test_job(pipeline@),
{
    let mut out = pipeline.to_owned();
    out.append("/test-kit");
    out
}

/// The text under `key` in a configuration, or `unknown`.
fn configured_text(configuration: &Option<serde_json::Value>, key: &str) -> (r: String)
    ensures
        r@ == configured(*configuration, key@),
{
    if let Some(value) = configuration {
        if let Some(member) = json_get(value, key) {
            if let Some(text) = json_as_str(member) {
                return text.to_owned();
            }
        }
    }
    "unknown".to_owned()
}

/// The row of the status table for a kit, from the state of its latest
/// build and from its pipeline's configuration, where there is one.
pub fn status_row(kit: &str, state: BuildState, configuration: &Option<serde_json::Value>) -> (r:
    KitStatus)
    ensures
        r@ == (KitStatusView {
            name: kit@,
            version: configured(*configuration, "version"@),
            template_version: configured(*configuration, "template_version"@),
            ci_status: state.spec_label(),
        }),
{
    KitStatus {
        name: kit.to_owned(),
        version: configured_text(configuration, "version"),
        template_version: configured_text(configuration, "template_version"),
        ci_status: state.label().to_owned(),
    }
}

/// The row of the status table for a kit. `configuration` is what the
/// orchestrator printed as the pipeline's configuration, where it could
/// print one. Where that is no JSON, there is no row.
pub fn kit_status(kit: &str, state: BuildState, configuration: &Option<Vec<u8>>) -> (r: Option<
    KitStatus,
>)
    ensures
        r is None <==> configuration is Some && json_document(configuration.unwrap()@) is None,
        r matches Some(row) ==> row@ == (KitStatusView {
            name: kit@,
            version: configured(
                match configuration {
                    Some(bytes) => json_document(bytes@),
                    None => None,
                },
                "version"@,
            ),
            template_version: configured(
                match configuration {
                    Some(bytes) => json_document(bytes@),
                    None => None,
                },
                "template_version"@,
            ),
            ci_status: state.spec_label(),
        }),
{
    match configuration {
        Some(bytes) => match parse_json(bytes.as_slice()) {
            Ok(value) => Some(status_row(kit, state, &Some(value))),
            Err(_) => None,
        },
        None => Some(status_row(kit, state, &None)),
    }
}

/// The number of the first build in a parsed list of builds.
pub fn first_number(builds: &serde_json::Value) -> (r: Option<String>)
    ensures
        r.deep_view() == first_build_number(*builds),
{
    if let Some(elements) = json_as_array(builds) {
        if elements.len() > 0 {
            if let Some(number) = json_get(&elements[0], "number") {
                if let Some(text) = json_as_str(number) {
                    return Some(text.to_owned());
                }
            }
        }
    }
    None
}

/// The number of the latest build, from the list of builds that the
/// orchestrator printed. Fails where that is no JSON; gives no number where
/// the list is empty or its first build has none.
pub fn latest_build_number(builds: &Vec<u8>) -> (r: Result<Option<String>, ()>)
    ensures
        r is Err <==> json_document(builds@) is None,
        r matches Ok(number) ==> number.deep_view() == first_build_number(
            json_document(builds@).unwrap(),
        ),
{
    match parse_json(builds.as_slice()) {
        Ok(value) => Ok(first_number(&value)),
        Err(_) => Err(()),
    }
}

} // verus!
