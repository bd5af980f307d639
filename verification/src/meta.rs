//! The metadata block of a merged pipeline, and what is resolved from it.

use vstd::prelude::*;
use crate::error::{outcome, RepipeError, RepipeErrorView};

verus! {

/// The `meta` block of a merged pipeline. Every field may be missing.
#[derive(Clone, Debug, PartialEq, Eq)]
pub struct PipelineMeta {
    /// The orchestrator target to deploy to.
    pub target: Option<String>,
    /// The API URL that the target is expected to have.
    pub url: Option<String>,
    /// The team that the target is expected to have.
    pub team: Option<String>,
    /// The pipeline's name.
    pub pipeline: Option<String>,
    /// Another name, used where `pipeline` is missing.
    pub name: Option<String>,
    /// Whether the pipeline is shown to everyone.
    pub exposed: Option<bool>,
}

/// The mathematical content of a [`PipelineMeta`].
pub ghost struct PipelineMetaView {
    pub target: Option<Seq<char>>,
    pub url: Option<Seq<char>>,
    pub team: Option<Seq<char>>,
    pub pipeline: Option<Seq<char>>,
    pub name: Option<Seq<char>>,
    pub exposed: Option<bool>,
}

impl View for PipelineMeta {
    type V = PipelineMetaView;

    open spec fn view(&self) -> PipelineMetaView {
        PipelineMetaView {
            target: self.target.deep_view(),
            url: self.url.deep_view(),
            team: self.team.deep_view(),
            pipeline: self.pipeline.deep_view(),
            name: self.name.deep_view(),
            exposed: self.exposed,
        }
    }
}

/// A value is supplied where it is there and not empty.
pub open spec fn supplied(value: Option<Seq<char>>) -> bool {
    value matches Some(v) && v.len() > 0
}

/// The first of the two values that is supplied.
pub open spec fn first_supplied(first: Option<Seq<char>>, second: Option<Seq<char>>) -> Option<
    Seq<char>,
> {
    if supplied(first) {
        first
    } else if supplied(second) {
        second
    } else {
        None
    }
}

/// The value, or the empty text where there is none.
pub open spec fn or_empty(value: Option<Seq<char>>) -> Seq<char> {
    match value {
        Some(v) => v,
        None => Seq::empty(),
    }
}

impl PipelineMetaView {
    /// The target: the metadata's, else the environment's.
    pub open spec fn resolve_target(self, environment: Option<Seq<char>>) -> Result<
        Seq<char>,
        RepipeErrorView,
    > {
        match first_supplied(self.target, environment) {
            Some(t) => Ok(t),
            None => Err(RepipeErrorView::MissingTarget),
        }
    }

    /// The pipeline's name: the metadata's `pipeline`, else its `name`.
    pub open spec fn resolve_pipeline(self) -> Result<Seq<char>, RepipeErrorView> {
        match first_supplied(self.pipeline, self.name) {
            Some(p) => Ok(p),
            None => Err(RepipeErrorView::MissingPipelineName),
        }
    }

    /// The address of the pipeline's page.
    pub open spec fn dashboard_url(self, pipeline: Seq<char>) -> Seq<char> {
        or_empty(self.url) + "/teams/"@ + or_empty(self.team) + "/pipelines/"@ + pipeline
    }
}

/// A copy of the first of the two values that is supplied.
fn pick(first: &Option<String>, second: &Option<String>) -> (r: Option<String>)
    ensures
        r.deep_view() == first_supplied(first.deep_view(), second.deep_view()),
{
    if let Some(a) = first {
        if !a.as_str().is_empty() {
            return Some(a.clone());
        }
    }
    if let Some(b) = second {
        if !b.as_str().is_empty() {
            return Some(b.clone());
        }
    }
    None
}

impl PipelineMeta {
    /// The target to deploy to: the metadata's, else the environment's.
    /// Fails with `MissingTarget` exactly when neither supplies one; a
    /// target that is returned is one of the two, never made up.
    pub fn resolve_target(&self, environment: &Option<String>) -> (r: Result<String, RepipeError>)
        ensures
            outcome(r) == self@.resolve_target(environment.deep_view()),
            r is Err <==> !supplied(self@.target) && !supplied(environment.deep_view()),
            r matches Ok(t) ==> t@.len() > 0 && (Some(t@) == self@.target || Some(t@)
                == environment.deep_view()),
    {
        match pick(&self.target, environment) {
            Some(t) => Ok(t),
            None => Err(RepipeError::MissingTarget),
        }
    }

    /// The pipeline's name: the metadata's `pipeline`, else its `name`.
    /// Fails with `MissingPipelineName` exactly when neither is supplied.
    pub fn resolve_pipeline(&self) -> (r: Result<String, RepipeError>)
        ensures
            outcome(r) == self@.resolve_pipeline(),
            r is Err <==> !supplied(self@.pipeline) && !supplied(self@.name),
            r matches Ok(p) ==> p@.len() > 0 && (Some(p@) == self@.pipeline || Some(p@)
                == self@.name),
    {
        match pick(&self.pipeline, &self.name) {
            Some(p) => Ok(p),
            None => Err(RepipeError::MissingPipelineName),
        }
    }

    /// The address of the page of the pipeline named `pipeline`.
    pub fn dashboard_url(&self, pipeline: &str) -> (r: String)
        ensures
            r@ == self@.dashboard_url(pipeline@),
    {
        let mut out = String::new();
        if let Some(url) = &self.url {
            out.append(url.as_str());
        }
        out.append("/teams/");
        if let Some(team) = &self.team {
            out.append(team.as_str());
        }
        out.append("/pipelines/");
        out.append(pipeline);
        assert(out@ =~= self@.dashboard_url(pipeline@));
        out
    }
}

} // verus!
