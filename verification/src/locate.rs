//! Finding the kit's CI directory among the places where it may be.

use vstd::prelude::*;
use crate::error::{outcome, RepipeError, RepipeErrorView};

verus! {

/// A place that was looked at, and whether something is there.
#[derive(Clone, Debug, PartialEq, Eq)]
pub struct Candidate {
    pub path: String,
    pub exists: bool,
}

/// The mathematical content of a [`Candidate`].
pub ghost struct CandidateView {
    pub path: Seq<char>,
    pub exists: bool,
}

impl View for Candidate {
    type V = CandidateView;

    open spec fn view(&self) -> CandidateView {
        CandidateView { path: self.path@, exists: self.exists }
    }
}

/// The views of a list of candidates.
pub open spec fn candidate_views(candidates: Seq<Candidate>) -> Seq<CandidateView> {
    candidates.map_values(|c: Candidate| c@)
}

/// The paths of a list of candidates, in their order.
pub open spec fn paths_of(candidates: Seq<CandidateView>) -> Seq<Seq<char>> {
    candidates.map_values(|c: CandidateView| c.path)
}

/// `i` is the first candidate that exists.
pub open spec fn is_first_existing(candidates: Seq<CandidateView>, i: int) -> bool {
    &&& 0 <= i < candidates.len()
    &&& candidates[i].exists
    &&& forall|j: int| 0 <= j < i ==> !(#[trigger] candidates[j]).exists
}

/// No candidate exists.
pub open spec fn none_exists(candidates: Seq<CandidateView>) -> bool {
    forall|j: int| 0 <= j < candidates.len() ==> !(#[trigger] candidates[j]).exists
}

/// The directory that the rule picks among the working directory `current`,
/// whose own name is `name`, its child `ci` and its parent's child `ci`.
pub open spec fn located(
    current: Seq<char>,
    name: Option<Seq<char>>,
    child: CandidateView,
    parent: Option<CandidateView>,
) -> Result<Seq<char>, RepipeErrorView> {
    if name == Some("ci"@) {
        Ok(current)
    } else if child.exists {
        Ok(child.path)
    } else if parent is Some && parent.unwrap().exists {
        Ok(parent.unwrap().path)
    } else {
        Err(
            RepipeErrorView::DirectoryNotFound {
                checked: match parent {
                    Some(p) => seq![current, child.path, p.path],
                    None => seq![current, child.path],
                },
            },
        )
    }
}

/// The index of the first candidate that exists, if any does.
pub fn first_existing(candidates: &Vec<Candidate>) -> (r: Option<usize>)
    ensures
        r matches Some(i) ==> is_first_existing(candidate_views(candidates@), i as int),
        r is None ==> none_exists(candidate_views(candidates@)),
{
    let mut i: usize = 0;
    while i < candidates.len()
        invariant
            i <= candidates.len(),
            forall|j: int| 0 <= j < i ==> !(#[trigger] candidate_views(candidates@)[j]).exists,
        decreases candidates.len() - i,
    {
        if candidates[i].exists {
            return Some(i);
        }
        i = i + 1;
    }
    None
}

/// The paths of the candidates, in their order.
pub fn candidate_paths(candidates: &Vec<Candidate>) -> (r: Vec<String>)
    ensures
        r.deep_view() == paths_of(candidate_views(candidates@)),
{
    let mut out: Vec<String> = Vec::new();
    let mut i: usize = 0;
    while i < candidates.len()
        invariant
            i <= candidates.len(),
            out.len() == i,
            forall|j: int| 0 <= j < i ==> out[j]@ == candidates[j].path@,
        decreases candidates.len() - i,
    {
        out.push(candidates[i].path.clone());
        i = i + 1;
    }
    assert(out.deep_view() =~= paths_of(candidate_views(candidates@)));
    out
}

/// The first of the candidates that exists. Where none does, the error
/// lists every place that was looked at.
pub fn first_existing_path(candidates: &Vec<Candidate>) -> (r: Result<String, RepipeError>)
    ensures
        r matches Ok(path) ==> exists|i: int|
            is_first_existing(candidate_views(candidates@), i) && path@ == candidates[i].path@,
        r matches Err(e) ==> none_exists(candidate_views(candidates@)) && e@
            == (RepipeErrorView::DirectoryNotFound {
            checked: paths_of(candidate_views(candidates@)),
        }),
{
    match first_existing(candidates) {
        Some(i) => {
            assert(is_first_existing(candidate_views(candidates@), i as int));
            Ok(candidates[i].path.clone())
        },
        None => Err(RepipeError::DirectoryNotFound { checked: candidate_paths(candidates) }),
    }
}

/// The kit's CI directory. The working directory `current` is taken where
/// its own name `name` is `ci`; else its child `ci` where that exists; else
/// its parent's child `ci` where that exists. A working directory without a
/// parent has no third candidate.
pub fn find_ci_directory(
    current: &str,
    name: &Option<String>,
    child: &Candidate,
    parent: &Option<Candidate>,
) -> (r: Result<String, RepipeError>)
    ensures
        outcome(r) == located(
            current@,
            name.deep_view(),
            child@,
            match parent {
                Some(p) => Some(p@),
                None => None,
            },
        ),
{
    if let Some(n) = name {
        if n.as_str().eq("ci") {
            return Ok(current.to_owned());
        }
    }
    if child.exists {
        return Ok(child.path.clone());
    }
    let mut checked: Vec<String> = Vec::new();
    checked.push(current.to_owned());
    checked.push(child.path.clone());
    if let Some(p) = parent {
        if p.exists {
            return Ok(p.path.clone());
        }
        checked.push(p.path.clone());
        assert(checked.deep_view() =~= seq![current@, child.path@, p.path@]);
    } else {
        assert(checked.deep_view() =~= seq![current@, child.path@]);
    }
    Err(RepipeError::DirectoryNotFound { checked })
}

} // verus!
