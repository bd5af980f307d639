//! Holding the resolved target against the local credentials file.

use vstd::prelude::*;
use crate::error::{outcome, RepipeError, RepipeErrorView};
use crate::locate::{Candidate, CandidateView};
use crate::meta::or_empty;
use crate::yaml::{parse_yaml, yaml_as_str, yaml_document, yaml_entry, yaml_get, yaml_string};

verus! {

/// What the credentials file stores for a target.
#[derive(Clone, Debug, PartialEq, Eq)]
pub struct TargetEntry {
    /// The target's API URL; empty where the entry has none.
    pub api: String,
    /// The target's team; empty where the entry has none.
    pub team: String,
}

/// The mathematical content of a [`TargetEntry`].
pub ghost struct TargetEntryView {
    pub api: Seq<char>,
    pub team: Seq<char>,
}

impl View for TargetEntry {
    type V = TargetEntryView;

    open spec fn view(&self) -> TargetEntryView {
        TargetEntryView { api: self.api@, team: self.team@ }
    }
}

/// What looking a target up in a credentials file gives.
#[derive(Clone, Debug, PartialEq, Eq)]
pub enum Lookup {
    /// The file is not well-formed.
    Unreadable,
    /// The file has no targets, or none of that name.
    Unknown,
    /// The file has this entry for the target.
    Found(TargetEntry),
}

/// The mathematical content of a [`Lookup`].
pub ghost enum LookupView {
    Unreadable,
    Unknown,
    Found(TargetEntryView),
}

impl View for Lookup {
    type V = LookupView;

    open spec fn view(&self) -> LookupView {
        match self {
            Lookup::Unreadable => LookupView::Unreadable,
            Lookup::Unknown => LookupView::Unknown,
            Lookup::Found(entry) => LookupView::Found(entry@),
        }
    }
}

/// The text stored in `value` under `key`; empty where there is no such
/// entry or it is no string.
pub open spec fn text_under(value: serde_yaml::Value, key: Seq<char>) -> Seq<char> {
    match yaml_entry(value, key) {
        Some(entry) => or_empty(yaml_string(entry)),
        None => Seq::empty(),
    }
}

/// What the credentials file `credentials` stores for `target`: the entry
/// under the target's name, under the key `targets`.
pub open spec fn stored_target(credentials: Seq<char>, target: Seq<char>) -> LookupView {
    match yaml_document(credentials) {
        None => LookupView::Unreadable,
        Some(document) => match yaml_entry(document, "targets"@) {
            None => LookupView::Unknown,
            Some(targets) => match yaml_entry(targets, target) {
                None => LookupView::Unknown,
                Some(entry) => LookupView::Found(
                    TargetEntryView {
                        api: text_under(entry, "api"@),
                        team: text_under(entry, "team"@),
                    },
                ),
            },
        },
    }
}

/// Whether the target stands up to the credentials: it must be known, and
/// where the metadata declares a URL or a team, the stored one must be the
/// same. The URL is checked before the team.
pub open spec fn target_checked(
    target: Seq<char>,
    url: Option<Seq<char>>,
    team: Option<Seq<char>>,
    lookup: LookupView,
) -> Result<(), RepipeErrorView> {
    match lookup {
        LookupView::Unreadable => Err(RepipeErrorView::InvalidCredentials),
        LookupView::Unknown => Err(RepipeErrorView::UnknownTarget { target }),
        LookupView::Found(entry) => {
            if url is Some && url.unwrap() != entry.api {
                Err(RepipeErrorView::TargetURLMismatch)
            } else if team is Some && team.unwrap() != entry.team {
                Err(RepipeErrorView::TargetTeamMismatch)
            } else {
                Ok(())
            }
        },
    }
}

/// The credentials file that is read: the first that exists among the one
/// in the user's home, the one that the environment names, and the one in
/// the working directory.
pub open spec fn chosen_credentials(
    home: Option<CandidateView>,
    named: Option<CandidateView>,
    local: CandidateView,
) -> Result<Seq<char>, RepipeErrorView> {
    if home is Some && home.unwrap().exists {
        Ok(home.unwrap().path)
    } else if named is Some && named.unwrap().exists {
        Ok(named.unwrap().path)
    } else if local.exists {
        Ok(local.path)
    } else {
        Err(RepipeErrorView::CredentialsNotFound)
    }
}

/// The view of an optional candidate.
pub open spec fn optional_candidate(candidate: Option<Candidate>) -> Option<CandidateView> {
    match candidate {
        Some(c) => Some(c@),
        None => None,
    }
}

/// The credentials file to read: the first that exists among the one in the
/// user's home, the one that the environment names, and the one in the
/// working directory. Fails with `CredentialsNotFound` exactly when none
/// exists.
pub fn select_credentials(home: &Option<Candidate>, named: &Option<Candidate>, local: &Candidate) -> (r:
    Result<String, RepipeError>)
    ensures
        outcome(r) == chosen_credentials(
            optional_candidate(*home),
            optional_candidate(*named),
            local@,
        ),
{
    if let Some(h) = home {
        if h.exists {
            return Ok(h.path.clone());
        }
    }
    if let Some(n) = named {
        if n.exists {
            return Ok(n.path.clone());
        }
    }
    if local.exists {
        Ok(local.path.clone())
    } else {
        Err(RepipeError::CredentialsNotFound)
    }
}

/// The text stored in `value` under `key`, or the empty text.
fn read_text(value: &serde_yaml::Value, key: &str) -> (r: String)
    ensures
        r@ == text_under(*value, key@),
{
    match yaml_get(value, key) {
        Some(entry) => match yaml_as_str(entry) {
            Some(text) => text.to_owned(),
            None => String::new(),
        },
        None => String::new(),
    }
}

/// Looks `target` up in the text of a credentials file.
pub fn lookup_target(credentials: &str, target: &str) -> (r: Lookup)
    ensures
        r@ == stored_target(credentials@, target@),
{
    let document = match parse_yaml(credentials) {
        Ok(document) => document,
        Err(_) => {
            return Lookup::Unreadable;
        },
    };
    let targets = match yaml_get(&document, "targets") {
        Some(targets) => targets,
        None => {
            return Lookup::Unknown;
        },
    };
    match yaml_get(targets, target) {
        Some(entry) => Lookup::Found(
            TargetEntry { api: read_text(entry, "api"), team: read_text(entry, "team") },
        ),
        None => Lookup::Unknown,
    }
}

/// Holds the target against what was found for it: `InvalidCredentials`
/// for an unreadable file, `UnknownTarget` for a missing entry,
/// `TargetURLMismatch` where a declared URL is not the stored one, and
/// `TargetTeamMismatch` where a declared team is not the stored one. A URL
/// or a team that the metadata does not declare is not checked.
pub fn check_target(target: &str, url: &Option<String>, team: &Option<String>, lookup: &Lookup) -> (r:
    Result<(), RepipeError>)
    ensures
        outcome(r) == target_checked(target@, url.deep_view(), team.deep_view(), lookup@),
{
    match lookup {
        Lookup::Unreadable => Err(RepipeError::InvalidCredentials),
        Lookup::Unknown => Err(RepipeError::UnknownTarget { target: target.to_owned() }),
        Lookup::Found(entry) => {
            if let Some(u) = url {
                if !u.as_str().eq(entry.api.as_str()) {
                    return Err(RepipeError::TargetURLMismatch);
                }
            }
            if let Some(t) = team {
                if !t.as_str().eq(entry.team.as_str()) {
                    return Err(RepipeError::TargetTeamMismatch);
                }
            }
            Ok(())
        },
    }
}

/// Holds the target against the text of the credentials file.
pub fn validate_target(credentials: &str, target: &str, url: &Option<String>, team: &Option<String>) -> (r:
    Result<(), RepipeError>)
    ensures
        outcome(r) == target_checked(
            target@,
            url.deep_view(),
            team.deep_view(),
            stored_target(credentials@, target@),
        ),
{
    let lookup = lookup_target(credentials, target);
    check_target(target, url, team, &lookup)
}

} // verus!
