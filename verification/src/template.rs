//! Changing a kit's template version.

use vstd::prelude::*;

verus! {

/// A parsed semantic version. Its inside is hidden from the verifier.
#[verifier::external_type_specification]
#[verifier::external_body]
pub struct ExVersion(semver::Version);

/// Why a text is no semantic version.
#[verifier::external_type_specification]
#[verifier::external_body]
pub struct ExVersionError(semver::Error);

/// Whether `semver::Version::parse` accepts `text`.
pub uninterp spec fn semantic_version(text: Seq<char>) -> bool;

/// `semver::Version::parse`. Whether it accepts a text is a function of the
/// text alone: it is `semantic_version` of it.
#[verifier::external_body]
fn parse_version(text: &str) -> (r: Result<semver::Version, semver::Error>)
    ensures
        r is Ok <==> semantic_version(text@),
{
    semver::Version::parse(text)
}

/// What the user is told about a text that is no version.
pub open spec fn version_advice() -> Seq<char> {
    "Please enter a valid semantic version (e.g., 2.1.0)"@
}

/// What the progress bar says from the given step on, where that step
/// changes it.
pub open spec fn progress_note(step: u64) -> Option<Seq<char>> {
    if step == 30 {
        Some("Validating template compatibility..."@)
    } else if step == 60 {
        Some("Updating dependencies..."@)
    } else if step == 90 {
        Some("Regenerating configurations..."@)
    } else {
        None
    }
}

/// What is said of an input, given whether it is a version: nothing where
/// it is one, the advice where it is none.
pub fn judge_version(accepted: bool) -> (r: Result<(), &'static str>)
    ensures
        r is Ok <==> accepted,
        r matches Err(advice) ==> advice@ == version_advice(),
{
    if accepted {
        Ok(())
    } else {
        Err("Please enter a valid semantic version (e.g., 2.1.0)")
    }
}

/// Checks what the user entered as the new template version: it must be a
/// semantic version.
pub fn check_version(input: &str) -> (r: Result<(), &'static str>)
    ensures
        r is Ok <==> semantic_version(input@),
        r matches Err(advice) ==> advice@ == version_advice(),
{
    judge_version(parse_version(input).is_ok())
}

/// What the progress bar says from the given step on, where that step
/// changes it.
pub fn progress_message(step: u64) -> (r: Option<&'static str>)
    ensures
        (match r {
            Some(text) => Some(text@),
            None => None,
        }) == progress_note(step),
{
    if step == 30 {
        Some("Validating template compatibility...")
    } else if step == 60 {
        Some("Updating dependencies...")
    } else if step == 90 {
        Some("Regenerating configurations...")
    } else {
        None
    }
}

} // verus!
