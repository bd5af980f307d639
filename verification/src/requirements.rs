//! The programs that a command needs before it starts.

use vstd::prelude::*;
use crate::error::{outcome, RepipeError, RepipeErrorView, Tool};

verus! {

/// The first program that is missing, in the order merge tool, query tool,
/// orchestrator.
pub open spec fn first_missing(spruce: bool, jq: bool, fly: bool) -> Option<Tool> {
    if !spruce {
        Some(Tool::Spruce)
    } else if !jq {
        Some(Tool::Jq)
    } else if !fly {
        Some(Tool::Fly)
    } else {
        None
    }
}

/// What the check of the requirements says.
pub open spec fn requirements_met(spruce: bool, jq: bool, fly: bool) -> Result<
    (),
    RepipeErrorView,
> {
    match first_missing(spruce, jq, fly) {
        Some(tool) => Err(RepipeErrorView::RequiredToolMissing { tool }),
        None => Ok(()),
    }
}

/// Checks that the three programs are there. Each argument says whether one
/// was found; for the orchestrator given by a path of its own, whether that
/// file can be executed. The error names the first that is missing.
pub fn check_requirements(spruce: bool, jq: bool, fly: bool) -> (r: Result<(), RepipeError>)
    ensures
        outcome(r) == requirements_met(spruce, jq, fly),
        r is Ok <==> spruce && jq && fly,
{
    if !spruce {
        Err(RepipeError::RequiredToolMissing { tool: Tool::Spruce })
    } else if !jq {
        Err(RepipeError::RequiredToolMissing { tool: Tool::Jq })
    } else if !fly {
        Err(RepipeError::RequiredToolMissing { tool: Tool::Fly })
    } else {
        Ok(())
    }
}

} // verus!
