//! The generator scripts that may run before the merge.

use vstd::prelude::*;

verus! {

/// A generator script. The one for test jobs runs before the one for
/// upstream jobs.
#[derive(Clone, Copy, Debug, PartialEq, Eq, Structural)]
pub enum Script {
    TestJobs,
    UpstreamJobs,
}

/// What is done with a script.
#[derive(Clone, Copy, Debug, PartialEq, Eq, Structural)]
pub enum ScriptDecision {
    /// It is run to completion.
    Run,
    /// It is not there: nothing is done.
    SkipMissing,
    /// It is there and cannot be executed: it is skipped with a warning.
    SkipNotExecutable,
}

/// Something that the user is told and that does not stop the command.
#[derive(Clone, Copy, Debug, PartialEq, Eq, Structural)]
pub enum Warning {
    /// The script is there and cannot be executed.
    NotExecutable(Script),
    /// The script could not be started, or ended with a failure.
    Failed(Script),
}

impl Script {
    /// The script's path below the CI directory.
    pub open spec fn spec_path(self) -> Seq<char> {
        match self {
            Script::TestJobs => "scripts/build-test-jobs"@,
            Script::UpstreamJobs => "scripts/build-upstream-jobs"@,
        }
    }

    /// The directory below the CI directory that the script fills.
    pub open spec fn spec_scratch(self) -> Seq<char> {
        match self {
            Script::TestJobs => "pipeline/tests"@,
            Script::UpstreamJobs => "pipeline/upstream"@,
        }
    }

    /// The script that runs after this one.
    pub open spec fn spec_next(self) -> Option<Script> {
        match self {
            Script::TestJobs => Some(Script::UpstreamJobs),
            Script::UpstreamJobs => None,
        }
    }

    /// The script's path below the CI directory.
    pub fn path(self) -> (r: &'static str)
        ensures
            r@ == self.spec_path(),
    {
        match self {
            Script::TestJobs => "scripts/build-test-jobs",
            Script::UpstreamJobs => "scripts/build-upstream-jobs",
        }
    }

    /// The directory below the CI directory that the script fills.
    pub fn scratch(self) -> (r: &'static str)
        ensures
            r@ == self.spec_scratch(),
    {
        match self {
            Script::TestJobs => "pipeline/tests",
            Script::UpstreamJobs => "pipeline/upstream",
        }
    }

    /// The script that runs after this one.
    pub fn next(self) -> (r: Option<Script>)
        ensures
            r == self.spec_next(),
    {
        match self {
            Script::TestJobs => Some(Script::UpstreamJobs),
            Script::UpstreamJobs => None,
        }
    }
}

/// Whether a file with the permission bits `mode` can be executed by its
/// owner, by its group or by others.
pub open spec fn executable_bits(mode: u32) -> bool {
    mode & 0o111 != 0
}

/// Whether a file with the permission bits `mode` can be executed by its
/// owner, by its group or by others.
pub fn is_executable_mode(mode: u32) -> (r: bool)
    ensures
        r == executable_bits(mode),
{
    mode & 0o111 != 0
}

/// What is done with a script, given whether it exists and can be executed.
pub open spec fn decision(exists: bool, executable: bool) -> ScriptDecision {
    if !exists {
        ScriptDecision::SkipMissing
    } else if executable {
        ScriptDecision::Run
    } else {
        ScriptDecision::SkipNotExecutable
    }
}

/// What is done with a script, given whether it exists and can be executed.
pub fn decide(exists: bool, executable: bool) -> (r: ScriptDecision)
    ensures
        r == decision(exists, executable),
        r == ScriptDecision::Run <==> exists && executable,
{
    if !exists {
        ScriptDecision::SkipMissing
    } else if executable {
        ScriptDecision::Run
    } else {
        ScriptDecision::SkipNotExecutable
    }
}

impl Warning {
    /// The warning as the user reads it.
    pub open spec fn spec_message(self) -> Seq<char> {
        match self {
            Warning::NotExecutable(script) => "Skipping "@ + script.spec_path()
                + ": not executable"@,
            Warning::Failed(script) => "Ignoring failure of "@ + script.spec_path(),
        }
    }

    /// The warning as the user reads it.
    pub fn message(self) -> (r: String)
        ensures
            r@ == self.spec_message(),
    {
        match self {
            Warning::NotExecutable(script) => {
                let mut out = "Skipping ".to_owned();
                out.append(script.path());
                out.append(": not executable");
                out
            },
            Warning::Failed(script) => {
                let mut out = "Ignoring failure of ".to_owned();
                out.append(script.path());
                out
            },
        }
    }
}

} // verus!
