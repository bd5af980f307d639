//! What can go wrong while a pipeline is deployed.

use vstd::prelude::*;

verus! {

/// An external program that the command needs.
#[derive(Clone, Copy, Debug, PartialEq, Eq, Structural)]
pub enum Tool {
    /// The document-merging tool.
    Spruce,
    /// The JSON query tool.
    Jq,
    /// The remote orchestrator's command line.
    Fly,
}

/// A call to the remote orchestrator.
#[derive(Clone, Copy, Debug, PartialEq, Eq, Structural)]
pub enum RemoteCall {
    Validate,
    SetPipeline,
    Pause,
    Unpause,
    Expose,
    Hide,
}

/// Why a command failed.
#[derive(Clone, Debug, PartialEq, Eq)]
pub enum RepipeError {
    /// No CI directory at any of the places in `checked`.
    DirectoryNotFound { checked: Vec<String> },
    /// Neither the target's settings file nor the default one exists.
    SettingsNotFound,
    /// `pipeline/base.yml` does not exist.
    MissingBaseConfig,
    /// The merge tool exited with a failure; `diagnostics` is what it said.
    MergeFailed { diagnostics: String },
    /// What the merge tool printed is not well-formed.
    InvalidMergedDocument,
    /// The metadata block could not be read out of the merged document.
    InvalidMetadata,
    /// Neither the metadata nor the environment names a target.
    MissingTarget,
    /// The metadata gives neither a pipeline nor a name.
    MissingPipelineName,
    /// No credentials file at any of the places looked at.
    CredentialsNotFound,
    /// The credentials file is not well-formed.
    InvalidCredentials,
    /// The credentials file has no entry for `target`.
    UnknownTarget { target: String },
    /// The metadata's URL is not the one stored for the target.
    TargetURLMismatch,
    /// The metadata's team is not the one stored for the target.
    TargetTeamMismatch,
    /// The deploy artifact could not be written.
    ArtifactWriteFailed,
    /// A call to the remote orchestrator exited with `status`.
    RemoteCallFailed { call: RemoteCall, status: Option<i32> },
    /// A program that the command needs is not installed.
    RequiredToolMissing { tool: Tool },
    /// The driver answered a request with an event of another kind.
    UnexpectedEvent,
}

/// The mathematical content of a [`RepipeError`].
pub ghost enum RepipeErrorView {
    DirectoryNotFound { checked: Seq<Seq<char>> },
    SettingsNotFound,
    MissingBaseConfig,
    MergeFailed { diagnostics: Seq<char> },
    InvalidMergedDocument,
    InvalidMetadata,
    MissingTarget,
    MissingPipelineName,
    CredentialsNotFound,
    InvalidCredentials,
    UnknownTarget { target: Seq<char> },
    TargetURLMismatch,
    TargetTeamMismatch,
    ArtifactWriteFailed,
    RemoteCallFailed { call: RemoteCall, status: Option<i32> },
    RequiredToolMissing { tool: Tool },
    UnexpectedEvent,
}

impl View for RepipeError {
    type V = RepipeErrorView;

    open spec fn view(&self) -> RepipeErrorView {
        match self {
            RepipeError::DirectoryNotFound { checked } => RepipeErrorView::DirectoryNotFound {
                checked: checked.deep_view(),
            },
            RepipeError::SettingsNotFound => RepipeErrorView::SettingsNotFound,
            RepipeError::MissingBaseConfig => RepipeErrorView::MissingBaseConfig,
            RepipeError::MergeFailed { diagnostics } => RepipeErrorView::MergeFailed {
                diagnostics: diagnostics@,
            },
            RepipeError::InvalidMergedDocument => RepipeErrorView::InvalidMergedDocument,
            RepipeError::InvalidMetadata => RepipeErrorView::InvalidMetadata,
            RepipeError::MissingTarget => RepipeErrorView::MissingTarget,
            RepipeError::MissingPipelineName => RepipeErrorView::MissingPipelineName,
            RepipeError::CredentialsNotFound => RepipeErrorView::CredentialsNotFound,
            RepipeError::InvalidCredentials => RepipeErrorView::InvalidCredentials,
            RepipeError::UnknownTarget { target } => RepipeErrorView::UnknownTarget {
                target: target@,
            },
            RepipeError::TargetURLMismatch => RepipeErrorView::TargetURLMismatch,
            RepipeError::TargetTeamMismatch => RepipeErrorView::TargetTeamMismatch,
            RepipeError::ArtifactWriteFailed => RepipeErrorView::ArtifactWriteFailed,
            RepipeError::RemoteCallFailed { call, status } => RepipeErrorView::RemoteCallFailed {
                call: *call,
                status: *status,
            },
            RepipeError::RequiredToolMissing { tool } => RepipeErrorView::RequiredToolMissing {
                tool: *tool,
            },
            RepipeError::UnexpectedEvent => RepipeErrorView::UnexpectedEvent,
        }
    }
}

/// The mathematical content of a result that may fail with a
/// [`RepipeError`].
pub open spec fn outcome<T: View>(r: Result<T, RepipeError>) -> Result<T::V, RepipeErrorView> {
    match r {
        Ok(value) => Ok(value@),
        Err(error) => Err(error@),
    }
}

impl Tool {
    /// The name under which the program is looked up.
    pub open spec fn spec_program(self) -> Seq<char> {
        match self {
            Tool::Spruce => "spruce"@,
            Tool::Jq => "jq"@,
            Tool::Fly => "fly"@,
        }
    }

    /// The name under which the program is looked up.
    pub fn program(self) -> (r: &'static str)
        ensures
            r@ == self.spec_program(),
    {
        match self {
            Tool::Spruce => "spruce",
            Tool::Jq => "jq",
            Tool::Fly => "fly",
        }
    }

    /// How to get the program, as told to the user when it is missing.
    pub open spec fn spec_hint(self) -> Seq<char> {
        match self {
            Tool::Spruce => "\nDownload from: https://github.com/geofffranks/spruce/releases"@,
            _ => "\nInstall via package manager"@,
        }
    }

    /// How to get the program, as told to the user when it is missing.
    pub fn hint(self) -> (r: &'static str)
        ensures
            r@ == self.spec_hint(),
    {
        match self {
            Tool::Spruce => "\nDownload from: https://github.com/geofffranks/spruce/releases",
            _ => "\nInstall via package manager",
        }
    }
}

impl RemoteCall {
    /// The orchestrator's name for the operation.
    pub open spec fn spec_operation(self) -> Seq<char> {
        match self {
            RemoteCall::Validate => "validate-pipeline"@,
            RemoteCall::SetPipeline => "set-pipeline"@,
            RemoteCall::Pause => "pause-pipeline"@,
            RemoteCall::Unpause => "unpause-pipeline"@,
            RemoteCall::Expose => "expose-pipeline"@,
            RemoteCall::Hide => "hide-pipeline"@,
        }
    }

    /// The orchestrator's name for the operation.
    pub fn operation(self) -> (r: &'static str)
        ensures
            r@ == self.spec_operation(),
    {
        match self {
            RemoteCall::Validate => "validate-pipeline",
            RemoteCall::SetPipeline => "set-pipeline",
            RemoteCall::Pause => "pause-pipeline",
            RemoteCall::Unpause => "unpause-pipeline",
            RemoteCall::Expose => "expose-pipeline",
            RemoteCall::Hide => "hide-pipeline",
        }
    }

    /// Whether the operation changes anything on the remote side.
    pub open spec fn spec_mutates(self) -> bool {
        self != RemoteCall::Validate
    }

    /// Whether the operation changes anything on the remote side.
    pub fn mutates(self) -> (r: bool)
        ensures
            r == self.spec_mutates(),
    {
        match self {
            RemoteCall::Validate => false,
            _ => true,
        }
    }
}

/// The lines that list the places looked at, one `"\n- "` and a path each.
pub open spec fn checked_lines(checked: Seq<Seq<char>>) -> Seq<char>
    decreases checked.len(),
{
    if checked.len() == 0 {
        Seq::empty()
    } else {
        checked_lines(checked.drop_last()) + "\n- "@ + checked.last()
    }
}

impl RepipeErrorView {
    /// The one message that the user reads.
    pub open spec fn message(self) -> Seq<char> {
        match self {
            RepipeErrorView::DirectoryNotFound { checked } =>
                "Could not find ci directory. Checked:"@ + checked_lines(checked),
            RepipeErrorView::SettingsNotFound => "Missing local settings in ci/settings.yml!"@,
            RepipeErrorView::MissingBaseConfig => "Missing pipeline/base.yml file"@,
            RepipeErrorView::MergeFailed { diagnostics } =>
                "Failed to merge pipeline configuration: "@ + diagnostics,
            RepipeErrorView::InvalidMergedDocument =>
                "Merged pipeline configuration is not well-formed"@,
            RepipeErrorView::InvalidMetadata => "Could not read the pipeline's meta block"@,
            RepipeErrorView::MissingTarget => "Missing target"@,
            RepipeErrorView::MissingPipelineName => "Missing pipeline name"@,
            RepipeErrorView::CredentialsNotFound => "Could not find .flyrc file"@,
            RepipeErrorView::InvalidCredentials => "Could not read the .flyrc file"@,
            RepipeErrorView::UnknownTarget { target } =>
                "Target '"@ + target + "' not found"@,
            RepipeErrorView::TargetURLMismatch => "Target URL mismatch"@,
            RepipeErrorView::TargetTeamMismatch => "Target team mismatch"@,
            RepipeErrorView::ArtifactWriteFailed => "Could not write the pipeline configuration"@,
            RepipeErrorView::RemoteCallFailed { call, status } =>
                "fly "@ + call.spec_operation() + " failed"@,
            RepipeErrorView::RequiredToolMissing { tool } =>
                "'"@ + tool.spec_program() + "' command not found"@ + tool.spec_hint(),
            RepipeErrorView::UnexpectedEvent => "Unexpected answer to a request"@,
        }
    }

    /// The status with which the process ends: that of the failed remote
    /// call where there is one, and 1 otherwise.
    pub open spec fn exit_code(self) -> i32 {
        match self {
            RepipeErrorView::RemoteCallFailed { call, status: Some(code) } if code != 0 => code,
            _ => 1,
        }
    }
}

impl RepipeError {
    /// The one message that the user reads.
    pub fn message(&self) -> (r: String)
        ensures
            r@ == self@.message(),
    {
        match self {
            RepipeError::DirectoryNotFound { checked } => {
                let mut out = "Could not find ci directory. Checked:".to_owned();
                let mut i: usize = 0;
                while i < checked.len()
                    invariant
                        i <= checked.len(),
                        out@ == "Could not find ci directory. Checked:"@ + checked_lines(
                            checked.deep_view().take(i as int),
                        ),
                    decreases checked.len() - i,
                {
                    proof {
                        let all = checked.deep_view();
                        assert(all.take(i + 1).drop_last() =~= all.take(i as int));
                        assert(all.take(i + 1).last() == checked[i as int]@);
                    }
                    out.append("\n- ");
                    out.append(checked[i].as_str());
                    i = i + 1;
                    assert(out@ =~= "Could not find ci directory. Checked:"@ + checked_lines(
                        checked.deep_view().take(i as int),
                    ));
                }
                assert(checked.deep_view().take(i as int) =~= checked.deep_view());
                out
            },
            RepipeError::SettingsNotFound => "Missing local settings in ci/settings.yml!".to_owned(),
            RepipeError::MissingBaseConfig => "Missing pipeline/base.yml file".to_owned(),
            RepipeError::MergeFailed { diagnostics } => {
                let mut out = "Failed to merge pipeline configuration: ".to_owned();
                out.append(diagnostics.as_str());
                out
            },
            RepipeError::InvalidMergedDocument =>
                "Merged pipeline configuration is not well-formed".to_owned(),
            RepipeError::InvalidMetadata => "Could not read the pipeline's meta block".to_owned(),
            RepipeError::MissingTarget => "Missing target".to_owned(),
            RepipeError::MissingPipelineName => "Missing pipeline name".to_owned(),
            RepipeError::CredentialsNotFound => "Could not find .flyrc file".to_owned(),
            RepipeError::InvalidCredentials => "Could not read the .flyrc file".to_owned(),
            RepipeError::UnknownTarget { target } => {
                let mut out = "Target '".to_owned();
                out.append(target.as_str());
                out.append("' not found");
                out
            },
            RepipeError::TargetURLMismatch => "Target URL mismatch".to_owned(),
            RepipeError::TargetTeamMismatch => "Target team mismatch".to_owned(),
            RepipeError::ArtifactWriteFailed =>
                "Could not write the pipeline configuration".to_owned(),
            RepipeError::RemoteCallFailed { call, status } => {
                let mut out = "fly ".to_owned();
                out.append(call.operation());
                out.append(" failed");
                out
            },
            RepipeError::RequiredToolMissing { tool } => {
                let mut out = "'".to_owned();
                out.append(tool.program());
                out.append("' command not found");
                out.append(tool.hint());
                out
            },
            RepipeError::UnexpectedEvent => "Unexpected answer to a request".to_owned(),
        }
    }

    /// The status with which the process ends. It is never 0.
    pub fn exit_code(&self) -> (r: i32)
        ensures
            r == self@.exit_code(),
            r != 0,
    {
        match self {
            RepipeError::RemoteCallFailed { call, status: Some(code) } => {
                if *code != 0 {
                    *code
                } else {
                    1
                }
            },
            _ => 1,
        }
    }
}

} // verus!
