//! What a command asks of its driver, and what the driver answers.
//!
//! The driver performs each [`Action`] and hands the matching [`Event`]
//! back. All paths are relative to the CI directory.

use vstd::prelude::*;
use crate::error::{RemoteCall, RepipeError, RepipeErrorView};
use crate::locate::{Candidate, CandidateView};
use crate::merge::{file_views, PipelineFile, PipelineFileView};
use crate::meta::{PipelineMeta, PipelineMetaView};
use crate::scripts::Script;

verus! {

/// Where a command stands: the answer that it waits for.
#[derive(Clone, Copy, Debug, PartialEq, Eq, Structural)]
pub enum Phase {
    /// Nothing was asked yet.
    Idle,
    /// Which of the required programs are there.
    Requirements,
    /// Which settings files exist.
    Settings,
    /// Whether a generator script exists and can be executed.
    ScriptProbe(Script),
    /// How a generator script ended.
    ScriptRun(Script),
    /// What lies below the pipeline directory.
    Scan,
    /// What the merge tool made of the files.
    Merge,
    /// Whether the deploy artifact was written.
    Persist,
    /// Whether the debug artifact was written.
    PersistDebug,
    /// The metadata block of the merged pipeline.
    Metadata,
    /// Which credentials files exist.
    CredentialsProbe,
    /// The text of the credentials file.
    CredentialsRead,
    /// How a remote call ended.
    Remote(RemoteCall),
    /// That the pipeline was printed.
    DryRun,
    /// Whether the browser opened.
    Browser,
    /// That the pipeline's address was printed.
    Address,
    /// That what was generated has been removed.
    Cleanup,
    /// The command has finished.
    Done,
}

/// What the driver is asked to do next.
#[derive(Clone, Debug, PartialEq, Eq)]
pub enum Action {
    /// Find out which of the merge tool, the query tool and the orchestrator
    /// are there; for the orchestrator at `fly_path`, whether that file can
    /// be executed.
    ProbeTools { fly_path: Option<String> },
    /// Find out whether the settings files exist.
    ProbeSettings { candidate: Option<String>, fallback: String },
    /// Find out whether the script exists and can be executed.
    ProbeScript { path: String },
    /// Run the script to completion, with no input.
    RunScript { path: String },
    /// Find out whether the base file exists, and list the files below the
    /// pipeline directory.
    ScanPipeline,
    /// Run the merge tool and collect what it prints.
    RunMerge { program: String, arguments: Vec<String> },
    /// Write the text to the file.
    WriteFile { path: String, contents: String },
    /// Run the merge tool with `input` as its input, and read a metadata
    /// block out of what it prints.
    ExtractMetadata { program: String, arguments: Vec<String>, input: String },
    /// Find out which credentials files exist.
    ProbeCredentials,
    /// Read the credentials file.
    ReadCredentials { path: String },
    /// Run the orchestrator's program.
    RunRemote { call: RemoteCall, program: String, arguments: Vec<String> },
    /// Print the text to standard output.
    Print { text: String },
    /// Open the address in a browser.
    OpenBrowser { url: String },
    /// Remove the files and the directories, ignoring any failure.
    Cleanup { files: Vec<String>, directories: Vec<String> },
    /// The command is over; `failure` says why it failed, if it did.
    Finish { failure: Option<RepipeError> },
    /// The command was over before: there is nothing to do.
    Halt,
}

/// The mathematical content of an [`Action`].
pub ghost enum ActionView {
    ProbeTools { fly_path: Option<Seq<char>> },
    ProbeSettings { candidate: Option<Seq<char>>, fallback: Seq<char> },
    ProbeScript { path: Seq<char> },
    RunScript { path: Seq<char> },
    ScanPipeline,
    RunMerge { program: Seq<char>, arguments: Seq<Seq<char>> },
    WriteFile { path: Seq<char>, contents: Seq<char> },
    ExtractMetadata { program: Seq<char>, arguments: Seq<Seq<char>>, input: Seq<char> },
    ProbeCredentials,
    ReadCredentials { path: Seq<char> },
    RunRemote { call: RemoteCall, program: Seq<char>, arguments: Seq<Seq<char>> },
    Print { text: Seq<char> },
    OpenBrowser { url: Seq<char> },
    Cleanup { files: Seq<Seq<char>>, directories: Seq<Seq<char>> },
    Finish { failure: Option<RepipeErrorView> },
    Halt,
}

impl View for Action {
    type V = ActionView;

    open spec fn view(&self) -> ActionView {
        match self {
            Action::ProbeTools { fly_path } => ActionView::ProbeTools {
                fly_path: fly_path.deep_view(),
            },
            Action::ProbeSettings { candidate, fallback } => ActionView::ProbeSettings {
                candidate: candidate.deep_view(),
                fallback: fallback@,
            },
            Action::ProbeScript { path } => ActionView::ProbeScript { path: path@ },
            Action::RunScript { path } => ActionView::RunScript { path: path@ },
            Action::ScanPipeline => ActionView::ScanPipeline,
            Action::RunMerge { program, arguments } => ActionView::RunMerge {
                program: program@,
                arguments: arguments.deep_view(),
            },
            Action::WriteFile { path, contents } => ActionView::WriteFile {
                path: path@,
                contents: contents@,
            },
            Action::ExtractMetadata { program, arguments, input } => ActionView::ExtractMetadata {
                program: program@,
                arguments: arguments.deep_view(),
                input: input@,
            },
            Action::ProbeCredentials => ActionView::ProbeCredentials,
            Action::ReadCredentials { path } => ActionView::ReadCredentials { path: path@ },
            Action::RunRemote { call, program, arguments } => ActionView::RunRemote {
                call: *call,
                program: program@,
                arguments: arguments.deep_view(),
            },
            Action::Print { text } => ActionView::Print { text: text@ },
            Action::OpenBrowser { url } => ActionView::OpenBrowser { url: url@ },
            Action::Cleanup { files, directories } => ActionView::Cleanup {
                files: files.deep_view(),
                directories: directories.deep_view(),
            },
            Action::Finish { failure } => ActionView::Finish {
                failure: match failure {
                    Some(e) => Some(e@),
                    None => None,
                },
            },
            Action::Halt => ActionView::Halt,
        }
    }
}

/// What the driver answers.
#[derive(Clone, Debug, PartialEq, Eq)]
pub enum Event {
    /// The command is to start.
    Begin,
    /// Whether each required program is there.
    ToolsProbed { spruce: bool, jq: bool, fly: bool },
    /// Whether the target's settings file and the default one exist.
    SettingsProbed { candidate_exists: bool, fallback_exists: bool },
    /// Whether the script exists and can be executed.
    ScriptProbed { exists: bool, executable: bool },
    /// The script ran; whether it succeeded.
    ScriptFinished { success: bool },
    /// Whether the base file exists, and the files found below the pipeline
    /// directory, in the order of the walk.
    PipelineScanned { base_exists: bool, files: Vec<PipelineFile> },
    /// The merge tool ran: whether it succeeded, what it printed, and what
    /// it said about errors.
    MergeFinished { success: bool, output: Vec<u8>, diagnostics: String },
    /// Whether the file was written.
    Written { success: bool },
    /// The metadata block, where one could be read.
    MetadataExtracted { metadata: Option<PipelineMeta> },
    /// The credentials file in the user's home, where there is a home; the
    /// one that the environment names, where it names one; and the one in
    /// the working directory.
    CredentialsProbed { home: Option<Candidate>, named: Option<Candidate>, local: Candidate },
    /// The text of the credentials file, where it could be read.
    CredentialsLoaded { contents: Option<String> },
    /// The orchestrator's program ran and exited with this status; `None`
    /// where it was ended by a signal.
    RemoteFinished { status: Option<i32> },
    /// The text was printed.
    Printed,
    /// Whether the browser opened.
    BrowserOpened { success: bool },
    /// The cleanup is over.
    CleanedUp,
    /// A program that was to run could not be started.
    LaunchFailed,
}

/// The mathematical content of an [`Event`].
pub ghost enum EventView {
    Begin,
    ToolsProbed { spruce: bool, jq: bool, fly: bool },
    SettingsProbed { candidate_exists: bool, fallback_exists: bool },
    ScriptProbed { exists: bool, executable: bool },
    ScriptFinished { success: bool },
    PipelineScanned { base_exists: bool, files: Seq<PipelineFileView> },
    MergeFinished { success: bool, output: Seq<u8>, diagnostics: Seq<char> },
    Written { success: bool },
    MetadataExtracted { metadata: Option<PipelineMetaView> },
    CredentialsProbed {
        home: Option<CandidateView>,
        named: Option<CandidateView>,
        local: CandidateView,
    },
    CredentialsLoaded { contents: Option<Seq<char>> },
    RemoteFinished { status: Option<i32> },
    Printed,
    BrowserOpened { success: bool },
    CleanedUp,
    LaunchFailed,
}

impl View for Event {
    type V = EventView;

    open spec fn view(&self) -> EventView {
        match self {
            Event::Begin => EventView::Begin,
            Event::ToolsProbed { spruce, jq, fly } => EventView::ToolsProbed {
                spruce: *spruce,
                jq: *jq,
                fly: *fly,
            },
            Event::SettingsProbed { candidate_exists, fallback_exists } => EventView::SettingsProbed {
                candidate_exists: *candidate_exists,
                fallback_exists: *fallback_exists,
            },
            Event::ScriptProbed { exists, executable } => EventView::ScriptProbed {
                exists: *exists,
                executable: *executable,
            },
            Event::ScriptFinished { success } => EventView::ScriptFinished { success: *success },
            Event::PipelineScanned { base_exists, files } => EventView::PipelineScanned {
                base_exists: *base_exists,
                files: file_views(files@),
            },
            Event::MergeFinished { success, output, diagnostics } => EventView::MergeFinished {
                success: *success,
                output: output@,
                diagnostics: diagnostics@,
            },
            Event::Written { success } => EventView::Written { success: *success },
            Event::MetadataExtracted { metadata } => EventView::MetadataExtracted {
                metadata: match metadata {
                    Some(m) => Some(m@),
                    None => None,
                },
            },
            Event::CredentialsProbed { home, named, local } => EventView::CredentialsProbed {
                home: match home {
                    Some(c) => Some(c@),
                    None => None,
                },
                named: match named {
                    Some(c) => Some(c@),
                    None => None,
                },
                local: local@,
            },
            Event::CredentialsLoaded { contents } => EventView::CredentialsLoaded {
                contents: contents.deep_view(),
            },
            Event::RemoteFinished { status } => EventView::RemoteFinished { status: *status },
            Event::Printed => EventView::Printed,
            Event::BrowserOpened { success } => EventView::BrowserOpened { success: *success },
            Event::CleanedUp => EventView::CleanedUp,
            Event::LaunchFailed => EventView::LaunchFailed,
        }
    }
}

} // verus!
