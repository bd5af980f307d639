//! One deployment of a pipeline, from the first probe to the cleanup.
//!
//! A [`RepipeCommand`] is a state machine. It starts idle; each call of
//! [`RepipeCommand::execute`] takes the driver's answer to the previous
//! request and returns the next request. The steps follow one another in a
//! fixed order, the first failure ends them, and what was generated is
//! removed before the command finishes.

use vstd::prelude::*;
use crate::credentials::{chosen_credentials, select_credentials, stored_target, target_checked,
    validate_target};
use crate::dispatch::{call_arguments, first_call, first_remote_call, next_call, next_remote_call,
    remote_arguments};
use crate::error::{RemoteCall, RepipeError, RepipeErrorView, Tool};
use crate::locate::{Candidate, CandidateView};
use crate::merge::{check_merge, cherry_pick_arguments, cherry_pick_command, debug_artifact,
    decoded, deploy_artifact, merge_arguments, merge_command, merged_document, PipelineFile,
    PipelineFileView};
use crate::meta::{PipelineMeta, PipelineMetaView};
use crate::options::{RepipeOptions, RepipeOptionsView};
use crate::protocol::{Action, ActionView, Event, EventView, Phase};
use crate::requirements::{check_requirements, requirements_met};
use crate::scripts::{decide, decision, Script, ScriptDecision, Warning};
use crate::settings::{chosen_settings, default_settings, select_settings, settings_file_name,
    settings_name};
use crate::text::{copy_optional, copy_text};
use crate::yaml::yaml_document;

verus! {

/// The working state of one command.
pub struct RepipeCommand {
    options: RepipeOptions,
    base_dir: String,
    environment_target: Option<String>,
    settings_file: String,
    document: String,
    meta: Option<PipelineMeta>,
    target: String,
    pipeline: String,
    phase: Phase,
    failure: Option<RepipeError>,
    warnings: Vec<Warning>,
}

/// The mathematical content of a [`RepipeCommand`].
pub ghost struct CommandView {
    /// What the user asked for.
    pub options: RepipeOptionsView,
    /// The CI directory.
    pub base_dir: Seq<char>,
    /// The target that the environment selects, if it selects one.
    pub environment_target: Option<Seq<char>>,
    /// The settings file that is merged last.
    pub settings_file: Seq<char>,
    /// The merged pipeline, once there is one.
    pub document: Seq<char>,
    /// The metadata of the merged pipeline, once it was read.
    pub meta: Option<PipelineMetaView>,
    /// The target, once it is resolved.
    pub target: Seq<char>,
    /// The pipeline's name, once it is resolved.
    pub pipeline: Seq<char>,
    /// The answer that the command waits for.
    pub phase: Phase,
    /// Why the command failed, if it did.
    pub failure: Option<RepipeErrorView>,
    /// What the user is warned of.
    pub warnings: Seq<Warning>,
}

/// In this phase the target and the pipeline's name are resolved.
pub open spec fn resolved_phase(phase: Phase) -> bool {
    match phase {
        Phase::CredentialsProbe
        | Phase::CredentialsRead
        | Phase::Remote(_)
        | Phase::DryRun
        | Phase::Browser
        | Phase::Address => true,
        _ => false,
    }
}

/// The command is cleaning up or has finished.
pub open spec fn winding_down(phase: Phase) -> bool {
    phase == Phase::Cleanup || phase == Phase::Done
}

/// How far a command has come. Every step takes it further.
pub open spec fn phase_rank(phase: Phase) -> nat {
    match phase {
        Phase::Idle => 0,
        Phase::Requirements => 1,
        Phase::Settings => 2,
        Phase::ScriptProbe(Script::TestJobs) => 3,
        Phase::ScriptRun(Script::TestJobs) => 4,
        Phase::ScriptProbe(Script::UpstreamJobs) => 5,
        Phase::ScriptRun(Script::UpstreamJobs) => 6,
        Phase::Scan => 7,
        Phase::Merge => 8,
        Phase::Persist => 9,
        Phase::PersistDebug => 9,
        Phase::Metadata => 10,
        Phase::CredentialsProbe => 11,
        Phase::CredentialsRead => 12,
        Phase::Remote(RemoteCall::Validate) => 13,
        Phase::Remote(RemoteCall::SetPipeline) => 13,
        Phase::DryRun => 13,
        Phase::Remote(RemoteCall::Pause) => 14,
        Phase::Remote(RemoteCall::Unpause) => 14,
        Phase::Remote(RemoteCall::Expose) => 15,
        Phase::Remote(RemoteCall::Hide) => 15,
        Phase::Browser => 16,
        Phase::Address => 17,
        Phase::Cleanup => 18,
        Phase::Done => 19,
    }
}

/// The text that is printed where the browser does not open.
pub open spec fn address_notice(url: Seq<char>) -> Seq<char> {
    "Could not open browser automatically\nURL: "@ + url
}

impl CommandView {
    /// The state of a command that was not started yet.
    pub open spec fn initial(
        options: RepipeOptionsView,
        base_dir: Seq<char>,
        environment_target: Option<Seq<char>>,
    ) -> CommandView {
        CommandView {
            options,
            base_dir,
            environment_target,
            settings_file: default_settings(),
            document: Seq::empty(),
            meta: None,
            target: Seq::empty(),
            pipeline: Seq::empty(),
            phase: Phase::Idle,
            failure: None,
            warnings: Seq::empty(),
        }
    }

    /// What holds of every state that a command can reach: once the target
    /// is resolved, the metadata is there and the target and the pipeline's
    /// name are what the rules make of it and of the environment; the debug
    /// artifact is written only for a user who asked for it, and with such
    /// a user the command goes no further; and a failure is kept only until
    /// the cleanup is over.
    pub open spec fn well_formed(self) -> bool {
        &&& resolved_phase(self.phase) ==> {
            &&& self.meta is Some
            &&& self.meta.unwrap().resolve_target(self.environment_target) == Ok::<
                Seq<char>,
                RepipeErrorView,
            >(self.target)
            &&& self.meta.unwrap().resolve_pipeline() == Ok::<Seq<char>, RepipeErrorView>(
                self.pipeline,
            )
        }
        &&& self.phase == Phase::PersistDebug ==> self.options.debug
        &&& self.options.debug ==> phase_rank(self.phase) < phase_rank(Phase::Persist)
            || self.phase == Phase::PersistDebug || winding_down(self.phase)
        &&& self.failure is Some ==> self.phase == Phase::Cleanup
    }

    /// The files that the cleanup removes: the deploy artifact, unless the
    /// user asked to keep it.
    pub open spec fn cleanup_files(self) -> Seq<Seq<char>> {
        if self.options.debug {
            Seq::empty()
        } else {
            seq![deploy_artifact()]
        }
    }

    /// The directories that the cleanup removes: those that the generator
    /// scripts fill.
    pub open spec fn cleanup_directories() -> Seq<Seq<char>> {
        seq![Script::UpstreamJobs.spec_scratch(), Script::TestJobs.spec_scratch()]
    }

    /// The request to clean up.
    pub open spec fn cleanup(self) -> ActionView {
        ActionView::Cleanup {
            files: self.cleanup_files(),
            directories: Self::cleanup_directories(),
        }
    }

    /// The URL that the metadata declares.
    pub open spec fn declared_url(self) -> Option<Seq<char>> {
        match self.meta {
            Some(m) => m.url,
            None => None,
        }
    }

    /// The team that the metadata declares.
    pub open spec fn declared_team(self) -> Option<Seq<char>> {
        match self.meta {
            Some(m) => m.team,
            None => None,
        }
    }

    /// What the metadata says about exposing the pipeline.
    pub open spec fn declared_exposed(self) -> Option<bool> {
        match self.meta {
            Some(m) => m.exposed,
            None => None,
        }
    }

    /// The command fails with `error`: it cleans up and then finishes.
    pub open spec fn fail(self, error: RepipeErrorView) -> (CommandView, ActionView) {
        (CommandView { phase: Phase::Cleanup, failure: Some(error), ..self }, self.cleanup())
    }

    /// The command has done its work: it cleans up and then finishes.
    pub open spec fn wrap_up(self) -> (CommandView, ActionView) {
        (CommandView { phase: Phase::Cleanup, ..self }, self.cleanup())
    }

    /// The command finishes.
    pub open spec fn finish(self) -> (CommandView, ActionView) {
        (
            CommandView { phase: Phase::Done, failure: None, ..self },
            ActionView::Finish { failure: self.failure },
        )
    }

    /// The command starts: it asks which programs are there.
    pub open spec fn begin(self) -> (CommandView, ActionView) {
        (
            CommandView { phase: Phase::Requirements, ..self },
            ActionView::ProbeTools { fly_path: self.options.fly_path },
        )
    }

    /// The programs were probed.
    pub open spec fn on_tools(self, spruce: bool, jq: bool, fly: bool) -> (
        CommandView,
        ActionView,
    ) {
        match requirements_met(spruce, jq, fly) {
            Err(error) => self.fail(error),
            Ok(_) => (
                CommandView { phase: Phase::Settings, ..self },
                ActionView::ProbeSettings {
                    candidate: match self.environment_target {
                        Some(t) => Some(settings_name(t)),
                        None => None,
                    },
                    fallback: default_settings(),
                },
            ),
        }
    }

    /// The command asks about a generator script.
    pub open spec fn probe_script(self, script: Script) -> (CommandView, ActionView) {
        (
            CommandView { phase: Phase::ScriptProbe(script), ..self },
            ActionView::ProbeScript { path: script.spec_path() },
        )
    }

    /// The settings files were probed.
    pub open spec fn on_settings(self, candidate_exists: bool, fallback_exists: bool) -> (
        CommandView,
        ActionView,
    ) {
        match chosen_settings(self.environment_target, candidate_exists, fallback_exists) {
            Err(error) => self.fail(error),
            Ok(name) => (CommandView { settings_file: name, ..self }).probe_script(
                Script::TestJobs,
            ),
        }
    }

    /// The command is done with a generator script: it goes on to the next
    /// one, and after the last one to the pipeline's files.
    pub open spec fn after_script(self, script: Script) -> (CommandView, ActionView) {
        match script.spec_next() {
            Some(next) => self.probe_script(next),
            None => (CommandView { phase: Phase::Scan, ..self }, ActionView::ScanPipeline),
        }
    }

    /// The command with one more warning.
    pub open spec fn warn(self, warning: Warning) -> CommandView {
        CommandView { warnings: self.warnings.push(warning), ..self }
    }

    /// A generator script was probed.
    pub open spec fn on_script_probed(self, script: Script, exists: bool, executable: bool) -> (
        CommandView,
        ActionView,
    ) {
        match decision(exists, executable) {
            ScriptDecision::Run => (
                CommandView { phase: Phase::ScriptRun(script), ..self },
                ActionView::RunScript { path: script.spec_path() },
            ),
            ScriptDecision::SkipMissing => self.after_script(script),
            ScriptDecision::SkipNotExecutable => self.warn(
                Warning::NotExecutable(script),
            ).after_script(script),
        }
    }

    /// A generator script ended. Its failure is a warning, no error.
    pub open spec fn on_script_finished(self, script: Script, success: bool) -> (
        CommandView,
        ActionView,
    ) {
        if success {
            self.after_script(script)
        } else {
            self.warn(Warning::Failed(script)).after_script(script)
        }
    }

    /// The pipeline directory was scanned.
    pub open spec fn on_scan(self, base_exists: bool, files: Seq<PipelineFileView>) -> (
        CommandView,
        ActionView,
    ) {
        if !base_exists {
            self.fail(RepipeErrorView::MissingBaseConfig)
        } else {
            (
                CommandView { phase: Phase::Merge, ..self },
                ActionView::RunMerge {
                    program: Tool::Spruce.spec_program(),
                    arguments: merge_arguments(files, self.settings_file),
                },
            )
        }
    }

    /// The merge tool ran.
    pub open spec fn on_merge(self, success: bool, output: Seq<u8>, diagnostics: Seq<char>) -> (
        CommandView,
        ActionView,
    ) {
        let text = decoded(output);
        let well_formed = text is Some && yaml_document(text.unwrap()) is Some;
        match merged_document(success, text, well_formed, diagnostics) {
            Err(error) => self.fail(error),
            Ok(document) => if self.options.debug {
                (
                    CommandView { phase: Phase::PersistDebug, document, ..self },
                    ActionView::WriteFile { path: debug_artifact(), contents: document },
                )
            } else {
                (
                    CommandView { phase: Phase::Persist, document, ..self },
                    ActionView::WriteFile { path: deploy_artifact(), contents: document },
                )
            },
        }
    }

    /// The deploy artifact was written, or not.
    pub open spec fn on_persisted(self, success: bool) -> (CommandView, ActionView) {
        if !success {
            self.fail(RepipeErrorView::ArtifactWriteFailed)
        } else {
            (
                CommandView { phase: Phase::Metadata, ..self },
                ActionView::ExtractMetadata {
                    program: Tool::Spruce.spec_program(),
                    arguments: cherry_pick_arguments(),
                    input: self.document,
                },
            )
        }
    }

    /// The debug artifact was written, or not. Once it is written the
    /// command is over, and nothing is cleaned up.
    pub open spec fn on_debug_persisted(self, success: bool) -> (CommandView, ActionView) {
        if !success {
            self.fail(RepipeErrorView::ArtifactWriteFailed)
        } else {
            self.finish()
        }
    }

    /// The metadata block was read, or not.
    pub open spec fn on_metadata(self, metadata: Option<PipelineMetaView>) -> (
        CommandView,
        ActionView,
    ) {
        match metadata {
            None => self.fail(RepipeErrorView::InvalidMetadata),
            Some(m) => {
                let kept = CommandView { meta: Some(m), ..self };
                match m.resolve_target(self.environment_target) {
                    Err(error) => kept.fail(error),
                    Ok(target) => match m.resolve_pipeline() {
                        Err(error) => kept.fail(error),
                        Ok(pipeline) => (
                            CommandView {
                                target,
                                pipeline,
                                phase: Phase::CredentialsProbe,
                                ..kept
                            },
                            ActionView::ProbeCredentials,
                        ),
                    },
                }
            },
        }
    }

    /// The credentials files were probed.
    pub open spec fn on_credentials_probed(
        self,
        home: Option<CandidateView>,
        named: Option<CandidateView>,
        local: CandidateView,
    ) -> (CommandView, ActionView) {
        match chosen_credentials(home, named, local) {
            Err(error) => self.fail(error),
            Ok(path) => (
                CommandView { phase: Phase::CredentialsRead, ..self },
                ActionView::ReadCredentials { path },
            ),
        }
    }

    /// The command asks for a remote call.
    pub open spec fn remote(self, call: RemoteCall) -> (CommandView, ActionView) {
        (
            CommandView { phase: Phase::Remote(call), ..self },
            ActionView::RunRemote {
                call,
                program: self.options.fly_program(),
                arguments: call_arguments(call, self.target, self.pipeline, self.options),
            },
        )
    }

    /// The target is valid: the command does what its mode says.
    pub open spec fn dispatch(self) -> (CommandView, ActionView) {
        match first_call(self.options.mode()) {
            Some(call) => self.remote(call),
            None => (
                CommandView { phase: Phase::DryRun, ..self },
                ActionView::Print { text: self.document },
            ),
        }
    }

    /// The credentials file was read, or not.
    pub open spec fn on_credentials(self, contents: Option<Seq<char>>) -> (
        CommandView,
        ActionView,
    ) {
        match contents {
            None => self.fail(RepipeErrorView::CredentialsNotFound),
            Some(text) => match target_checked(
                self.target,
                self.declared_url(),
                self.declared_team(),
                stored_target(text, self.target),
            ) {
                Err(error) => self.fail(error),
                Ok(_) => self.dispatch(),
            },
        }
    }

    /// The mode's work is done: the browser is opened where the user asked
    /// for it and there is metadata to build the address from.
    pub open spec fn after_dispatch(self) -> (CommandView, ActionView) {
        if self.options.open_browser > 0 && self.meta is Some {
            (
                CommandView { phase: Phase::Browser, ..self },
                ActionView::OpenBrowser { url: self.meta.unwrap().dashboard_url(self.pipeline) },
            )
        } else {
            self.wrap_up()
        }
    }

    /// A remote call ended. Any status but 0 is a failure.
    pub open spec fn on_remote(self, call: RemoteCall, status: Option<i32>) -> (
        CommandView,
        ActionView,
    ) {
        if status != Some(0i32) {
            self.fail(RepipeErrorView::RemoteCallFailed { call, status })
        } else {
            match next_call(
                call,
                self.options.pause,
                self.options.exposed(self.declared_exposed()),
            ) {
                Some(next) => self.remote(next),
                None => self.after_dispatch(),
            }
        }
    }

    /// The browser opened, or not. Where it did not, the address is printed.
    pub open spec fn on_browser(self, success: bool) -> (CommandView, ActionView) {
        if success || self.meta is None {
            self.wrap_up()
        } else {
            (
                CommandView { phase: Phase::Address, ..self },
                ActionView::Print {
                    text: address_notice(self.meta.unwrap().dashboard_url(self.pipeline)),
                },
            )
        }
    }

    /// The state after `event`, and the request that answers it. An event
    /// that does not answer the pending request makes the command fail with
    /// `UnexpectedEvent`; a program that cannot be started counts as
    /// missing, and a script that cannot be started as failed.
    pub open spec fn step(self, event: EventView) -> (CommandView, ActionView) {
        match (self.phase, event) {
            (Phase::Idle, EventView::Begin) => self.begin(),
            (Phase::Requirements, EventView::ToolsProbed { spruce, jq, fly }) => self.on_tools(
                spruce,
                jq,
                fly,
            ),
            (
                Phase::Settings,
                EventView::SettingsProbed { candidate_exists, fallback_exists },
            ) => self.on_settings(candidate_exists, fallback_exists),
            (
                Phase::ScriptProbe(script),
                EventView::ScriptProbed { exists, executable },
            ) => self.on_script_probed(script, exists, executable),
            (Phase::ScriptRun(script), EventView::ScriptFinished { success }) =>
                self.on_script_finished(script, success),
            (Phase::ScriptRun(script), EventView::LaunchFailed) => self.on_script_finished(
                script,
                false,
            ),
            (Phase::Scan, EventView::PipelineScanned { base_exists, files }) => self.on_scan(
                base_exists,
                files,
            ),
            (Phase::Merge, EventView::MergeFinished { success, output, diagnostics }) =>
                self.on_merge(success, output, diagnostics),
            (Phase::Merge, EventView::LaunchFailed) => self.fail(
                RepipeErrorView::RequiredToolMissing { tool: Tool::Spruce },
            ),
            (Phase::Persist, EventView::Written { success }) => self.on_persisted(success),
            (Phase::PersistDebug, EventView::Written { success }) => self.on_debug_persisted(
                success,
            ),
            (Phase::Metadata, EventView::MetadataExtracted { metadata }) => self.on_metadata(
                metadata,
            ),
            (Phase::Metadata, EventView::LaunchFailed) => self.fail(
                RepipeErrorView::RequiredToolMissing { tool: Tool::Spruce },
            ),
            (
                Phase::CredentialsProbe,
                EventView::CredentialsProbed { home, named, local },
            ) => self.on_credentials_probed(home, named, local),
            (Phase::CredentialsRead, EventView::CredentialsLoaded { contents }) =>
                self.on_credentials(contents),
            (Phase::Remote(call), EventView::RemoteFinished { status }) => self.on_remote(
                call,
                status,
            ),
            (Phase::Remote(_), EventView::LaunchFailed) => self.fail(
                RepipeErrorView::RequiredToolMissing { tool: Tool::Fly },
            ),
            (Phase::DryRun, EventView::Printed) => self.after_dispatch(),
            (Phase::Browser, EventView::BrowserOpened { success }) => self.on_browser(success),
            (Phase::Address, EventView::Printed) => self.wrap_up(),
            (Phase::Cleanup, _) => self.finish(),
            (Phase::Done, _) => (self, ActionView::Halt),
            _ => self.fail(RepipeErrorView::UnexpectedEvent),
        }
    }
}

impl View for RepipeCommand {
    type V = CommandView;

    closed spec fn view(&self) -> CommandView {
        CommandView {
            options: self.options@,
            base_dir: self.base_dir@,
            environment_target: self.environment_target.deep_view(),
            settings_file: self.settings_file@,
            document: self.document@,
            meta: match self.meta {
                Some(m) => Some(m@),
                None => None,
            },
            target: self.target@,
            pipeline: self.pipeline@,
            phase: self.phase,
            failure: match self.failure {
                Some(e) => Some(e@),
                None => None,
            },
            warnings: self.warnings@,
        }
    }
}

impl RepipeCommand {
    /// A command that was not started yet, for the CI directory `base_dir`
    /// and the target that the environment selects.
    pub fn new(options: RepipeOptions, base_dir: String, environment_target: Option<String>) -> (r:
        RepipeCommand)
        ensures
            r@ == CommandView::initial(options@, base_dir@, environment_target.deep_view()),
            r@.well_formed(),
    {
        RepipeCommand {
            options,
            base_dir,
            environment_target,
            settings_file: "settings.yml".to_owned(),
            document: String::new(),
            meta: None,
            target: String::new(),
            pipeline: String::new(),
            phase: Phase::Idle,
            failure: None,
            warnings: Vec::new(),
        }
    }

    /// The answer that the command waits for.
    pub fn phase(&self) -> (r: Phase)
        ensures
            r == self@.phase,
    {
        self.phase
    }

    /// Whether the command has finished.
    pub fn is_done(&self) -> (r: bool)
        ensures
            r == (self@.phase == Phase::Done),
    {
        match self.phase {
            Phase::Done => true,
            _ => false,
        }
    }

    /// The CI directory.
    pub fn base_dir(&self) -> (r: &str)
        ensures
            r@ == self@.base_dir,
    {
        self.base_dir.as_str()
    }

    /// The settings file that is merged last.
    pub fn settings_file(&self) -> (r: &str)
        ensures
            r@ == self@.settings_file,
    {
        self.settings_file.as_str()
    }

    /// The target; empty until it is resolved.
    pub fn target(&self) -> (r: &str)
        ensures
            r@ == self@.target,
    {
        self.target.as_str()
    }

    /// The pipeline's name; empty until it is resolved.
    pub fn pipeline(&self) -> (r: &str)
        ensures
            r@ == self@.pipeline,
    {
        self.pipeline.as_str()
    }

    /// The metadata of the merged pipeline, once it was read.
    pub fn meta(&self) -> (r: &Option<PipelineMeta>)
        ensures
            self@.meta == match r {
                Some(m) => Some(m@),
                None => None,
            },
    {
        &self.meta
    }

    /// What the user is to be warned of, in the order in which it happened.
    pub fn warnings(&self) -> (r: &Vec<Warning>)
        ensures
            r@ == self@.warnings,
    {
        &self.warnings
    }

    /// The request to clean up.
    fn cleanup(&self) -> (a: Action)
        ensures
            a@ == self@.cleanup(),
    {
        let mut files: Vec<String> = Vec::new();
        if !self.options.debug {
            files.push(".deploy.yml".to_owned());
        }
        let mut directories: Vec<String> = Vec::new();
        directories.push(Script::UpstreamJobs.scratch().to_owned());
        directories.push(Script::TestJobs.scratch().to_owned());
        assert(files.deep_view() =~= self@.cleanup_files());
        assert(directories.deep_view() =~= CommandView::cleanup_directories());
        Action::Cleanup { files, directories }
    }

    fn fail(&mut self, error: RepipeError) -> (a: Action)
        ensures
            (final(self)@, a@) == old(self)@.fail(error@),
    {
        let action = self.cleanup();
        self.phase = Phase::Cleanup;
        self.failure = Some(error);
        action
    }

    fn wrap_up(&mut self) -> (a: Action)
        ensures
            (final(self)@, a@) == old(self)@.wrap_up(),
    {
        let action = self.cleanup();
        self.phase = Phase::Cleanup;
        action
    }

    fn finish(&mut self) -> (a: Action)
        ensures
            (final(self)@, a@) == old(self)@.finish(),
    {
        let failure = self.failure.take();
        self.phase = Phase::Done;
        Action::Finish { failure }
    }

    fn begin(&mut self) -> (a: Action)
        ensures
            (final(self)@, a@) == old(self)@.begin(),
    {
        self.phase = Phase::Requirements;
        Action::ProbeTools { fly_path: copy_optional(&self.options.fly_path) }
    }

    fn on_tools(&mut self, spruce: bool, jq: bool, fly: bool) -> (a: Action)
        ensures
            (final(self)@, a@) == old(self)@.on_tools(spruce, jq, fly),
    {
        match check_requirements(spruce, jq, fly) {
            Err(error) => self.fail(error),
            Ok(_) => {
                let candidate = match &self.environment_target {
                    Some(t) => Some(settings_file_name(t.as_str())),
                    None => None,
                };
                self.phase = Phase::Settings;
                Action::ProbeSettings { candidate, fallback: "settings.yml".to_owned() }
            },
        }
    }

    fn probe_script(&mut self, script: Script) -> (a: Action)
        ensures
            (final(self)@, a@) == old(self)@.probe_script(script),
    {
        self.phase = Phase::ScriptProbe(script);
        Action::ProbeScript { path: script.path().to_owned() }
    }

    fn on_settings(&mut self, candidate_exists: bool, fallback_exists: bool) -> (a: Action)
        ensures
            (final(self)@, a@) == old(self)@.on_settings(candidate_exists, fallback_exists),
    {
        match select_settings(&self.environment_target, candidate_exists, fallback_exists) {
            Err(error) => self.fail(error),
            Ok(name) => {
                self.settings_file = name;
                self.probe_script(Script::TestJobs)
            },
        }
    }

    fn after_script(&mut self, script: Script) -> (a: Action)
        ensures
            (final(self)@, a@) == old(self)@.after_script(script),
    {
        match script.next() {
            Some(next) => self.probe_script(next),
            None => {
                self.phase = Phase::Scan;
                Action::ScanPipeline
            },
        }
    }

    fn on_script_probed(&mut self, script: Script, exists: bool, executable: bool) -> (a: Action)
        ensures
            (final(self)@, a@) == old(self)@.on_script_probed(script, exists, executable),
    {
        match decide(exists, executable) {
            ScriptDecision::Run => {
                self.phase = Phase::ScriptRun(script);
                Action::RunScript { path: script.path().to_owned() }
            },
            ScriptDecision::SkipMissing => self.after_script(script),
            ScriptDecision::SkipNotExecutable => {
                self.warnings.push(Warning::NotExecutable(script));
                self.after_script(script)
            },
        }
    }

    fn on_script_finished(&mut self, script: Script, success: bool) -> (a: Action)
        ensures
            (final(self)@, a@) == old(self)@.on_script_finished(script, success),
    {
        if !success {
            self.warnings.push(Warning::Failed(script));
        }
        self.after_script(script)
    }

    fn on_scan(&mut self, base_exists: bool, files: Vec<PipelineFile>) -> (a: Action)
        ensures
            (final(self)@, a@) == old(self)@.on_scan(base_exists, crate::merge::file_views(files@)),
    {
        if !base_exists {
            self.fail(RepipeError::MissingBaseConfig)
        } else {
            let arguments = merge_command(&files, self.settings_file.as_str());
            self.phase = Phase::Merge;
            Action::RunMerge { program: Tool::Spruce.program().to_owned(), arguments }
        }
    }

    fn on_merge(&mut self, success: bool, output: Vec<u8>, diagnostics: String) -> (a: Action)
        ensures
            (final(self)@, a@) == old(self)@.on_merge(success, output@, diagnostics@),
    {
        match check_merge(success, output, diagnostics) {
            Err(error) => self.fail(error),
            Ok(document) => {
                let contents = copy_text(&document);
                self.document = document;
                if self.options.debug {
                    self.phase = Phase::PersistDebug;
                    Action::WriteFile { path: "repipe-debug.yml".to_owned(), contents }
                } else {
                    self.phase = Phase::Persist;
                    Action::WriteFile { path: ".deploy.yml".to_owned(), contents }
                }
            },
        }
    }

    fn on_persisted(&mut self, success: bool) -> (a: Action)
        ensures
            (final(self)@, a@) == old(self)@.on_persisted(success),
    {
        if !success {
            self.fail(RepipeError::ArtifactWriteFailed)
        } else {
            self.phase = Phase::Metadata;
            Action::ExtractMetadata {
                program: Tool::Spruce.program().to_owned(),
                arguments: cherry_pick_command(),
                input: copy_text(&self.document),
            }
        }
    }

    fn on_debug_persisted(&mut self, success: bool) -> (a: Action)
        ensures
            (final(self)@, a@) == old(self)@.on_debug_persisted(success),
    {
        if !success {
            self.fail(RepipeError::ArtifactWriteFailed)
        } else {
            self.finish()
        }
    }

    fn on_metadata(&mut self, metadata: Option<PipelineMeta>) -> (a: Action)
        ensures
            (final(self)@, a@) == old(self)@.on_metadata(
                match metadata {
                    Some(m) => Some(m@),
                    None => None,
                },
            ),
    {
        match metadata {
            None => self.fail(RepipeError::InvalidMetadata),
            Some(m) => {
                let target = m.resolve_target(&self.environment_target);
                let pipeline = m.resolve_pipeline();
                self.meta = Some(m);
                match target {
                    Err(error) => self.fail(error),
                    Ok(t) => match pipeline {
                        Err(error) => self.fail(error),
                        Ok(p) => {
                            self.target = t;
                            self.pipeline = p;
                            self.phase = Phase::CredentialsProbe;
                            Action::ProbeCredentials
                        },
                    },
                }
            },
        }
    }

    fn on_credentials_probed(
        &mut self,
        home: Option<Candidate>,
        named: Option<Candidate>,
        local: Candidate,
    ) -> (a: Action)
        ensures
            (final(self)@, a@) == old(self)@.on_credentials_probed(
                crate::credentials::optional_candidate(home),
                crate::credentials::optional_candidate(named),
                local@,
            ),
    {
        match select_credentials(&home, &named, &local) {
            Err(error) => self.fail(error),
            Ok(path) => {
                self.phase = Phase::CredentialsRead;
                Action::ReadCredentials { path }
            },
        }
    }

    fn remote(&mut self, call: RemoteCall) -> (a: Action)
        ensures
            (final(self)@, a@) == old(self)@.remote(call),
    {
        let arguments = remote_arguments(
            call,
            self.target.as_str(),
            self.pipeline.as_str(),
            &self.options,
        );
        self.phase = Phase::Remote(call);
        Action::RunRemote { call, program: self.options.fly_program(), arguments }
    }

    fn dispatch(&mut self) -> (a: Action)
        ensures
            (final(self)@, a@) == old(self)@.dispatch(),
    {
        match first_remote_call(self.options.mode()) {
            Some(call) => self.remote(call),
            None => {
                self.phase = Phase::DryRun;
                Action::Print { text: copy_text(&self.document) }
            },
        }
    }

    fn on_credentials(&mut self, contents: Option<String>) -> (a: Action)
        ensures
            (final(self)@, a@) == old(self)@.on_credentials(contents.deep_view()),
    {
        match contents {
            None => self.fail(RepipeError::CredentialsNotFound),
            Some(text) => {
                let checked = match &self.meta {
                    Some(m) => validate_target(
                        text.as_str(),
                        self.target.as_str(),
                        &m.url,
                        &m.team,
                    ),
                    None => validate_target(text.as_str(), self.target.as_str(), &None, &None),
                };
                match checked {
                    Err(error) => self.fail(error),
                    Ok(_) => self.dispatch(),
                }
            },
        }
    }

    fn after_dispatch(&mut self) -> (a: Action)
        ensures
            (final(self)@, a@) == old(self)@.after_dispatch(),
    {
        if self.options.open_browser > 0 {
            if let Some(m) = &self.meta {
                let url = m.dashboard_url(self.pipeline.as_str());
                self.phase = Phase::Browser;
                return Action::OpenBrowser { url };
            }
        }
        self.wrap_up()
    }

    fn on_remote(&mut self, call: RemoteCall, status: Option<i32>) -> (a: Action)
        ensures
            (final(self)@, a@) == old(self)@.on_remote(call, status),
    {
        let succeeded = match status {
            Some(code) => code == 0,
            None => false,
        };
        if !succeeded {
            return self.fail(RepipeError::RemoteCallFailed { call, status });
        }
        let declared = match &self.meta {
            Some(m) => m.exposed,
            None => None,
        };
        match next_remote_call(call, self.options.pause, self.options.exposed(declared)) {
            Some(next) => self.remote(next),
            None => self.after_dispatch(),
        }
    }

    fn on_browser(&mut self, success: bool) -> (a: Action)
        ensures
            (final(self)@, a@) == old(self)@.on_browser(success),
    {
        if !success {
            if let Some(m) = &self.meta {
                let mut text = "Could not open browser automatically\nURL: ".to_owned();
                let url = m.dashboard_url(self.pipeline.as_str());
                text.append(url.as_str());
                self.phase = Phase::Address;
                return Action::Print { text };
            }
        }
        self.wrap_up()
    }

    /// Takes the driver's answer to the previous request and returns the
    /// next request. The first event of a command is `Begin`; the last
    /// request is `Finish`. A state that is well-formed stays so.
    pub fn execute(&mut self, event: Event) -> (action: Action)
        ensures
            (final(self)@, action@) == old(self)@.step(event@),
            old(self)@.well_formed() ==> final(self)@.well_formed(),
            final(self)@.phase == Phase::Done || phase_rank(final(self)@.phase) > phase_rank(
                old(self)@.phase,
            ),
    {
        proof {
            if self@.well_formed() {
                crate::laws::step_keeps_well_formed(self@, event@);
            }
            crate::laws::step_advances(self@, event@);
        }
        match self.phase {
            Phase::Idle => match event {
                Event::Begin => self.begin(),
                _ => self.fail(RepipeError::UnexpectedEvent),
            },
            Phase::Requirements => match event {
                Event::ToolsProbed { spruce, jq, fly } => self.on_tools(spruce, jq, fly),
                _ => self.fail(RepipeError::UnexpectedEvent),
            },
            Phase::Settings => match event {
                Event::SettingsProbed { candidate_exists, fallback_exists } => self.on_settings(
                    candidate_exists,
                    fallback_exists,
                ),
                _ => self.fail(RepipeError::UnexpectedEvent),
            },
            Phase::ScriptProbe(script) => match event {
                Event::ScriptProbed { exists, executable } => self.on_script_probed(
                    script,
                    exists,
                    executable,
                ),
                _ => self.fail(RepipeError::UnexpectedEvent),
            },
            Phase::ScriptRun(script) => match event {
                Event::ScriptFinished { success } => self.on_script_finished(script, success),
                Event::LaunchFailed => self.on_script_finished(script, false),
                _ => self.fail(RepipeError::UnexpectedEvent),
            },
            Phase::Scan => match event {
                Event::PipelineScanned { base_exists, files } => self.on_scan(base_exists, files),
                _ => self.fail(RepipeError::UnexpectedEvent),
            },
            Phase::Merge => match event {
                Event::MergeFinished { success, output, diagnostics } => self.on_merge(
                    success,
                    output,
                    diagnostics,
                ),
                Event::LaunchFailed => self.fail(
                    RepipeError::RequiredToolMissing { tool: Tool::Spruce },
                ),
                _ => self.fail(RepipeError::UnexpectedEvent),
            },
            Phase::Persist => match event {
                Event::Written { success } => self.on_persisted(success),
                _ => self.fail(RepipeError::UnexpectedEvent),
            },
            Phase::PersistDebug => match event {
                Event::Written { success } => self.on_debug_persisted(success),
                _ => self.fail(RepipeError::UnexpectedEvent),
            },
            Phase::Metadata => match event {
                Event::MetadataExtracted { metadata } => self.on_metadata(metadata),
                Event::LaunchFailed => self.fail(
                    RepipeError::RequiredToolMissing { tool: Tool::Spruce },
                ),
                _ => self.fail(RepipeError::UnexpectedEvent),
            },
            Phase::CredentialsProbe => match event {
                Event::CredentialsProbed { home, named, local } => self.on_credentials_probed(
                    home,
                    named,
                    local,
                ),
                _ => self.fail(RepipeError::UnexpectedEvent),
            },
            Phase::CredentialsRead => match event {
                Event::CredentialsLoaded { contents } => self.on_credentials(contents),
                _ => self.fail(RepipeError::UnexpectedEvent),
            },
            Phase::Remote(call) => match event {
                Event::RemoteFinished { status } => self.on_remote(call, status),
                Event::LaunchFailed => self.fail(
                    RepipeError::RequiredToolMissing { tool: Tool::Fly },
                ),
                _ => self.fail(RepipeError::UnexpectedEvent),
            },
            Phase::DryRun => match event {
                Event::Printed => self.after_dispatch(),
                _ => self.fail(RepipeError::UnexpectedEvent),
            },
            Phase::Browser => match event {
                Event::BrowserOpened { success } => self.on_browser(success),
                _ => self.fail(RepipeError::UnexpectedEvent),
            },
            Phase::Address => match event {
                Event::Printed => self.wrap_up(),
                _ => self.fail(RepipeError::UnexpectedEvent),
            },
            Phase::Cleanup => self.finish(),
            Phase::Done => Action::Halt,
        }
    }
}

} // verus!
