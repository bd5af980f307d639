//! What holds of every course that a command can take.
//!
//! A course is a sequence of events, whatever the driver may answer. The
//! statements here are about all of them.

use vstd::prelude::*;
use crate::command::{phase_rank, resolved_phase, winding_down, CommandView};
use crate::dispatch::call_arguments;
use crate::error::{RemoteCall, RepipeErrorView};
use crate::merge::deploy_artifact;
use crate::meta::supplied;
use crate::options::RepipeOptionsView;
use crate::protocol::{ActionView, EventView, Phase};

verus! {

/// The state after `events`, and the requests that the command made on the
/// way, one for each event.
pub open spec fn run(start: CommandView, events: Seq<EventView>) -> (CommandView, Seq<ActionView>)
    decreases events.len(),
{
    if events.len() == 0 {
        (start, Seq::empty())
    } else {
        let (before, actions) = run(start, events.drop_last());
        let (after, action) = before.step(events.last());
        (after, actions.push(action))
    }
}

/// The event brings metadata that supplies a target.
pub open spec fn supplies_target(event: EventView) -> bool {
    event matches EventView::MetadataExtracted { metadata: Some(m) } && supplied(m.target)
}

/// The request removes the deploy artifact.
pub open spec fn removes_artifact(action: ActionView) -> bool {
    action matches ActionView::Cleanup { files, .. } && files.contains(deploy_artifact())
}

/// The request writes the deploy artifact.
pub open spec fn writes_artifact(action: ActionView) -> bool {
    action matches ActionView::WriteFile { path, .. } && path == deploy_artifact()
}

/// A command makes one request for each event, and the requests made for
/// the first events do not depend on the later ones.
pub proof fn lemma_run_prefix(start: CommandView, events: Seq<EventView>, n: int)
    requires
        0 <= n <= events.len(),
    ensures
        run(start, events).1.len() == events.len(),
        run(start, events.take(n)).1 == run(start, events).1.take(n),
    decreases events.len(),
{
    if events.len() == 0 {
        assert(events.take(n) =~= events);
        assert(run(start, events).1.take(n) =~= run(start, events).1);
    } else if n == events.len() {
        lemma_run_prefix(start, events.drop_last(), n - 1);
        assert(events.take(n) =~= events);
        assert(run(start, events).1.take(n) =~= run(start, events).1);
    } else {
        lemma_run_prefix(start, events.drop_last(), n);
        assert(events.drop_last().take(n) =~= events.take(n));
        assert(run(start, events).1.take(n) =~= run(start, events.drop_last()).1.take(n));
    }
}

/// A command that was not started yet is well-formed.
pub proof fn initial_is_well_formed(
    options: RepipeOptionsView,
    base_dir: Seq<char>,
    environment_target: Option<Seq<char>>,
)
    ensures
        CommandView::initial(options, base_dir, environment_target).well_formed(),
{
}

/// No event takes a command out of the well-formed states.
#[verifier::rlimit(40)]
pub proof fn step_keeps_well_formed(state: CommandView, event: EventView)
    requires
        state.well_formed(),
    ensures
        state.step(event).0.well_formed(),
{
    match state.phase {
        Phase::Idle => {},
        Phase::Requirements => {},
        Phase::Settings => {},
        Phase::ScriptProbe(_) => {},
        Phase::ScriptRun(_) => {},
        Phase::Scan => {},
        Phase::Merge => {},
        Phase::Persist => {},
        Phase::PersistDebug => {},
        Phase::Metadata => {},
        Phase::CredentialsProbe => {},
        Phase::CredentialsRead => {},
        Phase::Remote(_) => {},
        Phase::DryRun => {},
        Phase::Browser => {},
        Phase::Address => {},
        Phase::Cleanup => {},
        Phase::Done => {},
    }
}

/// Every event takes a command further, until it has finished: no step is
/// taken twice, and none is gone back to.
#[verifier::rlimit(40)]
pub proof fn step_advances(state: CommandView, event: EventView)
    ensures
        state.step(event).0.phase == Phase::Done || phase_rank(state.step(event).0.phase)
            > phase_rank(state.phase),
{
    match state.phase {
        Phase::Idle => {},
        Phase::Requirements => {},
        Phase::Settings => {},
        Phase::ScriptProbe(_) => {},
        Phase::ScriptRun(_) => {},
        Phase::Scan => {},
        Phase::Merge => {},
        Phase::Persist => {},
        Phase::PersistDebug => {},
        Phase::Metadata => {},
        Phase::CredentialsProbe => {},
        Phase::CredentialsRead => {},
        Phase::Remote(_) => {},
        Phase::DryRun => {},
        Phase::Browser => {},
        Phase::Address => {},
        Phase::Cleanup => {},
        Phase::Done => {},
    }
}

/// A command has finished after 19 events at the latest, whatever the
/// driver answers.
pub proof fn command_finishes(start: CommandView, events: Seq<EventView>)
    requires
        events.len() >= 19,
    ensures
        run(start, events).0.phase == Phase::Done,
{
    lemma_progress(start, events);
}

proof fn lemma_progress(start: CommandView, events: Seq<EventView>)
    ensures
        run(start, events).0.phase == Phase::Done || phase_rank(run(start, events).0.phase)
            >= events.len(),
    decreases events.len(),
{
    if events.len() > 0 {
        lemma_progress(start, events.drop_last());
        step_advances(run(start, events.drop_last()).0, events.last());
    }
}

/// A command that has finished asks for nothing more.
pub proof fn finished_command_halts(state: CommandView, event: EventView)
    requires
        state.phase == Phase::Done,
    ensures
        state.step(event) == (state, ActionView::Halt),
{
}

/// Every state that a command reaches is well-formed; so whenever its
/// target is resolved, the target and the pipeline's name are not empty.
pub proof fn reached_state_is_well_formed(start: CommandView, events: Seq<EventView>)
    requires
        start.well_formed(),
    ensures
        run(start, events).0.well_formed(),
        resolved_phase(run(start, events).0.phase) ==> run(start, events).0.target.len() > 0
            && run(start, events).0.pipeline.len() > 0,
    decreases events.len(),
{
    if events.len() > 0 {
        reached_state_is_well_formed(start, events.drop_last());
        step_keeps_well_formed(run(start, events.drop_last()).0, events.last());
    }
}

/// A step never changes what the user asked for, nor what the environment
/// selects.
#[verifier::rlimit(40)]
proof fn lemma_step_keeps_inputs(state: CommandView, event: EventView)
    ensures
        state.step(event).0.options == state.options,
        state.step(event).0.environment_target == state.environment_target,
        state.step(event).0.base_dir == state.base_dir,
{
    match state.phase {
        Phase::Idle => {},
        Phase::Requirements => {},
        Phase::Settings => {},
        Phase::ScriptProbe(_) => {},
        Phase::ScriptRun(_) => {},
        Phase::Scan => {},
        Phase::Merge => {},
        Phase::Persist => {},
        Phase::PersistDebug => {},
        Phase::Metadata => {},
        Phase::CredentialsProbe => {},
        Phase::CredentialsRead => {},
        Phase::Remote(_) => {},
        Phase::DryRun => {},
        Phase::Browser => {},
        Phase::Address => {},
        Phase::Cleanup => {},
        Phase::Done => {},
    }
}

/// What the user asked for, the CI directory and what the environment
/// selects stay the same for the whole of a command.
pub proof fn inputs_stay(start: CommandView, events: Seq<EventView>)
    ensures
        run(start, events).1.len() == events.len(),
        run(start, events).0.options == start.options,
        run(start, events).0.environment_target == start.environment_target,
        run(start, events).0.base_dir == start.base_dir,
    decreases events.len(),
{
    if events.len() > 0 {
        inputs_stay(start, events.drop_last());
        lemma_step_keeps_inputs(run(start, events.drop_last()).0, events.last());
    }
}

/// A step that asks for a remote call leaves the command waiting for that
/// call, and asks for it with the state's target and pipeline.
#[verifier::rlimit(40)]
proof fn lemma_step_remote(state: CommandView, event: EventView)
    requires
        state.step(event).1 is RunRemote,
    ensures
        ({
            let (after, action) = state.step(event);
            &&& after.phase == Phase::Remote(action->RunRemote_call)
            &&& action->RunRemote_program == after.options.fly_program()
            &&& action->RunRemote_arguments == call_arguments(
                action->RunRemote_call,
                after.target,
                after.pipeline,
                after.options,
            )
        }),
{
    match state.phase {
        Phase::Idle => {},
        Phase::Requirements => {},
        Phase::Settings => {},
        Phase::ScriptProbe(_) => {},
        Phase::ScriptRun(_) => {},
        Phase::Scan => {},
        Phase::Merge => {},
        Phase::Persist => {},
        Phase::PersistDebug => {},
        Phase::Metadata => {},
        Phase::CredentialsProbe => {},
        Phase::CredentialsRead => {},
        Phase::Remote(_) => {},
        Phase::DryRun => {},
        Phase::Browser => {},
        Phase::Address => {},
        Phase::Cleanup => {},
        Phase::Done => {},
    }
}

/// A remote call is made for a target and a pipeline that were resolved
/// from the metadata and the environment by the rules, and for nothing
/// else: neither is empty, and neither is made up.
pub proof fn remote_call_uses_resolved_names(start: CommandView, events: Seq<EventView>, i: int)
    requires
        start.well_formed(),
        0 <= i < events.len(),
        run(start, events).1[i] is RunRemote,
    ensures
        ({
            let state = run(start, events.take(i + 1)).0;
            let action = run(start, events).1[i];
            &&& state.meta is Some
            &&& state.meta.unwrap().resolve_target(start.environment_target) == Ok::<
                Seq<char>,
                RepipeErrorView,
            >(state.target)
            &&& state.meta.unwrap().resolve_pipeline() == Ok::<Seq<char>, RepipeErrorView>(
                state.pipeline,
            )
            &&& state.target.len() > 0
            &&& state.pipeline.len() > 0
            &&& action->RunRemote_arguments == call_arguments(
                action->RunRemote_call,
                state.target,
                state.pipeline,
                start.options,
            )
        }),
{
    let prefix = events.take(i + 1);
    lemma_run_prefix(start, events, i + 1);
    inputs_stay(start, prefix);
    reached_state_is_well_formed(start, prefix);
    assert(prefix.len() > 0);
    assert(run(start, prefix).1.last() == run(start, events).1[i]);
    lemma_step_remote(run(start, prefix.drop_last()).0, prefix.last());
}

/// Without a target from the environment or from the event, a step does
/// not get a command to where its target is resolved.
#[verifier::rlimit(40)]
proof fn lemma_step_untargeted(state: CommandView, event: EventView)
    requires
        !resolved_phase(state.phase),
        !supplied(state.environment_target),
        !supplies_target(event),
    ensures
        !resolved_phase(state.step(event).0.phase),
        !(state.step(event).1 is RunRemote),
{
    match state.phase {
        Phase::Idle => {},
        Phase::Requirements => {},
        Phase::Settings => {},
        Phase::ScriptProbe(_) => {},
        Phase::ScriptRun(_) => {},
        Phase::Scan => {},
        Phase::Merge => {},
        Phase::Persist => {},
        Phase::PersistDebug => {},
        Phase::Metadata => {},
        Phase::CredentialsProbe => {},
        Phase::CredentialsRead => {},
        Phase::Remote(_) => {},
        Phase::DryRun => {},
        Phase::Browser => {},
        Phase::Address => {},
        Phase::Cleanup => {},
        Phase::Done => {},
    }
}

proof fn lemma_untargeted(start: CommandView, events: Seq<EventView>)
    requires
        !resolved_phase(start.phase),
        !supplied(start.environment_target),
        forall|j: int| 0 <= j < events.len() ==> !supplies_target(#[trigger] events[j]),
    ensures
        run(start, events).1.len() == events.len(),
        !resolved_phase(run(start, events).0.phase),
        forall|i: int| 0 <= i < events.len() ==> !(#[trigger] run(start, events).1[i] is RunRemote),
    decreases events.len(),
{
    if events.len() > 0 {
        let shorter = events.drop_last();
        assert forall|j: int| 0 <= j < shorter.len() implies !supplies_target(
            #[trigger] shorter[j],
        ) by {
            assert(shorter[j] == events[j]);
        }
        lemma_untargeted(start, shorter);
        inputs_stay(start, shorter);
        assert(!supplies_target(events[events.len() - 1]));
        lemma_step_untargeted(run(start, shorter).0, events.last());
    }
}

/// Where neither the environment nor any metadata supplies a target, a
/// command never gets as far as a remote call.
pub proof fn no_target_no_remote_call(start: CommandView, events: Seq<EventView>, i: int)
    requires
        start.phase == Phase::Idle,
        !supplied(start.environment_target),
        forall|j: int| 0 <= j < events.len() ==> !supplies_target(#[trigger] events[j]),
        0 <= i < events.len(),
    ensures
        !(run(start, events).1[i] is RunRemote),
{
    lemma_untargeted(start, events);
}

/// The command is not in the middle of a remote call that changes
/// anything.
pub open spec fn only_validating(phase: Phase) -> bool {
    phase matches Phase::Remote(call) ==> call == RemoteCall::Validate
}

/// In validate mode a step asks for no remote call but a validation.
#[verifier::rlimit(40)]
proof fn lemma_step_validating(state: CommandView, event: EventView)
    requires
        state.options.validate > 0,
        only_validating(state.phase),
    ensures
        only_validating(state.step(event).0.phase),
        state.step(event).1 is RunRemote ==> state.step(event).1->RunRemote_call
            == RemoteCall::Validate,
{
    match state.phase {
        Phase::Idle => {},
        Phase::Requirements => {},
        Phase::Settings => {},
        Phase::ScriptProbe(_) => {},
        Phase::ScriptRun(_) => {},
        Phase::Scan => {},
        Phase::Merge => {},
        Phase::Persist => {},
        Phase::PersistDebug => {},
        Phase::Metadata => {},
        Phase::CredentialsProbe => {},
        Phase::CredentialsRead => {},
        Phase::Remote(_) => {},
        Phase::DryRun => {},
        Phase::Browser => {},
        Phase::Address => {},
        Phase::Cleanup => {},
        Phase::Done => {},
    }
}

proof fn lemma_validating(start: CommandView, events: Seq<EventView>)
    requires
        start.options.validate > 0,
        only_validating(start.phase),
    ensures
        run(start, events).1.len() == events.len(),
        only_validating(run(start, events).0.phase),
        forall|i: int|
            0 <= i < events.len() && (#[trigger] run(start, events).1[i]) is RunRemote ==> run(
                start,
                events,
            ).1[i]->RunRemote_call == RemoteCall::Validate,
    decreases events.len(),
{
    if events.len() > 0 {
        lemma_validating(start, events.drop_last());
        inputs_stay(start, events.drop_last());
        lemma_step_validating(run(start, events.drop_last()).0, events.last());
    }
}

/// In validate mode a command asks nothing of the orchestrator but to
/// validate: it never sets, pauses, unpauses, exposes or hides a pipeline.
pub proof fn validate_mode_is_read_only(start: CommandView, events: Seq<EventView>, i: int)
    requires
        start.phase == Phase::Idle,
        start.options.validate > 0,
        0 <= i < events.len(),
        run(start, events).1[i] is RunRemote,
    ensures
        run(start, events).1[i]->RunRemote_call == RemoteCall::Validate,
{
    lemma_validating(start, events);
}

/// Without the debug option, a step that ends the work asks for the
/// cleanup that removes the deploy artifact, and no step after that writes
/// the artifact again.
#[verifier::rlimit(40)]
proof fn lemma_step_cleaning(state: CommandView, event: EventView)
    requires
        !state.options.debug,
        state.phase != Phase::PersistDebug,
    ensures
        state.step(event).0.phase != Phase::PersistDebug,
        !winding_down(state.phase) && winding_down(state.step(event).0.phase)
            ==> removes_artifact(state.step(event).1),
        winding_down(state.phase) ==> winding_down(state.step(event).0.phase) && !writes_artifact(
            state.step(event).1,
        ),
{
    match state.phase {
        Phase::Idle => {},
        Phase::Requirements => {},
        Phase::Settings => {},
        Phase::ScriptProbe(_) => {},
        Phase::ScriptRun(_) => {},
        Phase::Scan => {},
        Phase::Merge => {},
        Phase::Persist => {},
        Phase::PersistDebug => {},
        Phase::Metadata => {},
        Phase::CredentialsProbe => {},
        Phase::CredentialsRead => {},
        Phase::Remote(_) => {},
        Phase::DryRun => {},
        Phase::Browser => {},
        Phase::Address => {},
        Phase::Cleanup => {},
        Phase::Done => {},
    }
    if !winding_down(state.phase) && winding_down(state.step(event).0.phase) {
        assert(state.cleanup_files()[0] == deploy_artifact());
    }
}

/// The artifact was removed at `j`, and not written again since.
spec fn cleaned_at(actions: Seq<ActionView>, j: int) -> bool {
    &&& 0 <= j < actions.len()
    &&& removes_artifact(actions[j])
    &&& forall|k: int| j <= k < actions.len() ==> !writes_artifact(#[trigger] actions[k])
}

proof fn lemma_cleaning(start: CommandView, events: Seq<EventView>)
    requires
        !winding_down(start.phase),
        start.phase != Phase::PersistDebug,
        !start.options.debug,
    ensures
        run(start, events).1.len() == events.len(),
        run(start, events).0.phase != Phase::PersistDebug,
        winding_down(run(start, events).0.phase) ==> exists|j: int|
            cleaned_at(run(start, events).1, j),
    decreases events.len(),
{
    if events.len() > 0 {
        let shorter = events.drop_last();
        lemma_cleaning(start, shorter);
        inputs_stay(start, shorter);
        let before = run(start, shorter).0;
        let earlier = run(start, shorter).1;
        let actions = run(start, events).1;
        let after = run(start, events).0;
        lemma_step_cleaning(before, events.last());
        assert(actions == earlier.push(before.step(events.last()).1));
        if winding_down(after.phase) {
            if winding_down(before.phase) {
                let j = choose|j: int| cleaned_at(earlier, j);
                assert forall|k: int| j <= k < actions.len() implies !writes_artifact(
                    #[trigger] actions[k],
                ) by {
                    if k < earlier.len() {
                        assert(actions[k] == earlier[k]);
                    }
                }
                assert(actions[j] == earlier[j]);
                assert(cleaned_at(actions, j));
            } else {
                assert(cleaned_at(actions, events.len() - 1));
            }
        }
    }
}

/// Unless the user asked to keep what was generated, a command that wrote
/// the deploy artifact and has finished has removed it afterwards, whether
/// it succeeded or failed in between.
pub proof fn finished_command_removed_artifact(start: CommandView, events: Seq<EventView>, i: int)
    requires
        start.phase == Phase::Idle,
        !start.options.debug,
        0 <= i < events.len(),
        writes_artifact(run(start, events).1[i]),
        run(start, events).0.phase == Phase::Done,
    ensures
        exists|j: int| i < j < events.len() && removes_artifact(#[trigger] run(start, events).1[j]),
{
    lemma_cleaning(start, events);
    let j = choose|j: int| cleaned_at(run(start, events).1, j);
    assert(i < j);
    assert(removes_artifact(run(start, events).1[j]));
}

/// With the debug option no step asks to remove the deploy artifact.
#[verifier::rlimit(40)]
proof fn lemma_step_keeping(state: CommandView, event: EventView)
    requires
        state.options.debug,
    ensures
        !removes_artifact(state.step(event).1),
{
    match state.phase {
        Phase::Idle => {},
        Phase::Requirements => {},
        Phase::Settings => {},
        Phase::ScriptProbe(_) => {},
        Phase::ScriptRun(_) => {},
        Phase::Scan => {},
        Phase::Merge => {},
        Phase::Persist => {},
        Phase::PersistDebug => {},
        Phase::Metadata => {},
        Phase::CredentialsProbe => {},
        Phase::CredentialsRead => {},
        Phase::Remote(_) => {},
        Phase::DryRun => {},
        Phase::Browser => {},
        Phase::Address => {},
        Phase::Cleanup => {},
        Phase::Done => {},
    }
}

proof fn lemma_keeping(start: CommandView, events: Seq<EventView>)
    requires
        start.options.debug,
    ensures
        run(start, events).1.len() == events.len(),
        forall|i: int| 0 <= i < events.len() ==> !removes_artifact(#[trigger] run(start, events).1[i]),
    decreases events.len(),
{
    if events.len() > 0 {
        lemma_keeping(start, events.drop_last());
        inputs_stay(start, events.drop_last());
        lemma_step_keeping(run(start, events.drop_last()).0, events.last());
    }
}

/// Where the user asked to keep what was generated, no request of the
/// command removes the deploy artifact.
pub proof fn debug_mode_keeps_artifact(start: CommandView, events: Seq<EventView>, i: int)
    requires
        start.options.debug,
        0 <= i < events.len(),
    ensures
        !removes_artifact(run(start, events).1[i]),
{
    lemma_keeping(start, events);
}

/// With the debug option a command that gets its merged pipeline written
/// ends there: it never reads metadata or credentials, and never calls the
/// orchestrator.
pub proof fn debug_mode_stops_after_merge(start: CommandView, events: Seq<EventView>)
    requires
        start.well_formed(),
        start.options.debug,
    ensures
        ({
            let phase = run(start, events).0.phase;
            phase != Phase::Metadata && !resolved_phase(phase)
        }),
{
    inputs_stay(start, events);
    reached_state_is_well_formed(start, events);
}

/// What a command asks of the merge tool, and what it writes once the tool
/// has run, depends on nothing but the files found, the settings file, what
/// the tool printed, and whether the user asked for the debug artifact: two
/// commands that agree on these make the same requests.
pub proof fn merge_is_repeatable(
    first: CommandView,
    second: CommandView,
    scanned: EventView,
    merged: EventView,
)
    requires
        first.phase == Phase::Scan,
        second.phase == Phase::Scan,
        first.settings_file == second.settings_file,
        first.options.debug == second.options.debug,
        scanned is PipelineScanned,
        merged is MergeFinished,
    ensures
        first.step(scanned).1 == second.step(scanned).1,
        first.step(scanned).0.step(merged).1 == second.step(scanned).0.step(merged).1,
{
}

/// The remote calls among the requests, in their order.
pub open spec fn remote_calls(actions: Seq<ActionView>) -> Seq<RemoteCall>
    decreases actions.len(),
{
    if actions.len() == 0 {
        Seq::empty()
    } else {
        let earlier = remote_calls(actions.drop_last());
        match actions.last() {
            ActionView::RunRemote { call, .. } => earlier.push(call),
            _ => earlier,
        }
    }
}

/// The plan of a command's remote calls, as its state gives it.
pub open spec fn plan_of(state: CommandView) -> Seq<RemoteCall> {
    crate::dispatch::remote_plan(state.options, state.declared_exposed())
}

/// How the remote calls made so far stand to the plan: none before the
/// target is validated; while a call is awaited, the plan up to that call;
/// all of them once the mode's work is done; and after a failure, some
/// first part of the plan.
pub open spec fn follows_plan(state: CommandView, calls: Seq<RemoteCall>) -> bool {
    let plan = plan_of(state);
    let partly = calls.len() <= plan.len() && calls == plan.take(calls.len() as int);
    match state.phase {
        Phase::Remote(call) => partly && calls.len() > 0 && plan[calls.len() - 1] == call,
        Phase::DryRun | Phase::Browser | Phase::Address => calls == plan,
        Phase::Cleanup => partly && (state.failure is None ==> calls == plan),
        Phase::Done => calls.len() == 0 || partly,
        _ => calls.len() == 0,
    }
}

#[verifier::rlimit(40)]
proof fn lemma_step_follows_plan(state: CommandView, event: EventView, calls: Seq<RemoteCall>)
    requires
        state.well_formed(),
        follows_plan(state, calls),
    ensures
        ({
            let (after, action) = state.step(event);
            let made = match action {
                ActionView::RunRemote { call, .. } => calls.push(call),
                _ => calls,
            };
            &&& follows_plan(after, made)
            &&& (action == (ActionView::Finish { failure: None }) && !state.options.debug)
                ==> made == plan_of(after)
        }),
{
    let (after, action) = state.step(event);
    let plan = plan_of(state);
    assert(plan.take(plan.len() as int) =~= plan);
    assert(plan_of(after).take(0) =~= Seq::<RemoteCall>::empty());
    if calls.len() == 0 {
        assert(calls =~= Seq::<RemoteCall>::empty());
    }
    match state.phase {
        Phase::Idle => {},
        Phase::Requirements => {},
        Phase::Settings => {},
        Phase::ScriptProbe(_) => {},
        Phase::ScriptRun(_) => {},
        Phase::Scan => {},
        Phase::Merge => {},
        Phase::Persist => {},
        Phase::PersistDebug => {},
        Phase::Metadata => {},
        Phase::CredentialsProbe => {},
        Phase::CredentialsRead => {
            if action is RunRemote {
                assert(plan_of(after) == plan);
                assert(calls.push(action->RunRemote_call) =~= plan.take(1));
            } else if after.phase == Phase::DryRun {
                assert(calls =~= plan_of(after));
            }
        },
        Phase::Remote(_) => {
            assert(plan_of(after) == plan);
            if action is RunRemote {
                assert(calls.push(action->RunRemote_call) =~= plan.take(calls.len() as int + 1));
            } else if after.failure is None {
                assert(plan.take(calls.len() as int) =~= plan);
            }
        },
        Phase::DryRun => {},
        Phase::Browser => {},
        Phase::Address => {},
        Phase::Cleanup => {},
        Phase::Done => {},
    }
}

proof fn lemma_follows_plan(start: CommandView, events: Seq<EventView>)
    requires
        start.well_formed(),
        start.phase == Phase::Idle,
    ensures
        run(start, events).1.len() == events.len(),
        run(start, events).0.well_formed(),
        follows_plan(run(start, events).0, remote_calls(run(start, events).1)),
        events.len() > 0 && !start.options.debug && run(start, events).1.last()
            == (ActionView::Finish { failure: None }) ==> remote_calls(run(start, events).1)
            == plan_of(run(start, events).0),
    decreases events.len(),
{
    if events.len() > 0 {
        let shorter = events.drop_last();
        lemma_follows_plan(start, shorter);
        inputs_stay(start, shorter);
        reached_state_is_well_formed(start, events);
        let actions = run(start, events).1;
        assert(actions.drop_last() =~= run(start, shorter).1);
        lemma_step_follows_plan(
            run(start, shorter).0,
            events.last(),
            remote_calls(run(start, shorter).1),
        );
    }
}

/// The remote calls that a command makes are those of its plan, in the
/// plan's order, and none is made twice: at any time the calls made so far
/// are a first part of the plan.
pub proof fn remote_calls_follow_plan(start: CommandView, events: Seq<EventView>)
    requires
        start.well_formed(),
        start.phase == Phase::Idle,
    ensures
        ({
            let (state, actions) = run(start, events);
            let calls = remote_calls(actions);
            calls.len() == 0 || (calls.len() <= plan_of(state).len() && calls == plan_of(
                state,
            ).take(calls.len() as int))
        }),
{
    lemma_follows_plan(start, events);
}

/// A command that finishes without a failure has made every remote call of
/// its plan, unless it stopped early to leave the debug artifact.
pub proof fn successful_command_made_every_call(start: CommandView, events: Seq<EventView>)
    requires
        start.well_formed(),
        start.phase == Phase::Idle,
        !start.options.debug,
        events.len() > 0,
        run(start, events).1.last() == (ActionView::Finish { failure: None }),
    ensures
        remote_calls(run(start, events).1) == plan_of(run(start, events).0),
{
    lemma_follows_plan(start, events);
}

} // verus!
