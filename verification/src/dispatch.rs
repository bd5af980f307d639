//! What is asked of the remote orchestrator, and in which order.

use vstd::prelude::*;
use crate::error::RemoteCall;
use crate::merge::deploy_artifact;
use crate::options::{Mode, RepipeOptions, RepipeOptionsView};

verus! {

/// The arguments of one remote call.
pub open spec fn call_arguments(
    call: RemoteCall,
    target: Seq<char>,
    pipeline: Seq<char>,
    options: RepipeOptionsView,
) -> Seq<Seq<char>> {
    let head = seq!["--target"@, target, call.spec_operation()];
    match call {
        RemoteCall::Validate => head + (if options.strict() {
            seq!["--strict"@]
        } else {
            Seq::empty()
        }) + seq!["--config"@, deploy_artifact()],
        RemoteCall::SetPipeline => head + seq![
            "--pipeline"@,
            pipeline,
            "--config"@,
            deploy_artifact(),
        ] + (if options.yes {
            seq!["--non-interactive"@]
        } else {
            Seq::empty()
        }),
        _ => head + seq!["--pipeline"@, pipeline],
    }
}

/// The first remote call of a mode, if it has one.
pub open spec fn first_call(mode: Mode) -> Option<RemoteCall> {
    match mode {
        Mode::Validate => Some(RemoteCall::Validate),
        Mode::DryRun => None,
        Mode::Apply => Some(RemoteCall::SetPipeline),
    }
}

/// The remote call that follows `call`, if one does: after the pipeline is
/// set it is paused or unpaused, and after that exposed or hidden.
pub open spec fn next_call(call: RemoteCall, pause: bool, exposed: bool) -> Option<RemoteCall> {
    match call {
        RemoteCall::SetPipeline => Some(
            if pause {
                RemoteCall::Pause
            } else {
                RemoteCall::Unpause
            },
        ),
        RemoteCall::Pause | RemoteCall::Unpause => Some(
            if exposed {
                RemoteCall::Expose
            } else {
                RemoteCall::Hide
            },
        ),
        _ => None,
    }
}

/// All remote calls of a command, in their order.
pub open spec fn remote_plan(options: RepipeOptionsView, metadata_exposed: Option<bool>) -> Seq<
    RemoteCall,
> {
    match options.mode() {
        Mode::Validate => seq![RemoteCall::Validate],
        Mode::DryRun => Seq::empty(),
        Mode::Apply => seq![
            RemoteCall::SetPipeline,
            if options.pause {
                RemoteCall::Pause
            } else {
                RemoteCall::Unpause
            },
            if options.exposed(metadata_exposed) {
                RemoteCall::Expose
            } else {
                RemoteCall::Hide
            },
        ],
    }
}

/// In validate mode nothing is asked of the orchestrator that changes
/// anything there.
pub proof fn validate_plan_is_read_only(
    options: RepipeOptionsView,
    metadata_exposed: Option<bool>,
)
    requires
        options.validate > 0,
    ensures
        forall|i: int|
            0 <= i < remote_plan(options, metadata_exposed).len() ==> !(#[trigger] remote_plan(
                options,
                metadata_exposed,
            )[i]).spec_mutates(),
{
}

/// The first remote call of a mode, if it has one.
pub fn first_remote_call(mode: Mode) -> (r: Option<RemoteCall>)
    ensures
        r == first_call(mode),
{
    match mode {
        Mode::Validate => Some(RemoteCall::Validate),
        Mode::DryRun => None,
        Mode::Apply => Some(RemoteCall::SetPipeline),
    }
}

/// The remote call that follows `call`, if one does.
pub fn next_remote_call(call: RemoteCall, pause: bool, exposed: bool) -> (r: Option<RemoteCall>)
    ensures
        r == next_call(call, pause, exposed),
{
    match call {
        RemoteCall::SetPipeline => Some(
            if pause {
                RemoteCall::Pause
            } else {
                RemoteCall::Unpause
            },
        ),
        RemoteCall::Pause | RemoteCall::Unpause => Some(
            if exposed {
                RemoteCall::Expose
            } else {
                RemoteCall::Hide
            },
        ),
        _ => None,
    }
}

/// All remote calls of a command, in their order: one validation in
/// validate mode; none in a dry run; else the pipeline is set, then paused
/// or unpaused, then exposed or hidden.
pub fn plan_remote_calls(options: &RepipeOptions, metadata_exposed: Option<bool>) -> (r: Vec<
    RemoteCall,
>)
    ensures
        r@ == remote_plan(options@, metadata_exposed),
{
    let mut out: Vec<RemoteCall> = Vec::new();
    let exposed = options.exposed(metadata_exposed);
    let call = first_remote_call(options.mode());
    if let Some(first) = call {
        out.push(first);
        if let Some(second) = next_remote_call(first, options.pause, exposed) {
            out.push(second);
            if let Some(third) = next_remote_call(second, options.pause, exposed) {
                out.push(third);
            }
        }
    }
    assert(out@ =~= remote_plan(options@, metadata_exposed));
    out
}

/// The arguments with which the orchestrator's program is run for `call`.
pub fn remote_arguments(call: RemoteCall, target: &str, pipeline: &str, options: &RepipeOptions) -> (r:
    Vec<String>)
    ensures
        r.deep_view() == call_arguments(call, target@, pipeline@, options@),
{
    let mut out: Vec<String> = Vec::new();
    out.push("--target".to_owned());
    out.push(target.to_owned());
    out.push(call.operation().to_owned());
    let ghost head = seq!["--target"@, target@, call.spec_operation()];
    assert(out.deep_view() =~= head);
    match call {
        RemoteCall::Validate => {
            if options.strict() {
                out.push("--strict".to_owned());
            }
            out.push("--config".to_owned());
            out.push(".deploy.yml".to_owned());
        },
        RemoteCall::SetPipeline => {
            out.push("--pipeline".to_owned());
            out.push(pipeline.to_owned());
            out.push("--config".to_owned());
            out.push(".deploy.yml".to_owned());
            if options.yes {
                out.push("--non-interactive".to_owned());
            }
        },
        _ => {
            out.push("--pipeline".to_owned());
            out.push(pipeline.to_owned());
        },
    }
    assert(out.deep_view() =~= call_arguments(call, target@, pipeline@, options@));
    out
}

} // verus!
