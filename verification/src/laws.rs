//! What holds of every run, proved from the definitions that the
//! contracts of the executable functions use.

use vstd::prelude::*;
use crate::pipeline::{
    failure_of, initial_state, is_terminal, next_state, pending_action, run, ActionView, EventView,
    PipelineErrorView, StateView,
};
use crate::request::{BuildRequestView, DistArgsView};
use crate::resolve::{dist_dir_path, package_choice};
use crate::stage::{js_destination, wasm_destination, BuildResultView, StagingOutcomeView};
use crate::workspace::WorkspaceView;

verus! {

/// An explicit package name is the choice, whatever the workspace holds.
pub proof fn lemma_explicit_package_wins(name: Seq<char>, first: WorkspaceView, second: WorkspaceView)
    ensures
        package_choice(Some(name), first) == Some(name),
        package_choice(Some(name), first) == package_choice(Some(name), second),
{
}

/// Without an explicit name the choice is the workspace's root package, and
/// there is a choice exactly when the workspace has one.
pub proof fn lemma_root_package_is_default(workspace: WorkspaceView)
    ensures
        package_choice(None, workspace) == workspace.root_package,
        package_choice(None, workspace) is None <==> workspace.root_package is None,
{
}

/// The distribution directory depends on the four inputs alone: two
/// results for the same inputs are the same path.
pub proof fn lemma_dist_dir_is_determined(
    override_dir: Option<Seq<char>>,
    workspace_root: Seq<char>,
    dir_name: Option<Seq<char>>,
    package_name: Seq<char>,
    first: Seq<char>,
    second: Seq<char>,
)
    requires
        first == dist_dir_path(override_dir, workspace_root, dir_name, package_name),
        second == dist_dir_path(override_dir, workspace_root, dir_name, package_name),
    ensures
        first == second,
{
}

/// Where the whole directory is overridden, the result is the override:
/// neither the directory name nor anything else has an effect.
pub proof fn lemma_override_takes_precedence(
    override_dir: Seq<char>,
    workspace_root: Seq<char>,
    other_root: Seq<char>,
    dir_name: Option<Seq<char>>,
    other_dir_name: Option<Seq<char>>,
    package_name: Seq<char>,
    other_package_name: Seq<char>,
)
    ensures
        dist_dir_path(Some(override_dir), workspace_root, dir_name, package_name) == override_dir,
        dist_dir_path(Some(override_dir), workspace_root, dir_name, package_name) == dist_dir_path(
            Some(override_dir),
            other_root,
            other_dir_name,
            other_package_name,
        ),
{
}

/// A run that is over stays as it is, whatever is reported to it.
pub proof fn lemma_terminal_states_absorb(state: StateView, event: EventView)
    requires
        is_terminal(state),
    ensures
        next_state(state, event) == state,
{
}

/// Whether the optimizer can still be asked for in a run that stands in
/// `state`.
pub open spec fn may_optimize(state: StateView) -> bool {
    match state {
        StateView::PathResolved { request, .. } => request.release,
        StateView::Built { .. } => true,
        _ => false,
    }
}

/// A state from which the optimizer cannot be asked for leads only to
/// such states.
pub proof fn lemma_no_optimizer_is_preserved(state: StateView, events: Seq<EventView>)
    requires
        !may_optimize(state),
    ensures
        !may_optimize(run(state, events)),
    decreases events.len(),
{
    if events.len() > 0 {
        lemma_no_optimizer_is_preserved(state, events.drop_last());
    }
}

/// In development mode the optimizer is never asked for: no state that a
/// run reaches, whatever is reported to it, waits for the optimizer.
pub proof fn lemma_dev_run_never_optimizes(args: DistArgsView, workspace: WorkspaceView, events: Seq<EventView>)
    requires
        args.dev,
    ensures
        !(pending_action(run(initial_state(args, workspace), events)) is Optimize),
{
    lemma_no_optimizer_is_preserved(initial_state(args, workspace), events);
}

/// A successful release build is followed by the optimizer, on the built
/// binary and with the fixed levels; a successful development build is
/// followed by the inspection of the untouched binary.
pub proof fn lemma_build_decides_optimization(request: BuildRequestView, dist_dir: Seq<char>, artifacts: BuildResultView)
    ensures
        ({
            let built = next_state(
                StateView::PathResolved { request, dist_dir },
                EventView::BuildFinished(Ok(artifacts)),
            );
            if request.release {
                pending_action(built) == (ActionView::Optimize { wasm_path: artifacts.wasm_path, level: 3, shrink_level: 3 })
            } else {
                pending_action(built) == (ActionView::MeasureSize { path: artifacts.wasm_path })
            }
        }),
{
}

/// The two relocations are independent. Once the directory exists, the
/// binary is moved to `app.wasm`, then the script to `app.js`, whatever
/// became of the binary; the run then ends in success, and its outcome
/// holds for each file the failure that was reported for it, or none.
pub proof fn lemma_relocations_are_isolated(
    dist_dir: Seq<char>,
    artifacts: BuildResultView,
    wasm_result: Result<(), Seq<char>>,
    js_result: Result<(), Seq<char>>,
)
    ensures
        ({
            let ready = StateView::DirectoryReady { dist_dir, artifacts };
            let after_wasm = next_state(ready, EventView::Relocated(wasm_result));
            let after_js = next_state(after_wasm, EventView::Relocated(js_result));
            &&& pending_action(ready) == (ActionView::Relocate {
                from: artifacts.wasm_path,
                to: wasm_destination(dist_dir),
            })
            &&& pending_action(after_wasm) == (ActionView::Relocate {
                from: artifacts.js_path,
                to: js_destination(dist_dir),
            })
            &&& after_js == (StateView::Done {
                outcome: StagingOutcomeView {
                    wasm_failure: failure_of(wasm_result),
                    js_failure: failure_of(js_result),
                },
            })
            &&& pending_action(after_js) == (ActionView::Exit { success: true })
        }),
{
}

/// A run fails only for a fatal cause: a failed build while the build is
/// awaited, a failed optimizer while the optimizer is awaited, an
/// unreadable size while the size is awaited, or a directory that could
/// not be created while the directory is awaited. The error holds the
/// reported reason. A relocation never makes a run fail.
pub proof fn lemma_abort_has_fatal_cause(state: StateView, event: EventView)
    requires
        !(state is Aborted),
        next_state(state, event) is Aborted,
    ensures
        !(event is Relocated),
        match next_state(state, event)->error {
            PipelineErrorView::Configuration(_) => false,
            PipelineErrorView::Build { detail } => state is PathResolved && event == EventView::BuildFinished(
                Err(detail),
            ),
            PipelineErrorView::Optimize { detail } => state is Built && event == EventView::OptimizeFinished(
                Err(detail),
            ),
            PipelineErrorView::Inspect { detail } => (state is Optimized || state is OptimizationSkipped) && event
                == EventView::SizeMeasured(Err(detail)),
            PipelineErrorView::Staging { detail } => state is Measured && event == EventView::DirectoryCreated(
                Err(detail),
            ),
        },
{
}

/// Staging is always completed once the outside work before it succeeds:
/// after a successful build, a successful optimizer in release mode, a
/// measured size and a created directory, the run ends in success
/// whatever the two relocations report.
pub proof fn lemma_staging_is_reached(
    request: BuildRequestView,
    dist_dir: Seq<char>,
    artifacts: BuildResultView,
    bytes: u64,
    wasm_result: Result<(), Seq<char>>,
    js_result: Result<(), Seq<char>>,
)
    ensures
        ({
            let built = next_state(
                StateView::PathResolved { request, dist_dir },
                EventView::BuildFinished(Ok(artifacts)),
            );
            let prepared = if request.release {
                next_state(built, EventView::OptimizeFinished(Ok(())))
            } else {
                built
            };
            let measured = next_state(prepared, EventView::SizeMeasured(Ok(bytes)));
            let ready = next_state(measured, EventView::DirectoryCreated(Ok(())));
            let after_wasm = next_state(ready, EventView::Relocated(wasm_result));
            let after_js = next_state(after_wasm, EventView::Relocated(js_result));
            &&& prepared is Optimized <==> request.release
            &&& prepared is OptimizationSkipped <==> !request.release
            &&& ready == (StateView::DirectoryReady { dist_dir, artifacts })
            &&& after_js == (StateView::Done {
                outcome: StagingOutcomeView {
                    wasm_failure: failure_of(wasm_result),
                    js_failure: failure_of(js_result),
                },
            })
        }),
{
}

} // verus!
