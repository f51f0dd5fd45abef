//! One run as a state machine: the caller performs the pending action,
//! reports its result as an event, and the machine decides what follows.
//!
//! [`begin`] takes a run from its start through the choice of the package
//! and of the distribution directory. From there each state waits for one
//! piece of outside work: the build, the optimizer (release mode only), the
//! size of the binary, the directory, and the two relocations that make up
//! staging.
//!
//! A failed build, optimization, inspection or directory creation ends the
//! run. A failed relocation is recorded and shown, and the run goes on.

use vstd::prelude::*;
use crate::report::{
    byte_size_text, creating_dist_dir, creating_dist_dir_line, file_size_line, file_size_of,
    generating_package, generating_package_line, lines_of, relocation_failed,
    relocation_failed_line, Diagnostic, DiagnosticView,
};
use crate::request::{request_dist_dir, request_for, BuildRequest, BuildRequestView, DistArgs, DistArgsView};
use crate::resolve::ConfigurationError;
use crate::stage::{
    js_destination, js_target, wasm_destination, wasm_target, BuildResult, BuildResultView,
    StagingOutcome, StagingOutcomeView,
};
use crate::text::{owned, text_of};
use crate::workspace::{WorkspaceMetadata, WorkspaceView};

verus! {

/// How much the optimizer works on speed.
pub const OPTIMIZATION_LEVEL: u32 = 3;

/// How much the optimizer works on size.
pub const SHRINK_LEVEL: u32 = 3;

/// Why a run ended without staging anything.
#[derive(Debug, PartialEq, Eq)]
pub enum PipelineError {
    /// No package could be chosen.
    Configuration(ConfigurationError),
    /// The build failed.
    Build { detail: String },
    /// The optimizer failed.
    Optimize { detail: String },
    /// The size of the produced binary could not be read.
    Inspect { detail: String },
    /// The distribution directory could not be created.
    Staging { detail: String },
}

/// The mathematical model of [`PipelineError`].
pub enum PipelineErrorView {
    Configuration(ConfigurationError),
    Build { detail: Seq<char> },
    Optimize { detail: Seq<char> },
    Inspect { detail: Seq<char> },
    Staging { detail: Seq<char> },
}

impl View for PipelineError {
    type V = PipelineErrorView;

    open spec fn view(&self) -> PipelineErrorView {
        match *self {
            PipelineError::Configuration(error) => PipelineErrorView::Configuration(error),
            PipelineError::Build { detail } => PipelineErrorView::Build { detail: detail@ },
            PipelineError::Optimize { detail } => PipelineErrorView::Optimize { detail: detail@ },
            PipelineError::Inspect { detail } => PipelineErrorView::Inspect { detail: detail@ },
            PipelineError::Staging { detail } => PipelineErrorView::Staging { detail: detail@ },
        }
    }
}

/// How far a run has come. Every state but the last two waits for the
/// result of one piece of outside work, its pending action.
#[derive(Debug, PartialEq, Eq)]
pub enum PipelineState {
    /// Package and directory are chosen; the build is awaited.
    PathResolved { request: BuildRequest, dist_dir: String },
    /// A release build succeeded; the optimizer is awaited.
    Built { dist_dir: String, artifacts: BuildResult },
    /// The optimizer succeeded; the size of the binary is awaited.
    Optimized { dist_dir: String, artifacts: BuildResult },
    /// A development build succeeded and is left as it is; the size of the
    /// binary is awaited.
    OptimizationSkipped { dist_dir: String, artifacts: BuildResult },
    /// The size is known; the distribution directory is awaited.
    Measured { dist_dir: String, artifacts: BuildResult },
    /// The directory exists; the relocation of the binary is awaited.
    DirectoryReady { dist_dir: String, artifacts: BuildResult },
    /// The binary was handled; the relocation of the loader script is
    /// awaited.
    WasmRelocated { dist_dir: String, js_path: String, wasm_failure: Option<String> },
    /// Staging is over; the run succeeded.
    Done { outcome: StagingOutcome },
    /// The run failed.
    Aborted { error: PipelineError },
}

/// The mathematical model of [`PipelineState`].
pub enum StateView {
    PathResolved { request: BuildRequestView, dist_dir: Seq<char> },
    Built { dist_dir: Seq<char>, artifacts: BuildResultView },
    Optimized { dist_dir: Seq<char>, artifacts: BuildResultView },
    OptimizationSkipped { dist_dir: Seq<char>, artifacts: BuildResultView },
    Measured { dist_dir: Seq<char>, artifacts: BuildResultView },
    DirectoryReady { dist_dir: Seq<char>, artifacts: BuildResultView },
    WasmRelocated { dist_dir: Seq<char>, js_path: Seq<char>, wasm_failure: Option<Seq<char>> },
    Done { outcome: StagingOutcomeView },
    Aborted { error: PipelineErrorView },
}

impl View for PipelineState {
    type V = StateView;

    open spec fn view(&self) -> StateView {
        match *self {
            PipelineState::PathResolved { request, dist_dir } => StateView::PathResolved {
                request: request@,
                dist_dir: dist_dir@,
            },
            PipelineState::Built { dist_dir, artifacts } => StateView::Built {
                dist_dir: dist_dir@,
                artifacts: artifacts@,
            },
            PipelineState::Optimized { dist_dir, artifacts } => StateView::Optimized {
                dist_dir: dist_dir@,
                artifacts: artifacts@,
            },
            PipelineState::OptimizationSkipped { dist_dir, artifacts } => StateView::OptimizationSkipped {
                dist_dir: dist_dir@,
                artifacts: artifacts@,
            },
            PipelineState::Measured { dist_dir, artifacts } => StateView::Measured {
                dist_dir: dist_dir@,
                artifacts: artifacts@,
            },
            PipelineState::DirectoryReady { dist_dir, artifacts } => StateView::DirectoryReady {
                dist_dir: dist_dir@,
                artifacts: artifacts@,
            },
            PipelineState::WasmRelocated { dist_dir, js_path, wasm_failure } => StateView::WasmRelocated {
                dist_dir: dist_dir@,
                js_path: js_path@,
                wasm_failure: text_of(wasm_failure),
            },
            PipelineState::Done { outcome } => StateView::Done { outcome: outcome@ },
            PipelineState::Aborted { error } => StateView::Aborted { error: error@ },
        }
    }
}

/// The result of one piece of outside work. A failure carries its reason
/// as text.
#[derive(Debug, PartialEq, Eq)]
pub enum Event {
    /// The build ended.
    BuildFinished(Result<BuildResult, String>),
    /// The optimizer ended.
    OptimizeFinished(Result<(), String>),
    /// The size of the binary was asked for.
    SizeMeasured(Result<u64, String>),
    /// The creation of the distribution directory was tried.
    DirectoryCreated(Result<(), String>),
    /// The relocation of one file was tried.
    Relocated(Result<(), String>),
}

/// The mathematical model of [`Event`].
pub enum EventView {
    BuildFinished(Result<BuildResultView, Seq<char>>),
    OptimizeFinished(Result<(), Seq<char>>),
    SizeMeasured(Result<u64, Seq<char>>),
    DirectoryCreated(Result<(), Seq<char>>),
    Relocated(Result<(), Seq<char>>),
}

/// The model of a result that carries nothing on success.
pub open spec fn done_or(result: Result<(), String>) -> Result<(), Seq<char>> {
    match result {
        Ok(_) => Ok(()),
        Err(detail) => Err(detail@),
    }
}

impl View for Event {
    type V = EventView;

    open spec fn view(&self) -> EventView {
        match *self {
            Event::BuildFinished(Ok(artifacts)) => EventView::BuildFinished(Ok(artifacts@)),
            Event::BuildFinished(Err(detail)) => EventView::BuildFinished(Err(detail@)),
            Event::OptimizeFinished(result) => EventView::OptimizeFinished(done_or(result)),
            Event::SizeMeasured(Ok(bytes)) => EventView::SizeMeasured(Ok(bytes)),
            Event::SizeMeasured(Err(detail)) => EventView::SizeMeasured(Err(detail@)),
            Event::DirectoryCreated(result) => EventView::DirectoryCreated(done_or(result)),
            Event::Relocated(result) => EventView::Relocated(done_or(result)),
        }
    }
}

/// The outside work that a state waits for.
#[derive(Debug, PartialEq, Eq)]
pub enum Action {
    /// Build the package, with the release profile or without.
    Build { package_name: String, release: bool },
    /// Shrink the binary in place.
    Optimize { wasm_path: String, level: u32, shrink_level: u32 },
    /// Read the size of the binary.
    MeasureSize { path: String },
    /// Create the directory and its missing parents; an existing one is
    /// no failure.
    CreateDirectory { path: String },
    /// Move a file to its staged place.
    Relocate { from: String, to: String },
    /// End the process, with success or without.
    Exit { success: bool },
}

/// The mathematical model of [`Action`].
pub enum ActionView {
    Build { package_name: Seq<char>, release: bool },
    Optimize { wasm_path: Seq<char>, level: u32, shrink_level: u32 },
    MeasureSize { path: Seq<char> },
    CreateDirectory { path: Seq<char> },
    Relocate { from: Seq<char>, to: Seq<char> },
    Exit { success: bool },
}

impl View for Action {
    type V = ActionView;

    open spec fn view(&self) -> ActionView {
        match *self {
            Action::Build { package_name, release } => ActionView::Build { package_name: package_name@, release },
            Action::Optimize { wasm_path, level, shrink_level } => ActionView::Optimize {
                wasm_path: wasm_path@,
                level,
                shrink_level,
            },
            Action::MeasureSize { path } => ActionView::MeasureSize { path: path@ },
            Action::CreateDirectory { path } => ActionView::CreateDirectory { path: path@ },
            Action::Relocate { from, to } => ActionView::Relocate { from: from@, to: to@ },
            Action::Exit { success } => ActionView::Exit { success },
        }
    }
}

/// A state together with the lines that reaching it produced.
#[derive(Debug, PartialEq, Eq)]
pub struct Step {
    pub state: PipelineState,
    pub diagnostics: Vec<Diagnostic>,
}

/// The reason of a failure, if the result is one.
pub open spec fn failure_of(result: Result<(), Seq<char>>) -> Option<Seq<char>> {
    match result {
        Ok(_) => None,
        Err(detail) => Some(detail),
    }
}

/// The state in which a run starts: the build is awaited where a package
/// can be chosen, else the run has failed already.
pub open spec fn initial_state(args: DistArgsView, workspace: WorkspaceView) -> StateView {
    match request_for(args, workspace) {
        Some(request) => StateView::PathResolved { request, dist_dir: request_dist_dir(request, workspace) },
        None => StateView::Aborted { error: PipelineErrorView::Configuration(ConfigurationError::NoRootPackage) },
    }
}

/// The lines that open a run.
pub open spec fn initial_lines(args: DistArgsView, workspace: WorkspaceView) -> Seq<DiagnosticView> {
    match request_for(args, workspace) {
        Some(request) => seq![generating_package_line(request.package_name)],
        None => seq![],
    }
}

/// The state that follows when `event` arrives in `state`. An event that
/// the state does not wait for changes nothing.
pub open spec fn next_state(state: StateView, event: EventView) -> StateView {
    match (state, event) {
        (StateView::PathResolved { request, dist_dir }, EventView::BuildFinished(Ok(artifacts))) => {
            if request.release {
                StateView::Built { dist_dir, artifacts }
            } else {
                StateView::OptimizationSkipped { dist_dir, artifacts }
            }
        },
        (StateView::PathResolved { .. }, EventView::BuildFinished(Err(detail))) => StateView::Aborted {
            error: PipelineErrorView::Build { detail },
        },
        (StateView::Built { dist_dir, artifacts }, EventView::OptimizeFinished(Ok(_))) => StateView::Optimized {
            dist_dir,
            artifacts,
        },
        (StateView::Built { .. }, EventView::OptimizeFinished(Err(detail))) => StateView::Aborted {
            error: PipelineErrorView::Optimize { detail },
        },
        (StateView::Optimized { dist_dir, artifacts }, EventView::SizeMeasured(Ok(_))) => StateView::Measured {
            dist_dir,
            artifacts,
        },
        (StateView::OptimizationSkipped { dist_dir, artifacts }, EventView::SizeMeasured(Ok(_))) => StateView::Measured {
            dist_dir,
            artifacts,
        },
        (StateView::Optimized { .. }, EventView::SizeMeasured(Err(detail))) => StateView::Aborted {
            error: PipelineErrorView::Inspect { detail },
        },
        (StateView::OptimizationSkipped { .. }, EventView::SizeMeasured(Err(detail))) => StateView::Aborted {
            error: PipelineErrorView::Inspect { detail },
        },
        (StateView::Measured { dist_dir, artifacts }, EventView::DirectoryCreated(Ok(_))) => StateView::DirectoryReady {
            dist_dir,
            artifacts,
        },
        (StateView::Measured { .. }, EventView::DirectoryCreated(Err(detail))) => StateView::Aborted {
            error: PipelineErrorView::Staging { detail },
        },
        (StateView::DirectoryReady { dist_dir, artifacts }, EventView::Relocated(result)) => StateView::WasmRelocated {
            dist_dir,
            js_path: artifacts.js_path,
            wasm_failure: failure_of(result),
        },
        (StateView::WasmRelocated { wasm_failure, .. }, EventView::Relocated(result)) => StateView::Done {
            outcome: StagingOutcomeView { wasm_failure, js_failure: failure_of(result) },
        },
        (state, _) => state,
    }
}

/// The lines that are shown when `event` arrives in `state`.
pub open spec fn lines_on(state: StateView, event: EventView) -> Seq<DiagnosticView> {
    match (state, event) {
        (StateView::Optimized { dist_dir, .. }, EventView::SizeMeasured(Ok(bytes))) => seq![
            file_size_line(byte_size_text(bytes)),
            creating_dist_dir_line(dist_dir),
        ],
        (StateView::OptimizationSkipped { dist_dir, .. }, EventView::SizeMeasured(Ok(bytes))) => seq![
            file_size_line(byte_size_text(bytes)),
            creating_dist_dir_line(dist_dir),
        ],
        (StateView::DirectoryReady { .. }, EventView::Relocated(Err(detail))) => seq![relocation_failed_line(detail)],
        (StateView::WasmRelocated { .. }, EventView::Relocated(Err(detail))) => seq![relocation_failed_line(detail)],
        _ => seq![],
    }
}

/// The outside work that `state` waits for.
pub open spec fn pending_action(state: StateView) -> ActionView {
    match state {
        StateView::PathResolved { request, .. } => ActionView::Build {
            package_name: request.package_name,
            release: request.release,
        },
        StateView::Built { artifacts, .. } => ActionView::Optimize {
            wasm_path: artifacts.wasm_path,
            level: OPTIMIZATION_LEVEL,
            shrink_level: SHRINK_LEVEL,
        },
        StateView::Optimized { artifacts, .. } => ActionView::MeasureSize { path: artifacts.wasm_path },
        StateView::OptimizationSkipped { artifacts, .. } => ActionView::MeasureSize { path: artifacts.wasm_path },
        StateView::Measured { dist_dir, .. } => ActionView::CreateDirectory { path: dist_dir },
        StateView::DirectoryReady { dist_dir, artifacts } => ActionView::Relocate {
            from: artifacts.wasm_path,
            to: wasm_destination(dist_dir),
        },
        StateView::WasmRelocated { dist_dir, js_path, .. } => ActionView::Relocate {
            from: js_path,
            to: js_destination(dist_dir),
        },
        StateView::Done { .. } => ActionView::Exit { success: true },
        StateView::Aborted { .. } => ActionView::Exit { success: false },
    }
}

/// Whether a run in `state` is over.
pub open spec fn is_terminal(state: StateView) -> bool {
    state is Done || state is Aborted
}

/// The state that a run reaches from `state` when `events` arrive in order.
pub open spec fn run(state: StateView, events: Seq<EventView>) -> StateView
    decreases events.len(),
{
    if events.len() == 0 {
        state
    } else {
        next_state(run(state, events.drop_last()), events.last())
    }
}

/// The reason of a failed relocation, kept for the outcome.
fn failure_detail(result: Result<(), String>) -> (failure: Option<String>)
    ensures
        text_of(failure) == failure_of(done_or(result)),
{
    match result {
        Ok(_) => None,
        Err(detail) => Some(detail),
    }
}

/// The lines for a relocation that ended with `result`: one error line for
/// a failure, none for a success.
fn relocation_lines(result: &Result<(), String>) -> (diagnostics: Vec<Diagnostic>)
    ensures
        lines_of(diagnostics@) == match done_or(*result) {
            Ok(_) => Seq::<DiagnosticView>::empty(),
            Err(detail) => seq![relocation_failed_line(detail)],
        },
{
    let mut diagnostics: Vec<Diagnostic> = Vec::new();
    match result {
        Ok(_) => {
            assert(lines_of(diagnostics@) =~= Seq::<DiagnosticView>::empty());
        },
        Err(detail) => {
            diagnostics.push(relocation_failed(detail.as_str()));
            assert(lines_of(diagnostics@) =~= seq![relocation_failed_line(detail@)]);
        },
    }
    diagnostics
}

/// The state after a measured size, with the two progress lines that
/// precede the creation of the directory.
fn measured(dist_dir: String, artifacts: BuildResult, bytes: u64) -> (step: Step)
    ensures
        step.state@ == (StateView::Measured { dist_dir: dist_dir@, artifacts: artifacts@ }),
        lines_of(step.diagnostics@) == seq![
            file_size_line(byte_size_text(bytes)),
            creating_dist_dir_line(dist_dir@),
        ],
{
    let mut diagnostics: Vec<Diagnostic> = Vec::new();
    diagnostics.push(file_size_of(bytes));
    diagnostics.push(creating_dist_dir(dist_dir.as_str()));
    assert(lines_of(diagnostics@) =~= seq![
        file_size_line(byte_size_text(bytes)),
        creating_dist_dir_line(dist_dir@),
    ]);
    Step { state: PipelineState::Measured { dist_dir, artifacts }, diagnostics }
}

/// A state reached without a line to show.
fn quiet(state: PipelineState) -> (step: Step)
    ensures
        step.state == state,
        lines_of(step.diagnostics@) == Seq::<DiagnosticView>::empty(),
{
    let diagnostics: Vec<Diagnostic> = Vec::new();
    assert(lines_of(diagnostics@) =~= Seq::<DiagnosticView>::empty());
    Step { state, diagnostics }
}

/// Starts a run: chooses the package, announces it, and computes the
/// distribution directory. The run waits for the build afterwards, or has
/// failed for want of a package.
pub fn begin(args: &DistArgs, workspace: &WorkspaceMetadata) -> (step: Step)
    ensures
        step.state@ == initial_state(args@, workspace@),
        lines_of(step.diagnostics@) == initial_lines(args@, workspace@),
{
    match BuildRequest::from_args(args, workspace) {
        Ok(request) => {
            let mut diagnostics: Vec<Diagnostic> = Vec::new();
            diagnostics.push(generating_package(request.package_name.as_str()));
            assert(lines_of(diagnostics@) =~= seq![generating_package_line(request@.package_name)]);
            let dist_dir = request.dist_dir(workspace);
            Step { state: PipelineState::PathResolved { request, dist_dir }, diagnostics }
        },
        Err(error) => quiet(PipelineState::Aborted { error: PipelineError::Configuration(error) }),
    }
}

impl PipelineState {
    /// Takes the result of the pending action and moves on. An event that
    /// this state does not wait for leaves it as it is.
    pub fn advance(self, event: Event) -> (step: Step)
        ensures
            step.state@ == next_state(self@, event@),
            lines_of(step.diagnostics@) == lines_on(self@, event@),
    {
        match (self, event) {
            (PipelineState::PathResolved { request, dist_dir }, Event::BuildFinished(Ok(artifacts))) => {
                if request.release {
                    quiet(PipelineState::Built { dist_dir, artifacts })
                } else {
                    quiet(PipelineState::OptimizationSkipped { dist_dir, artifacts })
                }
            },
            (PipelineState::PathResolved { .. }, Event::BuildFinished(Err(detail))) => quiet(
                PipelineState::Aborted { error: PipelineError::Build { detail } },
            ),
            (PipelineState::Built { dist_dir, artifacts }, Event::OptimizeFinished(Ok(_))) => quiet(
                PipelineState::Optimized { dist_dir, artifacts },
            ),
            (PipelineState::Built { .. }, Event::OptimizeFinished(Err(detail))) => quiet(
                PipelineState::Aborted { error: PipelineError::Optimize { detail } },
            ),
            (PipelineState::Optimized { dist_dir, artifacts }, Event::SizeMeasured(Ok(bytes))) => measured(
                dist_dir,
                artifacts,
                bytes,
            ),
            (PipelineState::OptimizationSkipped { dist_dir, artifacts }, Event::SizeMeasured(Ok(bytes))) => measured(
                dist_dir,
                artifacts,
                bytes,
            ),
            (PipelineState::Optimized { .. }, Event::SizeMeasured(Err(detail))) => quiet(
                PipelineState::Aborted { error: PipelineError::Inspect { detail } },
            ),
            (PipelineState::OptimizationSkipped { .. }, Event::SizeMeasured(Err(detail))) => quiet(
                PipelineState::Aborted { error: PipelineError::Inspect { detail } },
            ),
            (PipelineState::Measured { dist_dir, artifacts }, Event::DirectoryCreated(Ok(_))) => quiet(
                PipelineState::DirectoryReady { dist_dir, artifacts },
            ),
            (PipelineState::Measured { .. }, Event::DirectoryCreated(Err(detail))) => quiet(
                PipelineState::Aborted { error: PipelineError::Staging { detail } },
            ),
            (PipelineState::DirectoryReady { dist_dir, artifacts }, Event::Relocated(result)) => {
                let diagnostics = relocation_lines(&result);
                let state = PipelineState::WasmRelocated {
                    dist_dir,
                    js_path: artifacts.js_path,
                    wasm_failure: failure_detail(result),
                };
                Step { state, diagnostics }
            },
            (PipelineState::WasmRelocated { wasm_failure, .. }, Event::Relocated(result)) => {
                let diagnostics = relocation_lines(&result);
                let outcome = StagingOutcome { wasm_failure, js_failure: failure_detail(result) };
                Step { state: PipelineState::Done { outcome }, diagnostics }
            },
            (state, _) => quiet(state),
        }
    }

    /// The outside work that this state waits for.
    pub fn next_action(&self) -> (action: Action)
        ensures
            action@ == pending_action(self@),
    {
        match self {
            PipelineState::PathResolved { request, .. } => Action::Build {
                package_name: owned(request.package_name.as_str()),
                release: request.release,
            },
            PipelineState::Built { artifacts, .. } => Action::Optimize {
                wasm_path: owned(artifacts.wasm_path.as_str()),
                level: OPTIMIZATION_LEVEL,
                shrink_level: SHRINK_LEVEL,
            },
            PipelineState::Optimized { artifacts, .. } => Action::MeasureSize {
                path: owned(artifacts.wasm_path.as_str()),
            },
            PipelineState::OptimizationSkipped { artifacts, .. } => Action::MeasureSize {
                path: owned(artifacts.wasm_path.as_str()),
            },
            PipelineState::Measured { dist_dir, .. } => Action::CreateDirectory { path: owned(dist_dir.as_str()) },
            PipelineState::DirectoryReady { dist_dir, artifacts } => Action::Relocate {
                from: owned(artifacts.wasm_path.as_str()),
                to: wasm_target(dist_dir.as_str()),
            },
            PipelineState::WasmRelocated { dist_dir, js_path, .. } => Action::Relocate {
                from: owned(js_path.as_str()),
                to: js_target(dist_dir.as_str()),
            },
            PipelineState::Done { .. } => Action::Exit { success: true },
            PipelineState::Aborted { .. } => Action::Exit { success: false },
        }
    }

    /// Whether the run is over.
    pub fn finished(&self) -> (over: bool)
        ensures
            over == is_terminal(self@),
    {
        match self {
            PipelineState::Done { .. } => true,
            PipelineState::Aborted { .. } => true,
            _ => false,
        }
    }
}

} // verus!
