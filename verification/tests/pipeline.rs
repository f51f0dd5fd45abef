use bevy_wasm_pack::pipeline::{
    begin, Action, Event, PipelineError, PipelineState, Step, OPTIMIZATION_LEVEL, SHRINK_LEVEL,
};
use bevy_wasm_pack::report::{Diagnostic, Severity};
use bevy_wasm_pack::request::{BuildRequest, DistArgs};
use bevy_wasm_pack::resolve::ConfigurationError;
use bevy_wasm_pack::stage::{BuildResult, StagingOutcome};
use bevy_wasm_pack::workspace::WorkspaceMetadata;

fn workspace() -> WorkspaceMetadata {
    WorkspaceMetadata::new("/ws".to_string(), Some("app".to_string()))
}

fn no_flags() -> DistArgs {
    DistArgs { package: None, dir_name: None, dist_dir: None, dev: false }
}

fn artifacts() -> BuildResult {
    BuildResult { wasm_path: "/tmp/build/app_bg.wasm".to_string(), js_path: "/tmp/build/app.js".to_string() }
}

fn info(text: &str) -> Diagnostic {
    Diagnostic { severity: Severity::Info, text: text.to_string() }
}

fn error(text: &str) -> Diagnostic {
    Diagnostic { severity: Severity::Error, text: text.to_string() }
}

fn relocate(from: &str, to: &str) -> Action {
    Action::Relocate { from: from.to_string(), to: to.to_string() }
}

fn failed(detail: &str) -> Result<(), String> {
    Err(detail.to_string())
}

/// Feeds the events in order and returns the last state with every action
/// that was pending on the way, the first one included.
fn drive(start: PipelineState, events: Vec<Event>) -> (PipelineState, Vec<Action>) {
    let mut actions = vec![start.next_action()];
    let mut state = start;
    for event in events {
        state = state.advance(event).state;
        actions.push(state.next_action());
    }
    (state, actions)
}

fn ready(dist_dir: &str) -> PipelineState {
    PipelineState::DirectoryReady { dist_dir: dist_dir.to_string(), artifacts: artifacts() }
}

#[test]
fn optimizer_levels_are_fixed() {
    assert_eq!(OPTIMIZATION_LEVEL, 3);
    assert_eq!(SHRINK_LEVEL, 3);
}

#[test]
fn run_starts_with_the_build_of_the_root_package() {
    let Step { state, diagnostics } = begin(&no_flags(), &workspace());
    let request =
        BuildRequest { package_name: "app".to_string(), release: true, dir_name: None, dist_dir_override: None };
    assert_eq!(state, PipelineState::PathResolved { request, dist_dir: "/ws/dist/app".to_string() });
    assert_eq!(diagnostics, vec![info("Generating package: app...")]);
    assert_eq!(state.next_action(), Action::Build { package_name: "app".to_string(), release: true });
    assert!(!state.finished());
}

#[test]
fn run_without_a_package_fails_at_once() {
    let bare = WorkspaceMetadata::new("/ws".to_string(), None);
    let Step { state, diagnostics } = begin(&no_flags(), &bare);
    let error = PipelineError::Configuration(ConfigurationError::NoRootPackage);
    assert_eq!(state, PipelineState::Aborted { error });
    assert_eq!(diagnostics, vec![]);
    assert_eq!(state.next_action(), Action::Exit { success: false });
    assert!(state.finished());
}

#[test]
fn root_package_without_flags_is_optimized_and_staged() {
    let events = vec![
        Event::BuildFinished(Ok(artifacts())),
        Event::OptimizeFinished(Ok(())),
        Event::SizeMeasured(Ok(2048)),
        Event::DirectoryCreated(Ok(())),
        Event::Relocated(Ok(())),
        Event::Relocated(Ok(())),
    ];
    let (state, actions) = drive(begin(&no_flags(), &workspace()).state, events);
    let expected = vec![
        Action::Build { package_name: "app".to_string(), release: true },
        Action::Optimize { wasm_path: "/tmp/build/app_bg.wasm".to_string(), level: 3, shrink_level: 3 },
        Action::MeasureSize { path: "/tmp/build/app_bg.wasm".to_string() },
        Action::CreateDirectory { path: "/ws/dist/app".to_string() },
        relocate("/tmp/build/app_bg.wasm", "/ws/dist/app/app.wasm"),
        relocate("/tmp/build/app.js", "/ws/dist/app/app.js"),
        Action::Exit { success: true },
    ];
    assert_eq!(actions, expected);
    assert_eq!(state, PipelineState::Done { outcome: StagingOutcome { wasm_failure: None, js_failure: None } });
    assert!(state.finished());
}

#[test]
fn explicit_package_with_dir_name_is_staged_below_dist() {
    let args = DistArgs {
        package: Some("widgets".to_string()),
        dir_name: Some("site".to_string()),
        dist_dir: None,
        dev: false,
    };
    let events = vec![
        Event::BuildFinished(Ok(artifacts())),
        Event::OptimizeFinished(Ok(())),
        Event::SizeMeasured(Ok(2048)),
        Event::DirectoryCreated(Ok(())),
        Event::Relocated(Ok(())),
        Event::Relocated(Ok(())),
    ];
    let (state, actions) = drive(begin(&args, &workspace()).state, events);
    assert_eq!(actions[0], Action::Build { package_name: "widgets".to_string(), release: true });
    assert_eq!(actions[3], Action::CreateDirectory { path: "/ws/dist/site".to_string() });
    assert_eq!(actions[4], relocate("/tmp/build/app_bg.wasm", "/ws/dist/site/app.wasm"));
    assert_eq!(actions[5], relocate("/tmp/build/app.js", "/ws/dist/site/app.js"));
    assert_eq!(state, PipelineState::Done { outcome: StagingOutcome { wasm_failure: None, js_failure: None } });
}

#[test]
fn dev_run_never_asks_for_the_optimizer() {
    let args = DistArgs { package: None, dir_name: None, dist_dir: None, dev: true };
    let events = vec![
        Event::BuildFinished(Ok(artifacts())),
        Event::SizeMeasured(Ok(2048)),
        Event::DirectoryCreated(Ok(())),
        Event::Relocated(Ok(())),
        Event::Relocated(Ok(())),
    ];
    let (state, actions) = drive(begin(&args, &workspace()).state, events);
    let expected = vec![
        Action::Build { package_name: "app".to_string(), release: false },
        Action::MeasureSize { path: "/tmp/build/app_bg.wasm".to_string() },
        Action::CreateDirectory { path: "/ws/dist/app".to_string() },
        relocate("/tmp/build/app_bg.wasm", "/ws/dist/app/app.wasm"),
        relocate("/tmp/build/app.js", "/ws/dist/app/app.js"),
        Action::Exit { success: true },
    ];
    assert_eq!(actions, expected);
    assert!(actions.iter().all(|action| !matches!(action, Action::Optimize { .. })));
    assert_eq!(state, PipelineState::Done { outcome: StagingOutcome { wasm_failure: None, js_failure: None } });
}

#[test]
fn dev_build_skips_the_optimizer_state() {
    let args = DistArgs { package: None, dir_name: None, dist_dir: None, dev: true };
    let built = begin(&args, &workspace()).state.advance(Event::BuildFinished(Ok(artifacts())));
    let expected =
        PipelineState::OptimizationSkipped { dist_dir: "/ws/dist/app".to_string(), artifacts: artifacts() };
    assert_eq!(built.state, expected);
    assert_eq!(built.diagnostics, vec![]);
}

#[test]
fn dev_run_ignores_a_report_from_the_optimizer() {
    let args = DistArgs { package: None, dir_name: None, dist_dir: None, dev: true };
    let events = vec![Event::BuildFinished(Ok(artifacts())), Event::OptimizeFinished(failed("boom"))];
    let (state, actions) = drive(begin(&args, &workspace()).state, events);
    let expected =
        PipelineState::OptimizationSkipped { dist_dir: "/ws/dist/app".to_string(), artifacts: artifacts() };
    assert_eq!(state, expected);
    assert_eq!(actions[2], Action::MeasureSize { path: "/tmp/build/app_bg.wasm".to_string() });
}

#[test]
fn override_directory_receives_the_files() {
    let args = DistArgs {
        package: None,
        dir_name: Some("site".to_string()),
        dist_dir: Some("/srv/www".to_string()),
        dev: true,
    };
    let events = vec![Event::BuildFinished(Ok(artifacts())), Event::SizeMeasured(Ok(1)), Event::DirectoryCreated(Ok(()))];
    let (state, actions) = drive(begin(&args, &workspace()).state, events);
    assert_eq!(actions[2], Action::CreateDirectory { path: "/srv/www".to_string() });
    assert_eq!(state.next_action(), relocate("/tmp/build/app_bg.wasm", "/srv/www/app.wasm"));
}

#[test]
fn failed_build_ends_the_run() {
    let step = begin(&no_flags(), &workspace()).state.advance(Event::BuildFinished(Err("no such target".to_string())));
    let error = PipelineError::Build { detail: "no such target".to_string() };
    assert_eq!(step.state, PipelineState::Aborted { error });
    assert_eq!(step.diagnostics, vec![]);
    assert_eq!(step.state.next_action(), Action::Exit { success: false });
}

#[test]
fn failed_optimizer_ends_the_run() {
    let events = vec![Event::BuildFinished(Ok(artifacts())), Event::OptimizeFinished(failed("wasm-opt crashed"))];
    let (state, actions) = drive(begin(&no_flags(), &workspace()).state, events);
    let error = PipelineError::Optimize { detail: "wasm-opt crashed".to_string() };
    assert_eq!(state, PipelineState::Aborted { error });
    assert_eq!(actions[2], Action::Exit { success: false });
}

#[test]
fn unreadable_size_ends_the_run() {
    let skipped = PipelineState::OptimizationSkipped { dist_dir: "/d".to_string(), artifacts: artifacts() };
    let optimized = PipelineState::Optimized { dist_dir: "/d".to_string(), artifacts: artifacts() };
    let error = PipelineState::Aborted { error: PipelineError::Inspect { detail: "gone".to_string() } };
    assert_eq!(skipped.advance(Event::SizeMeasured(Err("gone".to_string()))).state, error);
    assert_eq!(optimized.advance(Event::SizeMeasured(Err("gone".to_string()))).state, error);
}

#[test]
fn measured_size_is_shown_before_the_directory_is_made() {
    let optimized = PipelineState::Optimized { dist_dir: "/ws/dist/app".to_string(), artifacts: artifacts() };
    let step = optimized.advance(Event::SizeMeasured(Ok(1536)));
    let expected = PipelineState::Measured { dist_dir: "/ws/dist/app".to_string(), artifacts: artifacts() };
    assert_eq!(step.state, expected);
    assert_eq!(step.diagnostics, vec![info("File size: 1.5 KiB"), info("Creating dist dir: /ws/dist/app")]);
}

#[test]
fn failed_directory_creation_ends_the_run() {
    let measured = PipelineState::Measured { dist_dir: "/ws/dist/app".to_string(), artifacts: artifacts() };
    let step = measured.advance(Event::DirectoryCreated(failed("read-only file system")));
    let error = PipelineError::Staging { detail: "read-only file system".to_string() };
    assert_eq!(step.state, PipelineState::Aborted { error });
    assert_eq!(step.diagnostics, vec![]);
}

#[test]
fn failed_js_relocation_leaves_the_wasm_staged() {
    let events = vec![Event::Relocated(Ok(())), Event::Relocated(failed("cross-device link"))];
    let (state, actions) = drive(ready("/ws/dist/app"), events);
    let outcome = StagingOutcome { wasm_failure: None, js_failure: Some("cross-device link".to_string()) };
    assert!(outcome.wasm_staged() && !outcome.js_staged());
    assert_eq!(state, PipelineState::Done { outcome });
    assert_eq!(actions[2], Action::Exit { success: true });
}

#[test]
fn failed_wasm_relocation_does_not_stop_the_js() {
    let step = ready("/ws/dist/app").advance(Event::Relocated(failed("denied")));
    assert_eq!(step.diagnostics, vec![error("Error renaming: denied")]);
    assert_eq!(step.state.next_action(), relocate("/tmp/build/app.js", "/ws/dist/app/app.js"));
    let last = step.state.advance(Event::Relocated(Ok(())));
    let outcome = StagingOutcome { wasm_failure: Some("denied".to_string()), js_failure: None };
    assert_eq!(last.state, PipelineState::Done { outcome });
    assert_eq!(last.diagnostics, vec![]);
}

#[test]
fn two_failed_relocations_still_end_in_success() {
    let first = ready("/d").advance(Event::Relocated(failed("one")));
    let second = first.state.advance(Event::Relocated(failed("two")));
    assert_eq!(second.diagnostics, vec![error("Error renaming: two")]);
    let outcome = StagingOutcome { wasm_failure: Some("one".to_string()), js_failure: Some("two".to_string()) };
    assert!(!outcome.fully_staged());
    assert_eq!(second.state, PipelineState::Done { outcome });
    assert_eq!(second.state.next_action(), Action::Exit { success: true });
}

#[test]
fn event_that_is_not_awaited_changes_nothing() {
    let start = begin(&no_flags(), &workspace()).state;
    let step = start.advance(Event::Relocated(failed("early")));
    assert_eq!(step.state, begin(&no_flags(), &workspace()).state);
    assert_eq!(step.diagnostics, vec![]);
    let measured = PipelineState::Measured { dist_dir: "/d".to_string(), artifacts: artifacts() };
    let same = PipelineState::Measured { dist_dir: "/d".to_string(), artifacts: artifacts() };
    assert_eq!(measured.advance(Event::SizeMeasured(Ok(7))).state, same);
}

#[test]
fn finished_run_stays_finished() {
    let outcome = StagingOutcome { wasm_failure: None, js_failure: None };
    let done = PipelineState::Done { outcome };
    let step = done.advance(Event::BuildFinished(Err("late".to_string())));
    assert_eq!(step.state, PipelineState::Done { outcome: StagingOutcome { wasm_failure: None, js_failure: None } });
    let aborted = PipelineState::Aborted { error: PipelineError::Build { detail: "x".to_string() } };
    let still = aborted.advance(Event::Relocated(Ok(())));
    assert_eq!(still.state, PipelineState::Aborted { error: PipelineError::Build { detail: "x".to_string() } });
    assert!(still.state.finished());
}
