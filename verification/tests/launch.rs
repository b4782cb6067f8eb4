use worker_supervisor::launch::{abort_diagnostic, AbortCause, Action, Event, Launch, Stage};

fn run(events: &[Event]) -> (Launch, Vec<Action>) {
    let mut launch = Launch::new();
    let mut trace = Vec::new();
    for event in events {
        trace.extend(launch.handle(*event));
    }
    (launch, trace)
}

fn count(trace: &[Action], wanted: Action) -> usize {
    trace.iter().filter(|action| **action == wanted).count()
}

fn position(trace: &[Action], wanted: Action) -> usize {
    trace.iter().position(|action| *action == wanted).unwrap()
}

const UP_TO_SPAWN: [Event; 7] = [
    Event::Start,
    Event::RootLocated,
    Event::ScriptResolved,
    Event::SplashPresented,
    Event::InterpreterResolved,
    Event::DependenciesChecked { missing: false },
    Event::WorkerSpawned,
];

const ALL_EVENTS: [Event; 15] = [
    Event::Start,
    Event::RootLocated,
    Event::CurrentDirUnavailable,
    Event::ParentUnavailable,
    Event::ScriptResolved,
    Event::ScriptUnresolved,
    Event::SplashPresented,
    Event::InterpreterResolved,
    Event::DependenciesChecked { missing: false },
    Event::DependenciesChecked { missing: true },
    Event::InstallFinished,
    Event::WorkerSpawned,
    Event::SpawnFailed,
    Event::GateResolved { ready: true },
    Event::GateResolved { ready: false },
];

#[test]
fn new_run_is_idle() {
    let launch = Launch::new();
    assert_eq!(launch.stage(), Stage::Idle);
    assert!(!launch.is_ready());
}

#[test]
fn run_with_satisfied_dependencies_goes_straight_to_the_spawn() {
    let (launch, trace) = run(&UP_TO_SPAWN);
    assert_eq!(
        trace,
        vec![
            Action::LocateRoot,
            Action::ResolveScript,
            Action::PresentSplash,
            Action::ResolveInterpreter,
            Action::CheckDependencies,
            Action::SpawnWorker,
            Action::StartWorkers,
        ]
    );
    assert_eq!(launch.stage(), Stage::AwaitingReadiness);
    assert!(!launch.is_ready());
}

#[test]
fn run_with_missing_dependencies_installs_before_the_spawn() {
    let (launch, trace) = run(&[
        Event::Start,
        Event::RootLocated,
        Event::ScriptResolved,
        Event::SplashPresented,
        Event::InterpreterResolved,
        Event::DependenciesChecked { missing: true },
    ]);
    assert_eq!(launch.stage(), Stage::Installing);
    assert_eq!(trace.last(), Some(&Action::InstallRequirements));
    assert_eq!(count(&trace, Action::SpawnWorker), 0);
    let mut launch = launch;
    assert_eq!(launch.handle(Event::InstallFinished), vec![Action::SpawnWorker]);
    assert_eq!(launch.stage(), Stage::Spawning);
}

#[test]
fn ready_gate_hands_over_from_splash_to_main() {
    let (mut launch, _) = run(&UP_TO_SPAWN);
    let actions = launch.handle(Event::GateResolved { ready: true });
    assert_eq!(
        actions,
        vec![
            Action::ReportGate { ready: true },
            Action::MarkReady,
            Action::HideSplash,
            Action::ShowMain
        ]
    );
    assert_eq!(launch.stage(), Stage::Ready);
    assert!(launch.is_ready());
}

#[test]
fn timed_out_gate_still_hands_over() {
    let (mut launch, _) = run(&UP_TO_SPAWN);
    let actions = launch.handle(Event::GateResolved { ready: false });
    assert_eq!(
        actions,
        vec![
            Action::ReportGate { ready: false },
            Action::MarkReady,
            Action::HideSplash,
            Action::ShowMain
        ]
    );
    assert!(launch.is_ready());
}

#[test]
fn handoff_happens_exactly_once() {
    let mut events = UP_TO_SPAWN.to_vec();
    events.push(Event::GateResolved { ready: true });
    events.push(Event::GateResolved { ready: true });
    events.push(Event::GateResolved { ready: false });
    events.extend(ALL_EVENTS);
    let (launch, trace) = run(&events);
    assert!(launch.is_ready());
    assert_eq!(count(&trace, Action::MarkReady), 1);
    assert_eq!(count(&trace, Action::HideSplash), 1);
    assert_eq!(count(&trace, Action::ShowMain), 1);
    assert_eq!(count(&trace, Action::SpawnWorker), 1);
    assert!(position(&trace, Action::MarkReady) < position(&trace, Action::HideSplash));
    assert!(position(&trace, Action::MarkReady) < position(&trace, Action::ShowMain));
    assert_eq!(trace.len(), 11);
}

#[test]
fn handoff_needs_the_gate() {
    for cut in 0..UP_TO_SPAWN.len() {
        let (launch, trace) = run(&UP_TO_SPAWN[..cut]);
        assert!(!launch.is_ready());
        assert_eq!(count(&trace, Action::MarkReady), 0);
        assert_eq!(count(&trace, Action::HideSplash), 0);
        assert_eq!(count(&trace, Action::ShowMain), 0);
        let (launch, trace) = {
            let mut events = UP_TO_SPAWN[..cut].to_vec();
            events.push(Event::GateResolved { ready: true });
            run(&events)
        };
        assert!(!launch.is_ready());
        assert_eq!(count(&trace, Action::ShowMain), 0);
    }
}

#[test]
fn unresolved_script_aborts_before_any_process_or_surface() {
    let (launch, trace) = run(&[Event::Start, Event::RootLocated, Event::ScriptUnresolved]);
    assert_eq!(launch.stage(), Stage::Aborted(AbortCause::ScriptUnresolved));
    assert_eq!(
        trace,
        vec![
            Action::LocateRoot,
            Action::ResolveScript,
            Action::Abort(AbortCause::ScriptUnresolved)
        ]
    );
}

#[test]
fn aborted_run_ignores_everything() {
    let mut events = vec![Event::Start, Event::RootLocated, Event::ScriptUnresolved];
    events.extend(ALL_EVENTS);
    events.extend(UP_TO_SPAWN);
    let (launch, trace) = run(&events);
    assert_eq!(launch.stage(), Stage::Aborted(AbortCause::ScriptUnresolved));
    assert_eq!(trace.len(), 3);
    assert!(!launch.is_ready());
}

#[test]
fn missing_working_directory_aborts() {
    let (launch, trace) = run(&[Event::Start, Event::CurrentDirUnavailable]);
    assert_eq!(launch.stage(), Stage::Aborted(AbortCause::NoCurrentDir));
    assert_eq!(trace, vec![Action::LocateRoot, Action::Abort(AbortCause::NoCurrentDir)]);
}

#[test]
fn missing_parent_directory_aborts() {
    let (launch, trace) = run(&[Event::Start, Event::ParentUnavailable]);
    assert_eq!(launch.stage(), Stage::Aborted(AbortCause::NoProjectRoot));
    assert_eq!(trace, vec![Action::LocateRoot, Action::Abort(AbortCause::NoProjectRoot)]);
}

#[test]
fn failed_spawn_aborts_without_handoff() {
    let mut events = UP_TO_SPAWN[..6].to_vec();
    events.push(Event::SpawnFailed);
    events.push(Event::GateResolved { ready: true });
    let (launch, trace) = run(&events);
    assert_eq!(launch.stage(), Stage::Aborted(AbortCause::SpawnFailed));
    assert_eq!(trace.last(), Some(&Action::Abort(AbortCause::SpawnFailed)));
    assert_eq!(count(&trace, Action::StartWorkers), 0);
    assert_eq!(count(&trace, Action::ShowMain), 0);
    assert_eq!(count(&trace, Action::SpawnWorker), 1);
}

#[test]
fn event_out_of_turn_changes_nothing() {
    for cut in 0..=UP_TO_SPAWN.len() {
        let (mut launch, _) = run(&UP_TO_SPAWN[..cut]);
        let stage = launch.stage();
        for event in ALL_EVENTS {
            let mut probe = Launch::new();
            for seen in &UP_TO_SPAWN[..cut] {
                probe.handle(*seen);
            }
            let actions = probe.handle(event);
            if probe.stage() == stage {
                assert!(actions.is_empty());
            } else {
                assert!(!actions.is_empty());
            }
        }
        assert!(launch.handle(Event::Start).is_empty() || cut == 0);
    }
}

#[test]
fn diagnostics_name_what_went_wrong() {
    assert_eq!(abort_diagnostic(AbortCause::NoCurrentDir), "Couldn't get current dir");
    assert_eq!(abort_diagnostic(AbortCause::NoProjectRoot), "Couldn't get project root");
    assert_eq!(
        abort_diagnostic(AbortCause::ScriptUnresolved),
        "Could not resolve api_server.py path"
    );
    assert_eq!(abort_diagnostic(AbortCause::SpawnFailed), "Failed to start Suhana backend");
}
