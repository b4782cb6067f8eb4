//! The order of a run, as a state machine.
//!
//! A run resolves its paths, presents the splash surface, settles the
//! interpreter and its dependencies, spawns the worker and waits for the
//! readiness gate. The shell feeds each observation in as an [`Event`] and
//! carries out the [`Action`]s it gets back, in order.

use vstd::prelude::*;

verus! {

/// Why a run stopped before the worker was up.
#[derive(Clone, Copy, Debug, PartialEq, Eq, Structural)]
pub enum AbortCause {
    /// The working directory could not be read.
    NoCurrentDir,
    /// The working directory has no parent to serve as project root.
    NoProjectRoot,
    /// The worker script's path could not be made canonical.
    ScriptUnresolved,
    /// The worker process could not be started.
    SpawnFailed,
}

/// How far a run has come.
#[derive(Clone, Copy, Debug, PartialEq, Eq, Structural)]
pub enum Stage {
    Idle,
    LocatingRoot,
    ResolvingScript,
    PresentingSplash,
    ResolvingInterpreter,
    CheckingDependencies,
    Installing,
    Spawning,
    AwaitingReadiness,
    /// The readiness flag is set and the main surface has taken over.
    Ready,
    Aborted(AbortCause),
}

/// What the shell observed.
#[derive(Clone, Copy, Debug, PartialEq, Eq, Structural)]
pub enum Event {
    Start,
    RootLocated,
    CurrentDirUnavailable,
    ParentUnavailable,
    ScriptResolved,
    ScriptUnresolved,
    SplashPresented,
    InterpreterResolved,
    DependenciesChecked { missing: bool },
    /// The install step is over, however it went.
    InstallFinished,
    WorkerSpawned,
    SpawnFailed,
    /// The readiness gate has given its verdict.
    GateResolved { ready: bool },
}

/// What the shell has to do.
#[derive(Clone, Copy, Debug, PartialEq, Eq, Structural)]
pub enum Action {
    /// Look up the working directory and take its parent as project root.
    LocateRoot,
    /// Make the worker script's path canonical.
    ResolveScript,
    /// Center both surfaces and show the splash surface.
    PresentSplash,
    /// Probe the interpreter candidates and settle on one.
    ResolveInterpreter,
    /// Run the import probes.
    CheckDependencies,
    /// Install from the manifest, if there is one.
    InstallRequirements,
    /// Start the worker with both output streams captured.
    SpawnWorker,
    /// Start the two output relays and the readiness gate.
    StartWorkers,
    /// Report the verdict of the readiness gate on the console.
    ReportGate { ready: bool },
    /// Set the readiness flag.
    MarkReady,
    HideSplash,
    ShowMain,
    /// Stop the run with a diagnostic.
    Abort(AbortCause),
}

/// The stage that follows `stage` on `event`, and the actions to carry out.
/// An event that the stage does not wait for changes nothing.
pub open spec fn next(stage: Stage, event: Event) -> (Stage, Seq<Action>) {
    match (stage, event) {
        (Stage::Idle, Event::Start) => (Stage::LocatingRoot, seq![Action::LocateRoot]),
        (Stage::LocatingRoot, Event::RootLocated) => (
            Stage::ResolvingScript,
            seq![Action::ResolveScript],
        ),
        (Stage::LocatingRoot, Event::CurrentDirUnavailable) => (
            Stage::Aborted(AbortCause::NoCurrentDir),
            seq![Action::Abort(AbortCause::NoCurrentDir)],
        ),
        (Stage::LocatingRoot, Event::ParentUnavailable) => (
            Stage::Aborted(AbortCause::NoProjectRoot),
            seq![Action::Abort(AbortCause::NoProjectRoot)],
        ),
        (Stage::ResolvingScript, Event::ScriptResolved) => (
            Stage::PresentingSplash,
            seq![Action::PresentSplash],
        ),
        (Stage::ResolvingScript, Event::ScriptUnresolved) => (
            Stage::Aborted(AbortCause::ScriptUnresolved),
            seq![Action::Abort(AbortCause::ScriptUnresolved)],
        ),
        (Stage::PresentingSplash, Event::SplashPresented) => (
            Stage::ResolvingInterpreter,
            seq![Action::ResolveInterpreter],
        ),
        (Stage::ResolvingInterpreter, Event::InterpreterResolved) => (
            Stage::CheckingDependencies,
            seq![Action::CheckDependencies],
        ),
        (Stage::CheckingDependencies, Event::DependenciesChecked { missing }) => if missing {
            (Stage::Installing, seq![Action::InstallRequirements])
        } else {
            (Stage::Spawning, seq![Action::SpawnWorker])
        },
        (Stage::Installing, Event::InstallFinished) => (Stage::Spawning, seq![Action::SpawnWorker]),
        (Stage::Spawning, Event::WorkerSpawned) => (
            Stage::AwaitingReadiness,
            seq![Action::StartWorkers],
        ),
        (Stage::Spawning, Event::SpawnFailed) => (
            Stage::Aborted(AbortCause::SpawnFailed),
            seq![Action::Abort(AbortCause::SpawnFailed)],
        ),
        (Stage::AwaitingReadiness, Event::GateResolved { ready }) => (
            Stage::Ready,
            seq![
                Action::ReportGate { ready },
                Action::MarkReady,
                Action::HideSplash,
                Action::ShowMain,
            ],
        ),
        _ => (stage, Seq::empty()),
    }
}

/// The stage of a run that has seen `events`, oldest first.
pub open spec fn stage_after(events: Seq<Event>) -> Stage
    decreases events.len(),
{
    if events.len() == 0 {
        Stage::Idle
    } else {
        next(stage_after(events.drop_last()), events.last()).0
    }
}

/// Every action of a run that has seen `events`, in the order issued.
pub open spec fn actions_after(events: Seq<Event>) -> Seq<Action>
    decreases events.len(),
{
    if events.len() == 0 {
        Seq::empty()
    } else {
        actions_after(events.drop_last()) + next(stage_after(events.drop_last()), events.last()).1
    }
}

/// How often `action` occurs in `trace`.
pub open spec fn occurrences(trace: Seq<Action>, action: Action) -> nat
    decreases trace.len(),
{
    if trace.len() == 0 {
        0
    } else {
        occurrences(trace.drop_last(), action) + if trace.last() == action {
            1nat
        } else {
            0nat
        }
    }
}

/// Whether carrying out `action` starts a process.
pub open spec fn starts_process(action: Action) -> bool {
    action == Action::CheckDependencies || action == Action::InstallRequirements || action
        == Action::SpawnWorker
}

/// Whether carrying out `action` makes a surface visible.
pub open spec fn shows_surface(action: Action) -> bool {
    action == Action::PresentSplash || action == Action::ShowMain
}

/// The run of one shell session.
pub struct Launch {
    stage: Stage,
    seen: Ghost<Seq<Event>>,
}

impl Launch {
    /// The events handled so far, oldest first.
    pub closed spec fn history(&self) -> Seq<Event> {
        self.seen@
    }

    /// The stage of the run.
    pub closed spec fn stage_spec(&self) -> Stage {
        self.stage
    }

    #[verifier::type_invariant]
    spec fn consistent(&self) -> bool {
        self.stage == stage_after(self.seen@)
    }

    /// A run that has seen nothing yet.
    pub fn new() -> (launch: Launch)
        ensures
            launch.history() == Seq::<Event>::empty(),
            launch.stage_spec() == Stage::Idle,
    {
        Launch { stage: Stage::Idle, seen: Ghost(Seq::empty()) }
    }

    /// The stage of the run, which is the stage that its history leads to.
    #[verifier::when_used_as_spec(stage_spec)]
    pub fn stage(&self) -> (stage: Stage)
        ensures
            stage == self.stage_spec(),
            stage == stage_after(self.history()),
    {
        proof {
            use_type_invariant(self);
        }
        self.stage
    }

    /// Whether the readiness flag is set.
    pub fn is_ready(&self) -> (ready: bool)
        ensures
            ready == (self.stage_spec() == Stage::Ready),
            ready == (occurrences(actions_after(self.history()), Action::MarkReady) == 1),
    {
        proof {
            use_type_invariant(self);
            handoff_happens_once(self.seen@);
        }
        self.stage == Stage::Ready
    }

    /// Takes in one observation and answers with the actions to carry out, in
    /// order. The stage and the actions are those of [`next`].
    pub fn handle(&mut self, event: Event) -> (actions: Vec<Action>)
        ensures
            final(self).history() == old(self).history().push(event),
            final(self).stage_spec() == next(old(self).stage_spec(), event).0,
            actions@ == next(old(self).stage_spec(), event).1,
            actions_after(final(self).history()) == actions_after(old(self).history()) + actions@,
    {
        proof {
            use_type_invariant(&*self);
        }
        let ghost before = self.seen@;
        let (stage, actions) = match (self.stage, event) {
            (Stage::Idle, Event::Start) => (Stage::LocatingRoot, vec![Action::LocateRoot]),
            (Stage::LocatingRoot, Event::RootLocated) => (
                Stage::ResolvingScript,
                vec![Action::ResolveScript],
            ),
            (Stage::LocatingRoot, Event::CurrentDirUnavailable) => (
                Stage::Aborted(AbortCause::NoCurrentDir),
                vec![Action::Abort(AbortCause::NoCurrentDir)],
            ),
            (Stage::LocatingRoot, Event::ParentUnavailable) => (
                Stage::Aborted(AbortCause::NoProjectRoot),
                vec![Action::Abort(AbortCause::NoProjectRoot)],
            ),
            (Stage::ResolvingScript, Event::ScriptResolved) => (
                Stage::PresentingSplash,
                vec![Action::PresentSplash],
            ),
            (Stage::ResolvingScript, Event::ScriptUnresolved) => (
                Stage::Aborted(AbortCause::ScriptUnresolved),
                vec![Action::Abort(AbortCause::ScriptUnresolved)],
            ),
            (Stage::PresentingSplash, Event::SplashPresented) => (
                Stage::ResolvingInterpreter,
                vec![Action::ResolveInterpreter],
            ),
            (Stage::ResolvingInterpreter, Event::InterpreterResolved) => (
                Stage::CheckingDependencies,
                vec![Action::CheckDependencies],
            ),
            (Stage::CheckingDependencies, Event::DependenciesChecked { missing }) => if missing {
                (Stage::Installing, vec![Action::InstallRequirements])
            } else {
                (Stage::Spawning, vec![Action::SpawnWorker])
            },
            (Stage::Installing, Event::InstallFinished) => (
                Stage::Spawning,
                vec![Action::SpawnWorker],
            ),
            (Stage::Spawning, Event::WorkerSpawned) => (
                Stage::AwaitingReadiness,
                vec![Action::StartWorkers],
            ),
            (Stage::Spawning, Event::SpawnFailed) => (
                Stage::Aborted(AbortCause::SpawnFailed),
                vec![Action::Abort(AbortCause::SpawnFailed)],
            ),
            (Stage::AwaitingReadiness, Event::GateResolved { ready }) => (
                Stage::Ready,
                vec![
                    Action::ReportGate { ready },
                    Action::MarkReady,
                    Action::HideSplash,
                    Action::ShowMain,
                ],
            ),
            (stage, _) => (stage, Vec::new()),
        };
        proof {
            assert(before.push(event).drop_last() =~= before);
        }
        *self = Launch { stage, seen: Ghost(before.push(event)) };
        actions
    }
}

/// The diagnostic with which a run stops.
pub open spec fn abort_diagnostic_spec(cause: AbortCause) -> Seq<char> {
    match cause {
        AbortCause::NoCurrentDir => "Couldn't get current dir"@,
        AbortCause::NoProjectRoot => "Couldn't get project root"@,
        AbortCause::ScriptUnresolved => "Could not resolve api_server.py path"@,
        AbortCause::SpawnFailed => "Failed to start Suhana backend"@,
    }
}

/// The diagnostic with which a run stops.
pub fn abort_diagnostic(cause: AbortCause) -> (text: &'static str)
    ensures
        text@ == abort_diagnostic_spec(cause),
{
    match cause {
        AbortCause::NoCurrentDir => "Couldn't get current dir",
        AbortCause::NoProjectRoot => "Couldn't get project root",
        AbortCause::ScriptUnresolved => "Could not resolve api_server.py path",
        AbortCause::SpawnFailed => "Failed to start Suhana backend",
    }
}

/// Whether `stage` accepts no further event.
pub open spec fn settled(stage: Stage) -> bool {
    stage == Stage::Ready || stage is Aborted
}

/// Whether `stage` lies before the splash surface is presented, or is an
/// abort that came from there.
pub open spec fn before_splash(stage: Stage) -> bool {
    stage == Stage::Idle || stage == Stage::LocatingRoot || stage == Stage::ResolvingScript
        || stage == Stage::Aborted(AbortCause::NoCurrentDir) || stage == Stage::Aborted(
        AbortCause::NoProjectRoot,
    ) || stage == Stage::Aborted(AbortCause::ScriptUnresolved)
}

/// Whether a run in `stage` has asked for the worker to be spawned.
pub open spec fn spawn_requested(stage: Stage) -> bool {
    stage == Stage::Spawning || stage == Stage::AwaitingReadiness || stage == Stage::Ready
        || stage == Stage::Aborted(AbortCause::SpawnFailed)
}

proof fn lemma_occurrences_concat(a: Seq<Action>, b: Seq<Action>, action: Action)
    ensures
        occurrences(a + b, action) == occurrences(a, action) + occurrences(b, action),
    decreases b.len(),
{
    if b.len() == 0 {
        assert(a + b =~= a);
    } else {
        assert((a + b).drop_last() =~= a + b.drop_last());
        lemma_occurrences_concat(a, b.drop_last(), action);
    }
}

proof fn lemma_occurrences_step(stage: Stage, event: Event, action: Action)
    ensures
        occurrences(next(stage, event).1, action) == (if next(stage, event).1.contains(action) {
            1nat
        } else {
            0nat
        }),
{
    let s = next(stage, event).1;
    reveal_with_fuel(occurrences, 5);
    if s.len() == 0 {
    } else if s.len() == 1 {
        assert(s.drop_last() =~= Seq::empty());
        assert(s[0] == s.last());
    } else {
        assert(s.drop_last() =~= seq![s[0], s[1], s[2]]);
        assert(s.drop_last().drop_last() =~= seq![s[0], s[1]]);
        assert(s.drop_last().drop_last().drop_last() =~= seq![s[0]]);
        assert(s.drop_last().drop_last().drop_last().drop_last() =~= Seq::empty());
    }
}

proof fn lemma_step_tally(stage: Stage, event: Event, action: Action)
    requires
        action == Action::MarkReady || action == Action::HideSplash || action == Action::ShowMain
            || action == Action::SpawnWorker,
    ensures
        action != Action::SpawnWorker ==> occurrences(next(stage, event).1, action) == (if stage
            != Stage::Ready && next(stage, event).0 == Stage::Ready {
            1nat
        } else {
            0nat
        }),
        action == Action::SpawnWorker ==> occurrences(next(stage, event).1, action) == (
        if !spawn_requested(stage) && spawn_requested(next(stage, event).0) {
            1nat
        } else {
            0nat
        }),
        spawn_requested(stage) ==> spawn_requested(next(stage, event).0),
        stage == Stage::Ready ==> next(stage, event).0 == Stage::Ready,
{
    lemma_occurrences_step(stage, event, action);
    let s = next(stage, event).1;
    if s.len() == 1 {
        assert(forall|i: int| 0 <= i < s.len() ==> #[trigger] s[i] == s[0]);
    } else if s.len() == 4 {
        assert(s[1] == Action::MarkReady);
        assert(s[2] == Action::HideSplash);
        assert(s[3] == Action::ShowMain);
    }
}

/// In every run the readiness flag is set at most once, and exactly once in a
/// run that has reached [`Stage::Ready`]. The splash surface is hidden and
/// the main surface is shown as often as the flag is set, and never before
/// it is set.
pub proof fn handoff_happens_once(events: Seq<Event>)
    ensures
        occurrences(actions_after(events), Action::MarkReady) == (if stage_after(events)
            == Stage::Ready {
            1nat
        } else {
            0nat
        }),
        occurrences(actions_after(events), Action::HideSplash) == occurrences(
            actions_after(events),
            Action::MarkReady,
        ),
        occurrences(actions_after(events), Action::ShowMain) == occurrences(
            actions_after(events),
            Action::MarkReady,
        ),
        forall|i: int|
            0 <= i < actions_after(events).len() && (#[trigger] actions_after(events)[i]
                == Action::HideSplash || actions_after(events)[i] == Action::ShowMain)
                ==> exists|j: int|
                0 <= j < i && #[trigger] actions_after(events)[j] == Action::MarkReady,
    decreases events.len(),
{
    if events.len() > 0 {
        let before = events.drop_last();
        let stage = stage_after(before);
        let earlier = actions_after(before);
        let step = next(stage, events.last()).1;
        let trace = actions_after(events);
        handoff_happens_once(before);
        lemma_occurrences_concat(earlier, step, Action::MarkReady);
        lemma_occurrences_concat(earlier, step, Action::HideSplash);
        lemma_occurrences_concat(earlier, step, Action::ShowMain);
        lemma_step_tally(stage, events.last(), Action::MarkReady);
        lemma_step_tally(stage, events.last(), Action::HideSplash);
        lemma_step_tally(stage, events.last(), Action::ShowMain);
        assert forall|i: int|
            0 <= i < trace.len() && (#[trigger] trace[i] == Action::HideSplash || trace[i]
                == Action::ShowMain) implies exists|j: int|
            0 <= j < i && #[trigger] trace[j] == Action::MarkReady by {
            if i < earlier.len() {
                assert(trace[i] == earlier[i]);
                let j = choose|j: int| 0 <= j < i && #[trigger] earlier[j] == Action::MarkReady;
                assert(trace[j] == Action::MarkReady);
            } else {
                assert(trace[i] == step[i - earlier.len()]);
                assert(trace[earlier.len() as int + 1] == step[1]);
            }
        }
    }
}

/// In every run the worker is spawned at most once, so there is never more
/// than one child process to hold.
pub proof fn worker_spawned_at_most_once(events: Seq<Event>)
    ensures
        occurrences(actions_after(events), Action::SpawnWorker) == (if spawn_requested(
            stage_after(events),
        ) {
            1nat
        } else {
            0nat
        }),
    decreases events.len(),
{
    if events.len() > 0 {
        let before = events.drop_last();
        let stage = stage_after(before);
        worker_spawned_at_most_once(before);
        lemma_occurrences_concat(
            actions_after(before),
            next(stage, events.last()).1,
            Action::SpawnWorker,
        );
        lemma_step_tally(stage, events.last(), Action::SpawnWorker);
    }
}

/// A run that has not got past resolving its paths has started no process
/// and shown no surface. In particular a run that was aborted because the
/// worker script could not be resolved never did either.
pub proof fn nothing_starts_before_paths_resolve(events: Seq<Event>)
    requires
        before_splash(stage_after(events)),
    ensures
        forall|i: int|
            0 <= i < actions_after(events).len() ==> !starts_process(
                #[trigger] actions_after(events)[i],
            ) && !shows_surface(actions_after(events)[i]) && actions_after(events)[i]
                != Action::MarkReady && actions_after(events)[i] != Action::HideSplash,
    decreases events.len(),
{
    if events.len() > 0 {
        let before = events.drop_last();
        let earlier = actions_after(before);
        let step = next(stage_after(before), events.last()).1;
        let trace = actions_after(events);
        nothing_starts_before_paths_resolve(before);
        assert forall|i: int| 0 <= i < trace.len() implies !starts_process(#[trigger] trace[i])
            && !shows_surface(trace[i]) && trace[i] != Action::MarkReady && trace[i]
            != Action::HideSplash by {
            if i < earlier.len() {
                assert(trace[i] == earlier[i]);
            } else {
                assert(trace[i] == step[i - earlier.len()]);
            }
        }
    }
}

/// An unresolved worker script aborts the run on the spot: the stage becomes
/// [`Stage::Aborted`], the one action is the abort, and whatever the shell
/// reports afterwards is ignored.
pub proof fn unresolved_script_aborts(events: Seq<Event>, later: Seq<Event>)
    requires
        stage_after(events) == Stage::ResolvingScript,
    ensures
        stage_after(events.push(Event::ScriptUnresolved) + later) == Stage::Aborted(
            AbortCause::ScriptUnresolved,
        ),
        actions_after(events.push(Event::ScriptUnresolved) + later) == actions_after(events).push(
            Action::Abort(AbortCause::ScriptUnresolved),
        ),
{
    let aborted = events.push(Event::ScriptUnresolved);
    assert(aborted.drop_last() =~= events);
    assert(actions_after(aborted) =~= actions_after(events).push(
        Action::Abort(AbortCause::ScriptUnresolved),
    ));
    settled_run_stays_settled(aborted, later);
}

/// A run is aborted only for want of a path or of the worker process.
/// Whatever the dependency check, the install and the readiness check report,
/// the run goes on.
pub proof fn only_fatal_failures_abort(events: Seq<Event>, event: Event)
    requires
        !(stage_after(events) is Aborted),
        stage_after(events.push(event)) is Aborted,
    ensures
        event == Event::CurrentDirUnavailable || event == Event::ParentUnavailable || event
            == Event::ScriptUnresolved || event == Event::SpawnFailed,
{
    assert(events.push(event).drop_last() =~= events);
}

/// Once the worker is spawned, the verdict of the readiness check, whichever
/// it is, sets the readiness flag, hides the splash surface and shows the
/// main surface.
pub proof fn any_verdict_completes_the_run(events: Seq<Event>, ready: bool)
    requires
        stage_after(events) == Stage::AwaitingReadiness,
    ensures
        stage_after(events.push(Event::GateResolved { ready })) == Stage::Ready,
        actions_after(events.push(Event::GateResolved { ready })) == actions_after(events)
            + seq![
            Action::ReportGate { ready },
            Action::MarkReady,
            Action::HideSplash,
            Action::ShowMain,
        ],
{
    assert(events.push(Event::GateResolved { ready }).drop_last() =~= events);
}

/// Once a run is ready or aborted, no event changes its stage or draws
/// another action. The readiness flag, once set, stays set.
pub proof fn settled_run_stays_settled(events: Seq<Event>, later: Seq<Event>)
    requires
        settled(stage_after(events)),
    ensures
        stage_after(events + later) == stage_after(events),
        actions_after(events + later) == actions_after(events),
    decreases later.len(),
{
    if later.len() == 0 {
        assert(events + later =~= events);
    } else {
        assert((events + later).drop_last() =~= events + later.drop_last());
        settled_run_stays_settled(events, later.drop_last());
        assert(actions_after(events + later) =~= actions_after(events));
    }
}

} // verus!
