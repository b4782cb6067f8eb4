//! The readiness gate: bounded polling of the worker's health endpoint.
//!
//! A gate asks for one poll at a time. A failed poll is followed by a pause
//! of fixed length, a successful one ends the wait at once. When the attempts
//! are used up, the wait is given up. Either way it resolves, and the run
//! goes on.

use crate::log::{Level, LogLine};
use vstd::prelude::*;

verus! {

/// How often and how fast a gate polls.
#[derive(Clone, Copy, Debug, PartialEq, Eq, Structural)]
pub struct GateConfig {
    /// The number of polls after which the wait is given up.
    pub max_attempts: u32,
    /// The pause after each failed poll, in milliseconds.
    pub delay_ms: u32,
}

/// What a gate wants done next.
#[derive(Clone, Copy, Debug, PartialEq, Eq, Structural)]
pub enum GateStep {
    /// Send one request to the health endpoint.
    Poll,
    /// Pause for this many milliseconds.
    Sleep { millis: u32 },
    /// The wait is over: the worker answered, or the attempts are used up.
    Resolved { ready: bool },
}

/// What the shell observed on a gate's behalf.
#[derive(Clone, Copy, Debug, PartialEq, Eq, Structural)]
pub enum GateEvent {
    PollSucceeded,
    PollFailed,
    Slept,
}

/// The bookkeeping of a gate.
pub ghost struct GateState {
    /// The polls that have been answered.
    pub polls: nat,
    /// The pauses that have been completed, in milliseconds.
    pub slept_ms: nat,
    pub pending: GateStep,
}

/// Where a gate starts: with a poll, unless it may not poll at all.
pub open spec fn gate_start(config: GateConfig) -> GateState {
    GateState {
        polls: 0,
        slept_ms: 0,
        pending: if config.max_attempts == 0 {
            GateStep::Resolved { ready: false }
        } else {
            GateStep::Poll
        },
    }
}

/// The state that follows `state` on `event`. An event that is not waited
/// for changes nothing.
pub open spec fn gate_next(config: GateConfig, state: GateState, event: GateEvent) -> GateState {
    match (state.pending, event) {
        (GateStep::Poll, GateEvent::PollSucceeded) => GateState {
            polls: state.polls + 1,
            slept_ms: state.slept_ms,
            pending: GateStep::Resolved { ready: true },
        },
        (GateStep::Poll, GateEvent::PollFailed) => GateState {
            polls: state.polls + 1,
            slept_ms: state.slept_ms,
            pending: GateStep::Sleep { millis: config.delay_ms },
        },
        (GateStep::Sleep { millis }, GateEvent::Slept) => GateState {
            polls: state.polls,
            slept_ms: state.slept_ms + millis as nat,
            pending: if state.polls < config.max_attempts {
                GateStep::Poll
            } else {
                GateStep::Resolved { ready: false }
            },
        },
        _ => state,
    }
}

/// The state of a gate that has seen `events`, oldest first.
pub open spec fn gate_after(config: GateConfig, events: Seq<GateEvent>) -> GateState
    decreases events.len(),
{
    if events.len() == 0 {
        gate_start(config)
    } else {
        gate_next(config, gate_after(config, events.drop_last()), events.last())
    }
}

/// What holds of a gate's bookkeeping at every moment.
pub open spec fn in_step(config: GateConfig, state: GateState) -> bool {
    match state.pending {
        GateStep::Poll => {
            &&& state.polls < config.max_attempts
            &&& state.slept_ms == state.polls * config.delay_ms
        },
        GateStep::Sleep { millis } => {
            &&& millis == config.delay_ms
            &&& 1 <= state.polls <= config.max_attempts
            &&& state.slept_ms == (state.polls - 1) * config.delay_ms
        },
        GateStep::Resolved { ready } => if ready {
            &&& 1 <= state.polls <= config.max_attempts
            &&& state.slept_ms == (state.polls - 1) * config.delay_ms
        } else {
            &&& state.polls == config.max_attempts
            &&& state.slept_ms == config.max_attempts * config.delay_ms
        },
    }
}

proof fn next_keeps_count(config: GateConfig, state: GateState, event: GateEvent)
    requires
        in_step(config, state),
    ensures
        in_step(config, gate_next(config, state, event)),
{
    let delay = config.delay_ms as int;
    let polls = state.polls as int;
    assert((polls - 1) * delay + delay == polls * delay) by (nonlinear_arith);
    assert((polls + 1 - 1) * delay == polls * delay) by (nonlinear_arith);
}

/// Whatever the shell reports, a gate never polls more often than its
/// configuration allows, and it pauses for the configured delay after every
/// failed poll: a gate that asks for its next poll has completed as many
/// pauses as polls. A gate that resolved as ready did so on its last poll,
/// without a pause after it. A gate that gave up has used every attempt and
/// paused after each.
pub proof fn gate_keeps_count(config: GateConfig, events: Seq<GateEvent>)
    ensures
        in_step(config, gate_after(config, events)),
    decreases events.len(),
{
    if events.len() > 0 {
        gate_keeps_count(config, events.drop_last());
        next_keeps_count(config, gate_after(config, events.drop_last()), events.last());
    } else {
        assert(0 * config.delay_ms == 0);
    }
}

/// A resolved gate stays resolved, with its verdict and its counts.
pub proof fn resolved_gate_is_final(config: GateConfig, events: Seq<GateEvent>, event: GateEvent)
    requires
        gate_after(config, events).pending is Resolved,
    ensures
        gate_after(config, events.push(event)) == gate_after(config, events),
{
    assert(events.push(event).drop_last() =~= events);
}

/// The reference configuration: twenty polls, half a second apart.
pub fn reference_config() -> (config: GateConfig)
    ensures
        config == (GateConfig { max_attempts: 20, delay_ms: 500 }),
{
    GateConfig { max_attempts: 20, delay_ms: 500 }
}

/// A readiness gate in progress.
pub struct Gate {
    config: GateConfig,
    polls: u32,
    slept_ms: u64,
    pending: GateStep,
    seen: Ghost<Seq<GateEvent>>,
}

impl Gate {
    /// The configuration that this gate was started with.
    pub closed spec fn config_spec(&self) -> GateConfig {
        self.config
    }

    /// The events handled so far, oldest first.
    pub closed spec fn history(&self) -> Seq<GateEvent> {
        self.seen@
    }

    /// The bookkeeping of this gate.
    pub closed spec fn state(&self) -> GateState {
        GateState {
            polls: self.polls as nat,
            slept_ms: self.slept_ms as nat,
            pending: self.pending,
        }
    }

    #[verifier::type_invariant]
    spec fn consistent(&self) -> bool {
        self.state() == gate_after(self.config, self.seen@)
    }

    /// Starts a gate. Its first step is a poll, unless `config` allows none.
    pub fn begin(config: GateConfig) -> (gate: Gate)
        ensures
            gate.config_spec() == config,
            gate.history() == Seq::<GateEvent>::empty(),
            gate.state() == gate_start(config),
    {
        let pending = if config.max_attempts == 0 {
            GateStep::Resolved { ready: false }
        } else {
            GateStep::Poll
        };
        Gate { config, polls: 0, slept_ms: 0, pending, seen: Ghost(Seq::empty()) }
    }

    /// What this gate wants done next.
    pub fn pending(&self) -> (step: GateStep)
        ensures
            step == self.state().pending,
            self.state() == gate_after(self.config_spec(), self.history()),
    {
        proof {
            use_type_invariant(self);
        }
        self.pending
    }

    /// The number of polls that have been answered.
    pub fn polls(&self) -> (polls: u32)
        ensures
            polls == self.state().polls,
    {
        self.polls
    }

    /// The total length of the pauses completed, in milliseconds.
    pub fn slept_ms(&self) -> (millis: u64)
        ensures
            millis == self.state().slept_ms,
    {
        self.slept_ms
    }

    /// Takes in one observation and answers with the next step, which is
    /// that of [`gate_next`].
    pub fn advance(&mut self, event: GateEvent) -> (step: GateStep)
        ensures
            final(self).config_spec() == old(self).config_spec(),
            final(self).history() == old(self).history().push(event),
            final(self).state() == gate_next(old(self).config_spec(), old(self).state(), event),
            step == final(self).state().pending,
    {
        proof {
            use_type_invariant(&*self);
            gate_keeps_count(self.config, self.seen@);
        }
        let ghost before = self.seen@;
        let config = self.config;
        let mut polls = self.polls;
        let mut slept_ms = self.slept_ms;
        let mut pending = self.pending;
        match (self.pending, event) {
            (GateStep::Poll, GateEvent::PollSucceeded) => {
                polls = polls + 1;
                pending = GateStep::Resolved { ready: true };
            },
            (GateStep::Poll, GateEvent::PollFailed) => {
                polls = polls + 1;
                pending = GateStep::Sleep { millis: config.delay_ms };
            },
            (GateStep::Sleep { millis }, GateEvent::Slept) => {
                proof {
                    let p = polls as int;
                    let d = config.delay_ms as int;
                    assert((p - 1) * d + d == p * d) by (nonlinear_arith);
                    assert(p * d <= 0xffff_ffff * 0xffff_ffff) by (nonlinear_arith)
                        requires
                            0 <= p <= 0xffff_ffff,
                            0 <= d <= 0xffff_ffff,
                    ;
                }
                slept_ms = slept_ms + millis as u64;
                pending = if polls < config.max_attempts {
                    GateStep::Poll
                } else {
                    GateStep::Resolved { ready: false }
                };
            },
            _ => {},
        }
        proof {
            assert(before.push(event).drop_last() =~= before);
        }
        *self = Gate { config, polls, slept_ms, pending, seen: Ghost(before.push(event)) };
        pending
    }
}

/// How a wait ended.
#[derive(Clone, Copy, Debug, PartialEq, Eq, Structural)]
pub struct GateReport {
    /// Whether the worker answered in time.
    pub ready: bool,
    /// The number of polls made.
    pub polls: u32,
    /// The total length of the pauses between and after the polls, in
    /// milliseconds.
    pub slept_ms: u64,
}

/// Whether the endpoint answers the `attempt`-th poll with success, counting
/// from zero. A poll for which `answers` has no entry fails.
pub open spec fn answer_at(answers: Seq<bool>, attempt: int) -> bool {
    0 <= attempt < answers.len() && answers[attempt]
}

/// Whether `attempt` is the first poll within the budget that succeeds.
pub open spec fn is_first_success(config: GateConfig, answers: Seq<bool>, attempt: int) -> bool {
    &&& 0 <= attempt < config.max_attempts
    &&& answer_at(answers, attempt)
    &&& forall|earlier: int| 0 <= earlier < attempt ==> !#[trigger] answer_at(answers, earlier)
}

/// Whether no poll within the budget succeeds.
pub open spec fn never_succeeds(config: GateConfig, answers: Seq<bool>) -> bool {
    forall|attempt: int|
        0 <= attempt < config.max_attempts ==> !#[trigger] answer_at(answers, attempt)
}

/// Waits for the worker, given what the health endpoint answers to each poll.
///
/// `answers[i]` tells whether the poll with index `i` succeeds; a poll
/// without an entry fails. The wait ends as ready with the first poll that
/// succeeds, after one pause for each failed poll before it. If none of the
/// first `max_attempts` polls succeeds, the wait ends as not ready after
/// `max_attempts` polls, each followed by a pause.
pub fn wait_for_api_ready(config: GateConfig, answers: &Vec<bool>) -> (report: GateReport)
    ensures
        report.ready == !never_succeeds(config, answers@),
        report.ready ==> is_first_success(config, answers@, report.polls - 1),
        !report.ready ==> report.polls == config.max_attempts,
        report.slept_ms == (if report.ready {
            report.polls - 1
        } else {
            report.polls as int
        }) * config.delay_ms,
{
    let mut gate = Gate::begin(config);
    loop
        invariant
            gate.config_spec() == config,
            in_step(config, gate.state()),
            match gate.state().pending {
                GateStep::Resolved { ready: true } => is_first_success(
                    config,
                    answers@,
                    gate.state().polls - 1,
                ),
                _ => forall|earlier: int|
                    0 <= earlier < gate.state().polls ==> !#[trigger] answer_at(answers@, earlier),
            },
        decreases
            (match gate.state().pending {
                GateStep::Poll => 2 * (config.max_attempts - gate.state().polls) + 1,
                GateStep::Sleep { .. } => 2 * (config.max_attempts - gate.state().polls) + 2,
                GateStep::Resolved { .. } => 0,
            }),
    {
        match gate.pending() {
            GateStep::Poll => {
                let attempt: usize = gate.polls() as usize;
                let answered = attempt < answers.len() && answers[attempt];
                let event = if answered {
                    GateEvent::PollSucceeded
                } else {
                    GateEvent::PollFailed
                };
                proof {
                    next_keeps_count(config, gate.state(), event);
                }
                gate.advance(event);
            },
            GateStep::Sleep { millis } => {
                proof {
                    next_keeps_count(config, gate.state(), GateEvent::Slept);
                }
                gate.advance(GateEvent::Slept);
            },
            GateStep::Resolved { ready } => {
                let report = GateReport { ready, polls: gate.polls(), slept_ms: gate.slept_ms() };
                proof {
                    if ready {
                        assert(answer_at(answers@, report.polls - 1));
                    }
                }
                return report;
            },
        }
    }
}

/// The console line on the verdict. A worker that did not answer in time is
/// reported as an error and nothing more.
pub fn gate_report(ready: bool) -> (line: LogLine)
    ensures
        line@ == (if ready {
            (Level::Info, "Backend ready"@)
        } else {
            (Level::Error, "Backend not responding in time"@)
        }),
{
    if ready {
        LogLine { level: Level::Info, text: String::from_str("Backend ready") }
    } else {
        LogLine { level: Level::Error, text: String::from_str("Backend not responding in time") }
    }
}

} // verus!
