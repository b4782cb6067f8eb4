use worker_supervisor::gate::{
    gate_report, reference_config, wait_for_api_ready, Gate, GateConfig, GateEvent, GateReport,
    GateStep,
};
use worker_supervisor::gate::GateStep::{Poll, Resolved, Sleep};
use worker_supervisor::log::{Level, LogLine};

/// Runs a gate against an endpoint that succeeds on the poll with the given
/// number, counting from one, and returns the steps that were asked for.
fn drive(config: GateConfig, succeeds_on: Option<u32>) -> (Vec<GateStep>, Gate) {
    let mut gate = Gate::begin(config);
    let mut steps = vec![gate.pending()];
    let mut polls: u32 = 0;
    loop {
        let event = match gate.pending() {
            GateStep::Poll => {
                polls += 1;
                if succeeds_on == Some(polls) {
                    GateEvent::PollSucceeded
                } else {
                    GateEvent::PollFailed
                }
            }
            GateStep::Sleep { .. } => GateEvent::Slept,
            GateStep::Resolved { .. } => return (steps, gate),
        };
        steps.push(gate.advance(event));
    }
}

fn count(steps: &[GateStep], wanted: GateStep) -> usize {
    steps.iter().filter(|step| **step == wanted).count()
}

#[test]
fn reference_configuration_is_twenty_polls_half_a_second_apart() {
    assert_eq!(reference_config(), GateConfig { max_attempts: 20, delay_ms: 500 });
}

#[test]
fn success_on_the_fifth_attempt_resolves_after_five_polls() {
    let answers = vec![false, false, false, false, true];
    let report = wait_for_api_ready(reference_config(), &answers);
    assert_eq!(report, GateReport { ready: true, polls: 5, slept_ms: 2000 });
}

#[test]
fn success_on_the_fifth_attempt_spaces_the_polls() {
    let (steps, gate) = drive(reference_config(), Some(5));
    let pause = Sleep { millis: 500 };
    assert_eq!(
        steps,
        vec![Poll, pause, Poll, pause, Poll, pause, Poll, pause, Poll, Resolved { ready: true }]
    );
    assert_eq!(gate.polls(), 5);
    assert_eq!(gate.slept_ms(), 2000);
}

#[test]
fn endpoint_that_never_succeeds_times_out_after_twenty_polls() {
    let report = wait_for_api_ready(reference_config(), &vec![false; 64]);
    assert_eq!(report, GateReport { ready: false, polls: 20, slept_ms: 10000 });
    let report = wait_for_api_ready(reference_config(), &vec![]);
    assert_eq!(report, GateReport { ready: false, polls: 20, slept_ms: 10000 });
}

#[test]
fn endpoint_that_never_succeeds_is_polled_exactly_twenty_times() {
    let (steps, gate) = drive(reference_config(), None);
    assert_eq!(count(&steps, GateStep::Poll), 20);
    assert_eq!(count(&steps, GateStep::Sleep { millis: 500 }), 20);
    assert_eq!(steps.len(), 41);
    assert_eq!(steps[40], GateStep::Resolved { ready: false });
    for pair in steps[..40].chunks(2) {
        assert_eq!(pair, [GateStep::Poll, GateStep::Sleep { millis: 500 }]);
    }
    assert_eq!(gate.polls(), 20);
    assert_eq!(gate.slept_ms(), 10000);
}

#[test]
fn success_on_the_first_attempt_needs_no_pause() {
    let report = wait_for_api_ready(reference_config(), &vec![true]);
    assert_eq!(report, GateReport { ready: true, polls: 1, slept_ms: 0 });
    let (steps, _) = drive(reference_config(), Some(1));
    assert_eq!(steps, vec![GateStep::Poll, GateStep::Resolved { ready: true }]);
}

#[test]
fn success_on_the_last_attempt_is_still_ready() {
    let mut answers = vec![false; 19];
    answers.push(true);
    let report = wait_for_api_ready(reference_config(), &answers);
    assert_eq!(report, GateReport { ready: true, polls: 20, slept_ms: 9500 });
}

#[test]
fn success_beyond_the_budget_comes_too_late() {
    let mut answers = vec![false; 20];
    answers.push(true);
    let report = wait_for_api_ready(reference_config(), &answers);
    assert_eq!(report, GateReport { ready: false, polls: 20, slept_ms: 10000 });
}

#[test]
fn first_success_ends_the_wait() {
    let report = wait_for_api_ready(reference_config(), &vec![false, true, false, true]);
    assert_eq!(report, GateReport { ready: true, polls: 2, slept_ms: 500 });
}

#[test]
fn other_configurations_scale_the_wait() {
    let config = GateConfig { max_attempts: 3, delay_ms: 250 };
    assert_eq!(
        wait_for_api_ready(config, &vec![]),
        GateReport { ready: false, polls: 3, slept_ms: 750 }
    );
    assert_eq!(
        wait_for_api_ready(config, &vec![false, false, true]),
        GateReport { ready: true, polls: 3, slept_ms: 500 }
    );
}

#[test]
fn gate_without_attempts_gives_up_at_once() {
    let config = GateConfig { max_attempts: 0, delay_ms: 500 };
    assert_eq!(
        wait_for_api_ready(config, &vec![true]),
        GateReport { ready: false, polls: 0, slept_ms: 0 }
    );
    let gate = Gate::begin(config);
    assert_eq!(gate.pending(), GateStep::Resolved { ready: false });
}

#[test]
fn longest_wait_does_not_overflow() {
    let config = GateConfig { max_attempts: 3, delay_ms: u32::MAX };
    assert_eq!(
        wait_for_api_ready(config, &vec![]),
        GateReport { ready: false, polls: 3, slept_ms: 3 * (u32::MAX as u64) }
    );
}

#[test]
fn gate_ignores_what_it_is_not_waiting_for() {
    let mut gate = Gate::begin(reference_config());
    assert_eq!(gate.advance(GateEvent::Slept), GateStep::Poll);
    assert_eq!(gate.polls(), 0);
    assert_eq!(gate.advance(GateEvent::PollFailed), GateStep::Sleep { millis: 500 });
    assert_eq!(gate.advance(GateEvent::PollSucceeded), GateStep::Sleep { millis: 500 });
    assert_eq!(gate.advance(GateEvent::PollFailed), GateStep::Sleep { millis: 500 });
    assert_eq!(gate.polls(), 1);
    assert_eq!(gate.slept_ms(), 0);
    assert_eq!(gate.advance(GateEvent::Slept), GateStep::Poll);
    assert_eq!(gate.slept_ms(), 500);
}

#[test]
fn resolved_gate_stays_resolved() {
    let (_, mut gate) = drive(reference_config(), Some(2));
    for event in [GateEvent::PollFailed, GateEvent::Slept, GateEvent::PollSucceeded] {
        assert_eq!(gate.advance(event), GateStep::Resolved { ready: true });
    }
    assert_eq!(gate.polls(), 2);
    assert_eq!(gate.slept_ms(), 500);
    let (_, mut gate) = drive(reference_config(), None);
    for event in [GateEvent::PollSucceeded, GateEvent::Slept] {
        assert_eq!(gate.advance(event), GateStep::Resolved { ready: false });
    }
    assert_eq!(gate.polls(), 20);
}

#[test]
fn verdict_is_reported_on_the_console() {
    assert_eq!(
        gate_report(true),
        LogLine { level: Level::Info, text: "Backend ready".to_string() }
    );
    assert_eq!(
        gate_report(false),
        LogLine { level: Level::Error, text: "Backend not responding in time".to_string() }
    );
}
