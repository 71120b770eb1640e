use shutdown_supervisor::supervisor::{
    FailureReason, Phase, RaceEvent, ShutdownTrigger, Supervisor, WorkerOutcome, WorkerState,
    DEFAULT_GRACE_PERIOD_MS,
};

#[test]
fn single_trigger_even_with_simultaneous_events() {
    let mut s = Supervisor::new(DEFAULT_GRACE_PERIOD_MS);
    let _a = s.spawn_worker();
    let _b = s.spawn_worker();
    s.begin_race();
    s.observe_event(RaceEvent::Interrupt);
    // A terminate request lands in the same scheduling instant: it must be
    // ignored as a trigger and must not re-open the race.
    s.observe_event(RaceEvent::Terminate);
    assert_eq!(s.trigger, Some(ShutdownTrigger::UserInterrupt));
    assert_eq!(s.phase, Phase::CancellationBroadcast);
    s.broadcast_cancellation();
    s.observe_event(RaceEvent::WorkerSucceeded(0));
    s.observe_event(RaceEvent::WorkerSucceeded(1));
    s.finish_drain();
    let r = s.into_report();
    assert_eq!(r.trigger, ShutdownTrigger::UserInterrupt);
}

#[test]
fn all_voluntary_completion_is_completed() {
    let mut s = Supervisor::new(DEFAULT_GRACE_PERIOD_MS);
    let a = s.spawn_worker();
    let b = s.spawn_worker();
    s.begin_race();
    s.observe_event(RaceEvent::Terminate);
    s.broadcast_cancellation();
    s.observe_event(RaceEvent::WorkerSucceeded(a));
    s.observe_event(RaceEvent::WorkerFailed(b, String::from("disk full")));
    s.finish_drain();
    assert_eq!(s.phase, Phase::Completed);
    assert!(!s.drain_timed_out);
    let r = s.into_report();
    // No forced abort: both workers keep their real outcomes.
    assert_eq!(r.outcomes[0], WorkerOutcome::Success);
    assert_eq!(
        r.outcomes[1],
        WorkerOutcome::Failure(FailureReason::RuntimeFailure(String::from("disk full")))
    );
    assert!(!r.drain_timed_out);
}

#[test]
fn straggler_forces_drain_timeout() {
    // GracePeriod = 50ms; one worker honors cancellation only after 500ms,
    // so the drain phase ends with it still running.
    let mut s = Supervisor::new(50);
    let fast = s.spawn_worker();
    let slow = s.spawn_worker();
    s.begin_race();
    s.observe_event(RaceEvent::Interrupt);
    s.broadcast_cancellation();
    s.observe_event(RaceEvent::WorkerSucceeded(fast));
    assert!(!s.all_workers_completed());
    s.finish_drain();
    assert_eq!(s.phase, Phase::DrainTimedOut);
    let r = s.into_report();
    assert!(r.drain_timed_out);
    // The straggler is recorded as a timeout failure; the worker that
    // completed in time keeps its real outcome.
    assert_eq!(r.outcomes[slow], WorkerOutcome::Failure(FailureReason::GraceTimeout));
    assert_eq!(r.outcomes[fast], WorkerOutcome::Success);
}

#[test]
fn worker_failure_triggers_shutdown() {
    // Three workers; the second fails shortly after start.
    let mut s = Supervisor::new(DEFAULT_GRACE_PERIOD_MS);
    let w1 = s.spawn_worker();
    let w2 = s.spawn_worker();
    let w3 = s.spawn_worker();
    s.begin_race();
    s.observe_event(RaceEvent::WorkerFailed(w2, String::from("connection reset")));
    assert_eq!(
        s.trigger,
        Some(ShutdownTrigger::WorkerFailed(w2, String::from("connection reset")))
    );
    // Cancellation is broadcast within the same step.
    s.broadcast_cancellation();
    assert!(s.signal.observe());
    // The two healthy workers complete within the grace period.
    s.observe_event(RaceEvent::WorkerSucceeded(w1));
    s.observe_event(RaceEvent::WorkerSucceeded(w3));
    s.finish_drain();
    assert_eq!(s.phase, Phase::Completed);
    let r = s.into_report();
    assert_eq!(
        r.trigger,
        ShutdownTrigger::WorkerFailed(1, String::from("connection reset"))
    );
    assert_eq!(r.outcomes[w1], WorkerOutcome::Success);
    assert_eq!(
        r.outcomes[w2],
        WorkerOutcome::Failure(FailureReason::RuntimeFailure(String::from("connection reset")))
    );
    assert_eq!(r.outcomes[w3], WorkerOutcome::Success);
    assert!(!r.drain_timed_out);
}

#[test]
fn interrupt_while_workers_healthy() {
    // An interrupt fires while all three workers are still running.
    let mut s = Supervisor::new(10000);
    let w1 = s.spawn_worker();
    let w2 = s.spawn_worker();
    let w3 = s.spawn_worker();
    s.begin_race();
    s.observe_event(RaceEvent::Interrupt);
    assert_eq!(s.trigger, Some(ShutdownTrigger::UserInterrupt));
    s.broadcast_cancellation();
    // All three observe cancellation and exit within the grace period.
    s.observe_event(RaceEvent::WorkerSucceeded(w1));
    s.observe_event(RaceEvent::WorkerSucceeded(w2));
    s.observe_event(RaceEvent::WorkerSucceeded(w3));
    s.finish_drain();
    assert_eq!(s.phase, Phase::Completed);
}

#[test]
fn statistics_failure_leaves_summary_empty() {
    // The statistics collaborator faults during summarize: the run still
    // reaches a terminal state and the report's summary is simply absent.
    let mut s = Supervisor::new(DEFAULT_GRACE_PERIOD_MS);
    s.begin_race();
    s.observe_event(RaceEvent::WorkerSetEmpty);
    s.broadcast_cancellation();
    s.finish_drain();
    assert_eq!(s.phase, Phase::Completed);
    s.record_summary(None);
    let r = s.into_report();
    assert_eq!(r.summary, None);
}

#[test]
fn summary_recorded_when_available() {
    let mut s = Supervisor::new(DEFAULT_GRACE_PERIOD_MS);
    s.begin_race();
    s.observe_event(RaceEvent::WorkerSetEmpty);
    s.broadcast_cancellation();
    s.finish_drain();
    s.record_summary(Some(String::from("0 requests served")));
    let r = s.into_report();
    assert_eq!(r.summary, Some(String::from("0 requests served")));
}

#[test]
fn spawn_failure_recorded_and_spawning_continues() {
    let mut s = Supervisor::new(DEFAULT_GRACE_PERIOD_MS);
    let ok1 = s.spawn_worker();
    let bad = s.record_spawn_failure(String::from("factory exhausted"));
    let ok2 = s.spawn_worker();
    assert_eq!((ok1, bad, ok2), (0, 1, 2));
    assert_eq!(
        s.workers[bad],
        WorkerState::Completed(WorkerOutcome::Failure(FailureReason::SpawnFailure(
            String::from("factory exhausted")
        )))
    );
    s.begin_race();
    s.observe_event(RaceEvent::WorkerSucceeded(ok1));
    s.broadcast_cancellation();
    s.observe_event(RaceEvent::WorkerSucceeded(ok2));
    s.finish_drain();
    let r = s.into_report();
    assert_eq!(
        r.outcomes[bad],
        WorkerOutcome::Failure(FailureReason::SpawnFailure(String::from("factory exhausted")))
    );
    assert_eq!(r.outcomes[ok1], WorkerOutcome::Success);
    assert_eq!(r.outcomes[ok2], WorkerOutcome::Success);
}

#[test]
fn empty_worker_set_exhausts_immediately() {
    let mut s = Supervisor::new(DEFAULT_GRACE_PERIOD_MS);
    s.begin_race();
    s.observe_event(RaceEvent::WorkerSetEmpty);
    assert_eq!(s.trigger, Some(ShutdownTrigger::WorkerSetExhausted));
    s.broadcast_cancellation();
    assert!(s.all_workers_completed());
    s.finish_drain();
    assert_eq!(s.phase, Phase::Completed);
    let r = s.into_report();
    assert!(r.outcomes.is_empty());
    assert!(!r.drain_timed_out);
}

#[test]
fn late_completion_does_not_overwrite_outcome() {
    let mut s = Supervisor::new(DEFAULT_GRACE_PERIOD_MS);
    let w = s.spawn_worker();
    s.begin_race();
    s.observe_event(RaceEvent::WorkerSucceeded(w));
    s.broadcast_cancellation();
    // A duplicate, contradictory completion for the same worker arrives
    // later: the recorded outcome stands.
    s.observe_event(RaceEvent::WorkerFailed(w, String::from("phantom")));
    s.finish_drain();
    let r = s.into_report();
    assert_eq!(r.outcomes[w], WorkerOutcome::Success);
}

#[test]
fn explicit_cancellation_trigger() {
    let mut s = Supervisor::new(DEFAULT_GRACE_PERIOD_MS);
    let w = s.spawn_worker();
    s.begin_race();
    s.observe_event(RaceEvent::CancellationObserved);
    assert_eq!(s.trigger, Some(ShutdownTrigger::ExplicitCancellation));
    s.broadcast_cancellation();
    s.observe_event(RaceEvent::WorkerSucceeded(w));
    s.finish_drain();
    assert_eq!(s.phase, Phase::Completed);
}

#[test]
fn terminate_request_trigger() {
    let mut s = Supervisor::new(DEFAULT_GRACE_PERIOD_MS);
    s.begin_race();
    s.observe_event(RaceEvent::Terminate);
    assert_eq!(s.trigger, Some(ShutdownTrigger::TerminateRequest));
}

#[test]
fn worker_success_first_exhausts_worker_set() {
    let mut s = Supervisor::new(DEFAULT_GRACE_PERIOD_MS);
    let w = s.spawn_worker();
    let _other = s.spawn_worker();
    s.begin_race();
    s.observe_event(RaceEvent::WorkerSucceeded(w));
    assert_eq!(s.trigger, Some(ShutdownTrigger::WorkerSetExhausted));
}

#[test]
fn grace_period_is_the_configured_one() {
    let s = Supervisor::new(50);
    assert_eq!(s.grace_period_ms, 50);
    assert_eq!(DEFAULT_GRACE_PERIOD_MS, 10000);
}

#[test]
fn all_workers_completed_tracks_the_set() {
    let mut s = Supervisor::new(DEFAULT_GRACE_PERIOD_MS);
    let w = s.spawn_worker();
    assert!(!s.all_workers_completed());
    s.begin_race();
    s.observe_event(RaceEvent::WorkerSucceeded(w));
    assert!(s.all_workers_completed());
}
