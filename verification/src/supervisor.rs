use vstd::prelude::*;
use vstd::pervasive::VecAdditionalExecFns;
use crate::signal::CancellationSignal;

verus! {

/// How long the supervisor waits, after broadcasting cancellation, before
/// force-aborting the workers that have not exited (milliseconds).
pub const DEFAULT_GRACE_PERIOD_MS: u64 = 10000;

/// Why a worker ended unsuccessfully.
#[derive(Debug, PartialEq, Eq)]
pub enum FailureReason {
    /// The worker's factory failed synchronously; the worker never ran.
    SpawnFailure(String),
    /// The worker ran and reported a failure of its own.
    RuntimeFailure(String),
    /// The worker outlived the grace period and was forcibly aborted.
    GraceTimeout,
}

/// How a worker ended.
#[derive(Debug, PartialEq, Eq)]
pub enum WorkerOutcome {
    Success,
    Failure(FailureReason),
}

/// What the supervisor knows of one worker.  Workers are identified by the
/// handle `spawn_worker` returned, which indexes the supervisor's worker
/// set, so no worker is tracked twice.
#[derive(Debug, PartialEq, Eq)]
pub enum WorkerState {
    Running,
    Completed(WorkerOutcome),
}

/// The reason shutdown began.  Recorded exactly once per run, when the
/// first termination trigger fires; immutable afterwards.
#[derive(Debug, PartialEq, Eq)]
pub enum ShutdownTrigger {
    /// An OS interrupt request (e.g. Ctrl+C) arrived.
    UserInterrupt,
    /// An OS terminate request arrived.
    TerminateRequest,
    /// A worker completed with a failure: its handle and the reported reason.
    WorkerFailed(usize, String),
    /// The worker set drained on its own: a worker finished successfully,
    /// or no worker was running in the first place.
    WorkerSetExhausted,
    /// The cancellation signal was flipped by some holder other than the
    /// supervisor itself.
    ExplicitCancellation,
}

/// One of the events the race phase waits on.  The first to arrive decides
/// the shutdown trigger; any that arrive later are still recorded (a worker
/// completion must not be lost) but never change the trigger.
#[derive(Debug, PartialEq, Eq)]
pub enum RaceEvent {
    /// An OS interrupt request.
    Interrupt,
    /// An OS terminate request.
    Terminate,
    /// The worker with this handle finished successfully.
    WorkerSucceeded(usize),
    /// The worker with this handle reported a failure with this message.
    WorkerFailed(usize, String),
    /// The worker set is empty: nothing is left to wait for.
    WorkerSetEmpty,
    /// The cancellation signal was observed already cancelled.
    CancellationObserved,
}

/// The supervisor's position in its run.
#[derive(Clone, Copy, Debug, PartialEq, Eq, Structural)]
pub enum Phase {
    /// Workers are being spawned.
    Initializing,
    /// Waiting for the first termination trigger.
    Racing,
    /// A trigger fired; cancellation is about to be broadcast.
    CancellationBroadcast,
    /// Cancellation is out; waiting for the workers to exit.
    Draining,
    /// Every worker exited within the grace period.
    Completed,
    /// The grace period elapsed and stragglers were force-aborted.
    DrainTimedOut,
}

/// Everything a finished run reports back.
#[derive(Debug)]
pub struct ShutdownReport {
    /// The one trigger that ended the race phase.
    pub trigger: ShutdownTrigger,
    /// The final outcome of every worker, indexed by its handle.
    pub outcomes: Vec<WorkerOutcome>,
    /// Whether the drain phase had to force-abort stragglers.
    pub drain_timed_out: bool,
    /// The statistics summary, if the collaborator produced one.
    pub summary: Option<String>,
}

/// The shutdown sequencing state machine for one run.
///
/// The asynchronous environment spawns the actual tasks, waits on OS
/// signals and timers, and feeds what happened in as `RaceEvent`s; every
/// decision — which trigger is recorded, when cancellation is broadcast,
/// which workers are force-aborted, what the report says — is made here.
pub struct Supervisor {
    /// Where the run stands.
    pub phase: Phase,
    /// The run's cancellation signal; every worker holds a clone.
    pub signal: CancellationSignal,
    /// One entry per spawned worker, indexed by its handle.
    pub workers: Vec<WorkerState>,
    /// The recorded shutdown trigger, once the race phase has ended.
    pub trigger: Option<ShutdownTrigger>,
    /// How long the drain phase may last, in milliseconds.
    pub grace_period_ms: u64,
    /// Whether the drain phase ended by force-abort.
    pub drain_timed_out: bool,
    /// The statistics summary, once recorded.
    pub summary: Option<String>,
}

/// Every worker has exited, one way or the other.
pub open spec fn all_completed(ws: Seq<WorkerState>) -> bool {
    forall|i: int| 0 <= i < ws.len() ==> ws[i] is Completed
}

/// The trigger that a race event decides, when it is the first to arrive.
pub open spec fn trigger_for(e: RaceEvent) -> ShutdownTrigger {
    match e {
        RaceEvent::Interrupt => ShutdownTrigger::UserInterrupt,
        RaceEvent::Terminate => ShutdownTrigger::TerminateRequest,
        RaceEvent::WorkerSucceeded(_) => ShutdownTrigger::WorkerSetExhausted,
        RaceEvent::WorkerFailed(h, reason) => ShutdownTrigger::WorkerFailed(h, reason),
        RaceEvent::WorkerSetEmpty => ShutdownTrigger::WorkerSetExhausted,
        RaceEvent::CancellationObserved => ShutdownTrigger::ExplicitCancellation,
    }
}

/// The worker set after a race event: a completion is recorded for a worker
/// that is still running; an outcome already recorded is never overwritten,
/// and the other events leave the set alone.
pub open spec fn workers_after(ws: Seq<WorkerState>, e: RaceEvent) -> Seq<WorkerState> {
    match e {
        RaceEvent::WorkerSucceeded(h) => (
            if h < ws.len() && ws[h as int] is Running {
                ws.update(h as int, WorkerState::Completed(WorkerOutcome::Success))
            } else {
                ws
            }
        ),
        RaceEvent::WorkerFailed(h, reason) => (
            if h < ws.len() && ws[h as int] is Running {
                ws.update(
                    h as int,
                    WorkerState::Completed(
                        WorkerOutcome::Failure(FailureReason::RuntimeFailure(reason)),
                    ),
                )
            } else {
                ws
            }
        ),
        _ => ws,
    }
}

/// A worker's state after the grace period has expired: a straggler is
/// recorded as having failed by timeout, a worker that already completed
/// keeps its real outcome.
pub open spec fn force_abort_one(w: WorkerState) -> WorkerState {
    match w {
        WorkerState::Running => WorkerState::Completed(
            WorkerOutcome::Failure(FailureReason::GraceTimeout),
        ),
        WorkerState::Completed(_) => w,
    }
}

/// The configuration and diagnostic fields a transition never touches.
pub open spec fn config_kept(pre: Supervisor, post: Supervisor) -> bool {
    &&& post.grace_period_ms == pre.grace_period_ms
    &&& post.summary == pre.summary
}

/// Spawning: one worker entry is appended, in the given initial state, and
/// nothing else moves.  The new worker's handle is the entry's index.
pub open spec fn spawn_step(pre: Supervisor, post: Supervisor, st: WorkerState) -> bool {
    &&& post.phase == pre.phase
    &&& post.trigger == pre.trigger
    &&& post.workers@ == pre.workers@.push(st)
    &&& post.signal == pre.signal
    &&& post.drain_timed_out == pre.drain_timed_out
    &&& config_kept(pre, post)
}

/// Entering the race phase: only the phase moves, from `Initializing` to
/// `Racing`.
pub open spec fn race_start_step(pre: Supervisor, post: Supervisor) -> bool {
    &&& pre.phase is Initializing
    &&& post.phase is Racing
    &&& post.trigger == pre.trigger
    &&& post.workers@ == pre.workers@
    &&& post.signal == pre.signal
    &&& post.drain_timed_out == pre.drain_timed_out
    &&& config_kept(pre, post)
}

/// Observing a race event.  If the race is still open, the event decides
/// the trigger and closes it; otherwise the recorded trigger stands
/// untouched, so simultaneous triggers are never double-counted and the
/// race phase is never re-entered.  Either way a worker completion carried
/// by the event is recorded, without overwriting an outcome already known.
pub open spec fn observe_step(pre: Supervisor, post: Supervisor, e: RaceEvent) -> bool {
    &&& (pre.phase is Racing ==> post.phase is CancellationBroadcast
        && post.trigger == Some(trigger_for(e)))
    &&& (!(pre.phase is Racing) ==> post.phase == pre.phase && post.trigger == pre.trigger)
    &&& post.workers@ == workers_after(pre.workers@, e)
    &&& post.signal == pre.signal
    &&& post.drain_timed_out == pre.drain_timed_out
    &&& config_kept(pre, post)
}

/// Broadcasting cancellation: the signal is cancelled — idempotently, as a
/// backup for trigger paths that already flipped it — and the run moves on
/// to draining.
pub open spec fn broadcast_step(pre: Supervisor, post: Supervisor) -> bool {
    &&& pre.phase is CancellationBroadcast
    &&& post.phase is Draining
    &&& post.signal.is_cancelled()
    &&& (pre.signal.is_cancelled() ==> post.signal == pre.signal)
    &&& post.trigger == pre.trigger
    &&& post.workers@ == pre.workers@
    &&& post.drain_timed_out == pre.drain_timed_out
    &&& config_kept(pre, post)
}

/// Ending the drain phase.  If every worker already completed, the run
/// completes and no outcome is touched; otherwise every straggler is
/// force-aborted and recorded as a timeout failure, every completed worker
/// keeps its real outcome, and the run ends timed out.
pub open spec fn drain_step(pre: Supervisor, post: Supervisor) -> bool {
    &&& pre.phase is Draining
    &&& post.trigger == pre.trigger
    &&& post.signal == pre.signal
    &&& config_kept(pre, post)
    &&& (all_completed(pre.workers@) ==> post.phase is Completed && !post.drain_timed_out
        && post.workers@ == pre.workers@)
    &&& (!all_completed(pre.workers@) ==> post.phase is DrainTimedOut && post.drain_timed_out
        && post.workers@.len() == pre.workers@.len()
        && (forall|i: int|
            0 <= i < pre.workers@.len() ==> post.workers@[i] == force_abort_one(
                #[trigger] pre.workers@[i],
            )))
}

/// Recording the statistics summary: only the summary field moves, in a
/// terminal state.
pub open spec fn summary_step(pre: Supervisor, post: Supervisor, s: Option<String>) -> bool {
    &&& pre.is_terminal()
    &&& post.phase == pre.phase
    &&& post.trigger == pre.trigger
    &&& post.workers@ == pre.workers@
    &&& post.signal == pre.signal
    &&& post.drain_timed_out == pre.drain_timed_out
    &&& post.grace_period_ms == pre.grace_period_ms
    &&& post.summary == s
}

impl Supervisor {
    /// The supervisor's internal invariant: the trigger is recorded exactly
    /// when the race phase has ended, cancellation precedes draining, the
    /// timeout flag marks exactly the timed-out terminal state, and a
    /// terminal supervisor tracks no running worker.
    pub open spec fn wf(self) -> bool {
        &&& (self.phase is Initializing ==> self.trigger is None && !self.signal.is_cancelled()
            && !self.drain_timed_out && self.summary is None)
        &&& (self.phase is Racing ==> self.trigger is None && !self.drain_timed_out
            && self.summary is None)
        &&& (self.phase is CancellationBroadcast ==> self.trigger is Some && !self.drain_timed_out
            && self.summary is None)
        &&& (self.phase is Draining ==> self.trigger is Some && self.signal.is_cancelled()
            && !self.drain_timed_out && self.summary is None)
        &&& (self.phase is Completed ==> self.trigger is Some && self.signal.is_cancelled()
            && all_completed(self.workers@) && !self.drain_timed_out)
        &&& (self.phase is DrainTimedOut ==> self.trigger is Some && self.signal.is_cancelled()
            && all_completed(self.workers@) && self.drain_timed_out)
    }

    /// The run has reached one of its two terminal states.
    pub open spec fn is_terminal(self) -> bool {
        self.phase is Completed || self.phase is DrainTimedOut
    }

    /// A fresh run: initializing, with a fresh signal, no workers, no
    /// trigger, and the given grace period.
    pub fn new(grace_period_ms: u64) -> (s: Supervisor)
        ensures
            s.wf(),
            s.phase is Initializing,
            s.workers@ =~= Seq::<WorkerState>::empty(),
            s.trigger is None,
            !s.signal.is_cancelled(),
            s.grace_period_ms == grace_period_ms,
            !s.drain_timed_out,
            s.summary is None,
    {
        Supervisor {
            phase: Phase::Initializing,
            signal: CancellationSignal::new(),
            workers: Vec::new(),
            trigger: None,
            grace_period_ms,
            drain_timed_out: false,
            summary: None,
        }
    }

    /// Record a newly spawned worker; the returned handle identifies it for
    /// the rest of the run.
    pub fn spawn_worker(&mut self) -> (h: usize)
        requires
            old(self).wf(),
            old(self).phase is Initializing,
        ensures
            final(self).wf(),
            final(self).phase is Initializing,
            spawn_step(*old(self), *final(self), WorkerState::Running),
            h == old(self).workers@.len(),
    {
        let h = self.workers.len();
        self.workers.push(WorkerState::Running);
        h
    }

    /// Record a worker whose factory failed synchronously during spawn: it
    /// gets a handle and an immediate failure outcome, and spawning of the
    /// remaining workers goes on.
    pub fn record_spawn_failure(&mut self, reason: String) -> (h: usize)
        requires
            old(self).wf(),
            old(self).phase is Initializing,
        ensures
            final(self).wf(),
            final(self).phase is Initializing,
            spawn_step(
                *old(self),
                *final(self),
                WorkerState::Completed(WorkerOutcome::Failure(FailureReason::SpawnFailure(reason))),
            ),
            h == old(self).workers@.len(),
    {
        let h = self.workers.len();
        self.workers.push(
            WorkerState::Completed(WorkerOutcome::Failure(FailureReason::SpawnFailure(reason))),
        );
        h
    }

    /// All workers are spawned: start waiting for the first termination
    /// trigger.
    pub fn begin_race(&mut self)
        requires
            old(self).wf(),
            old(self).phase is Initializing,
        ensures
            final(self).wf(),
            race_start_step(*old(self), *final(self)),
    {
        self.phase = Phase::Racing;
    }

    /// Feed in a race event.  The first event while the race is open is
    /// recorded as the run's one shutdown trigger; later events never
    /// change it and never re-open the race.  A worker completion carried
    /// by the event is recorded in the worker set unless that worker's
    /// outcome is already known.
    pub fn observe_event(&mut self, event: RaceEvent)
        requires
            old(self).wf(),
            !(old(self).phase is Initializing),
        ensures
            final(self).wf(),
            observe_step(*old(self), *final(self), event),
    {
        let racing = self.phase == Phase::Racing;
        match event {
            RaceEvent::Interrupt => {
                if racing {
                    self.trigger = Some(ShutdownTrigger::UserInterrupt);
                }
            },
            RaceEvent::Terminate => {
                if racing {
                    self.trigger = Some(ShutdownTrigger::TerminateRequest);
                }
            },
            RaceEvent::WorkerSucceeded(h) => {
                if h < self.workers.len() && matches!(self.workers[h], WorkerState::Running) {
                    self.workers.set(h, WorkerState::Completed(WorkerOutcome::Success));
                }
                if racing {
                    self.trigger = Some(ShutdownTrigger::WorkerSetExhausted);
                }
            },
            RaceEvent::WorkerFailed(h, reason) => {
                if h < self.workers.len() && matches!(self.workers[h], WorkerState::Running) {
                    let recorded = reason.clone();
                    self.workers.set(
                        h,
                        WorkerState::Completed(
                            WorkerOutcome::Failure(FailureReason::RuntimeFailure(recorded)),
                        ),
                    );
                }
                if racing {
                    self.trigger = Some(ShutdownTrigger::WorkerFailed(h, reason));
                }
            },
            RaceEvent::WorkerSetEmpty => {
                if racing {
                    self.trigger = Some(ShutdownTrigger::WorkerSetExhausted);
                }
            },
            RaceEvent::CancellationObserved => {
                if racing {
                    self.trigger = Some(ShutdownTrigger::ExplicitCancellation);
                }
            },
        }
        if racing {
            self.phase = Phase::CancellationBroadcast;
        }
    }

    /// The race has been decided: broadcast cancellation to every worker —
    /// a no-op if some trigger path already flipped the signal — and start
    /// the drain phase.
    pub fn broadcast_cancellation(&mut self)
        requires
            old(self).wf(),
            old(self).phase is CancellationBroadcast,
        ensures
            final(self).wf(),
            broadcast_step(*old(self), *final(self)),
    {
        self.signal.cancel();
        self.phase = Phase::Draining;
    }

    /// Whether every worker has exited.
    pub fn all_workers_completed(&self) -> (r: bool)
        ensures
            r == all_completed(self.workers@),
    {
        let n = self.workers.len();
        let mut i: usize = 0;
        while i < n
            invariant
                n == self.workers@.len(),
                i <= n,
                forall|j: int| 0 <= j < i ==> self.workers@[j] is Completed,
            decreases n - i,
        {
            if matches!(self.workers[i], WorkerState::Running) {
                return false;
            }
            i = i + 1;
        }
        true
    }

    /// End the drain phase, either because every worker exited or because
    /// the grace period elapsed.  If all workers completed in time the run
    /// completes and nothing is aborted; otherwise every straggler is
    /// force-aborted and recorded as a timeout failure — workers that
    /// already completed keep their real outcomes — and the run ends in
    /// the timed-out terminal state.
    pub fn finish_drain(&mut self)
        requires
            old(self).wf(),
            old(self).phase is Draining,
        ensures
            final(self).wf(),
            final(self).is_terminal(),
            drain_step(*old(self), *final(self)),
    {
        if self.all_workers_completed() {
            self.phase = Phase::Completed;
        } else {
            let n = self.workers.len();
            let mut i: usize = 0;
            while i < n
                invariant
                    n == self.workers@.len(),
                    n == old(self).workers@.len(),
                    i <= n,
                    self.phase == old(self).phase,
                    self.signal == old(self).signal,
                    self.trigger == old(self).trigger,
                    self.grace_period_ms == old(self).grace_period_ms,
                    self.drain_timed_out == old(self).drain_timed_out,
                    self.summary == old(self).summary,
                    forall|j: int|
                        0 <= j < i ==> self.workers@[j] == force_abort_one(
                            #[trigger] old(self).workers@[j],
                        ),
                    forall|j: int| i <= j < n ==> self.workers@[j] == old(self).workers@[j],
                decreases n - i,
            {
                if matches!(self.workers[i], WorkerState::Running) {
                    self.workers.set(
                        i,
                        WorkerState::Completed(
                            WorkerOutcome::Failure(FailureReason::GraceTimeout),
                        ),
                    );
                }
                i = i + 1;
            }
            self.drain_timed_out = true;
            self.phase = Phase::DrainTimedOut;
            assert forall|j: int| 0 <= j < self.workers@.len() implies self.workers@[j]
                is Completed by {
                assert(self.workers@[j] == force_abort_one(old(self).workers@[j]));
            }
        }
    }

    /// Record what the statistics collaborator returned — `None` where it
    /// failed, since its failure must not block shutdown.  Nothing else of
    /// the finished run moves.
    pub fn record_summary(&mut self, summary: Option<String>)
        requires
            old(self).wf(),
            old(self).is_terminal(),
        ensures
            final(self).wf(),
            summary_step(*old(self), *final(self), summary),
    {
        self.summary = summary;
    }

    /// Turn a finished run into its report: the one recorded trigger, the
    /// final outcome of every worker in spawn order, whether the drain
    /// phase timed out, and the statistics summary if one was collected.
    pub fn into_report(self) -> (r: ShutdownReport)
        requires
            self.wf(),
            self.is_terminal(),
        ensures
            Some(r.trigger) == self.trigger,
            r.drain_timed_out == self.drain_timed_out,
            r.summary == self.summary,
            r.outcomes@.len() == self.workers@.len(),
            forall|i: int|
                0 <= i < self.workers@.len() ==> self.workers@[i] == WorkerState::Completed(
                    #[trigger] r.outcomes@[i],
                ),
    {
        let ghost orig = self;
        let Supervisor { workers, trigger, drain_timed_out, summary, .. } = self;
        let mut remaining = workers;
        let mut outcomes: Vec<WorkerOutcome> = Vec::new();
        while remaining.len() > 0
            invariant
                orig.wf(),
                orig.is_terminal(),
                outcomes@.len() + remaining@.len() == orig.workers@.len(),
                remaining@ == orig.workers@.subrange(
                    outcomes@.len() as int,
                    orig.workers@.len() as int,
                ),
                forall|i: int|
                    0 <= i < outcomes@.len() ==> orig.workers@[i] == WorkerState::Completed(
                        #[trigger] outcomes@[i],
                    ),
            decreases remaining@.len(),
        {
            let w = remaining.remove(0);
            match w {
                WorkerState::Completed(o) => outcomes.push(o),
                WorkerState::Running => {
                    proof {
                        assert(false);
                    }
                },
            }
        }
        let t = match trigger {
            Some(t) => t,
            None => {
                proof {
                    assert(false);
                }
                ShutdownTrigger::WorkerSetExhausted
            },
        };
        ShutdownReport { trigger: t, outcomes, drain_timed_out, summary }
    }
}

} // verus!
