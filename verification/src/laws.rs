use vstd::prelude::*;
use crate::supervisor::{
    FailureReason, RaceEvent, Supervisor, WorkerOutcome, WorkerState, all_completed,
    broadcast_step, drain_step, observe_step, race_start_step, spawn_step, summary_step,
    trigger_for,
};

verus! {

/// Any single transition of a supervisor run, whatever its inputs.
pub open spec fn supervisor_step(pre: Supervisor, post: Supervisor) -> bool {
    ||| (exists|st: WorkerState| spawn_step(pre, post, st))
    ||| race_start_step(pre, post)
    ||| (exists|e: RaceEvent| observe_step(pre, post, e))
    ||| broadcast_step(pre, post)
    ||| drain_step(pre, post)
    ||| (exists|s: Option<String>| summary_step(pre, post, s))
}

/// Exactly one shutdown trigger is recorded per run: once a well-formed
/// supervisor holds a trigger, no later transition — another racing event
/// included — replaces it.
pub proof fn lemma_trigger_recorded_once(pre: Supervisor, post: Supervisor)
    requires
        pre.wf(),
        pre.trigger is Some,
        supervisor_step(pre, post),
    ensures
        post.trigger == pre.trigger,
{
}

/// The race is decided by its first event alone: after `e1` ends the race
/// phase, a second event `e2` arriving in the same scheduling instant is
/// not double-counted — it neither replaces the recorded trigger nor
/// re-opens the race.
pub proof fn lemma_race_decided_by_first_event(
    s0: Supervisor,
    s1: Supervisor,
    s2: Supervisor,
    e1: RaceEvent,
    e2: RaceEvent,
)
    requires
        s0.phase is Racing,
        observe_step(s0, s1, e1),
        observe_step(s1, s2, e2),
    ensures
        s1.trigger == Some(trigger_for(e1)),
        s2.trigger == s1.trigger,
        s2.phase == s1.phase,
{
}

/// Voluntary completion: if every worker has exited by the time the drain
/// phase ends, the run reaches the `Completed` terminal state and no
/// worker is force-aborted — the worker set is untouched.
pub proof fn lemma_all_voluntary_no_forced_aborts(pre: Supervisor, post: Supervisor)
    requires
        all_completed(pre.workers@),
        drain_step(pre, post),
    ensures
        post.phase is Completed,
        !post.drain_timed_out,
        post.workers@ == pre.workers@,
{
}

/// A straggler forces a timeout: if some worker is still running when the
/// grace period elapses, the run reaches the `DrainTimedOut` terminal
/// state, every straggler's outcome is recorded as a timeout failure, and
/// every worker that already completed keeps its real outcome.
pub proof fn lemma_straggler_forces_timeout(pre: Supervisor, post: Supervisor)
    requires
        !all_completed(pre.workers@),
        drain_step(pre, post),
    ensures
        post.phase is DrainTimedOut,
        post.drain_timed_out,
        forall|i: int|
            0 <= i < pre.workers@.len() && #[trigger] pre.workers@[i] is Running
                ==> post.workers@[i] == WorkerState::Completed(
                WorkerOutcome::Failure(FailureReason::GraceTimeout),
            ),
        forall|i: int|
            0 <= i < pre.workers@.len() && #[trigger] pre.workers@[i] is Completed
                ==> post.workers@[i] == pre.workers@[i],
{
}

} // verus!
