//! A graceful-shutdown supervisor.
//!
//! The supervisor owns the lifecycle of a set of concurrent workers: it
//! detects the first of several termination triggers, broadcasts a single
//! cancellation decision to every worker, waits a bounded grace period for
//! the workers to drain, force-aborts stragglers, and reports how the run
//! ended.  The asynchronous plumbing (OS signals, task spawning, timers)
//! lives outside this crate; the decision logic here is verified.

pub mod laws;
pub mod signal;
pub mod supervisor;
