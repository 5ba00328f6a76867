//! The pacing of the background loops.
//!
//! Each loop does one pass, then decides how long to rest before the next: not at all after
//! useful work, a short while when there was nothing to do, and longer after a failure, so a
//! self-hosted box is not spun by a poll loop and a broken dependency is not hammered.

use vstd::prelude::*;

verus! {

/// How many events or deliveries one pass takes.
pub const BATCH_SIZE: i64 = 20;
/// Seconds to rest after a pass that found nothing.
pub const IDLE_SLEEP_SECONDS: u64 = 2;
/// Seconds to rest after a pass that failed.
pub const ERROR_SLEEP_SECONDS: u64 = 5;
/// Seconds between two collections of abandoned uploads, which are not urgent.
pub const REAP_INTERVAL_SECONDS: u64 = 900;

/// The rest after a pass of the outbox or webhook loop: `None` when the pass failed, otherwise
/// how many items it worked on.
pub fn pause_after_pass(worked: Option<usize>) -> (seconds: u64)
    ensures
        seconds == match worked {
            None => ERROR_SLEEP_SECONDS,
            Some(0) => IDLE_SLEEP_SECONDS,
            Some(_) => 0,
        },
{
    match worked {
        None => ERROR_SLEEP_SECONDS,
        Some(0) => IDLE_SLEEP_SECONDS,
        Some(_) => 0,
    }
}

/// What the email loop got from the queue.
#[derive(Debug, Clone, Copy, PartialEq, Eq, Structural)]
pub enum Dequeued {
    /// A job, now being sent.
    Job,
    /// The queue was empty.
    Empty,
    /// The queue could not be reached.
    Unavailable,
}

/// The rest after the email loop asked the queue for a job.
pub fn pause_after_dequeue(got: Dequeued) -> (seconds: u64)
    ensures
        seconds == match got {
            Dequeued::Job => 0,
            Dequeued::Empty => IDLE_SLEEP_SECONDS,
            Dequeued::Unavailable => ERROR_SLEEP_SECONDS,
        },
{
    match got {
        Dequeued::Job => 0,
        Dequeued::Empty => IDLE_SLEEP_SECONDS,
        Dequeued::Unavailable => ERROR_SLEEP_SECONDS,
    }
}

} // verus!
