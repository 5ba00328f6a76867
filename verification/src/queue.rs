//! The email job handed to the delivery queue, and how handing it over is retried.

use vstd::prelude::*;

verus! {

/// One message for the email worker.
#[derive(Debug, Clone)]
pub struct EmailJob {
    pub to: String,
    pub subject: String,
    pub text_body: String,
}

/// How many times handing a message to the queue is attempted before giving up.
pub const EMAIL_ENQUEUE_ATTEMPTS: u32 = 3;

/// The first retry delay, in milliseconds; each later retry doubles it.
pub const EMAIL_ENQUEUE_BASE_DELAY_MS: u64 = 50;

/// What to do after a failed hand-over.
#[derive(Debug, Clone, Copy, PartialEq, Eq, Structural)]
pub enum EnqueueRetry {
    /// Wait this many milliseconds, then try again.
    After(u64),
    /// Stop: the failure is logged and the recipient must ask for another link.
    GiveUp,
}

/// `2^n`.
pub open spec fn pow2(n: nat) -> nat
    decreases n,
{
    if n == 0 {
        1
    } else {
        2 * pow2((n - 1) as nat)
    }
}

/// The decision after attempt number `attempt` (counting from one) failed: the last attempt
/// gives up; an earlier one waits 50 ms doubled for every attempt already made.
pub fn after_failed_enqueue(attempt: u32) -> (r: EnqueueRetry)
    requires
        1 <= attempt <= EMAIL_ENQUEUE_ATTEMPTS,
    ensures
        attempt == EMAIL_ENQUEUE_ATTEMPTS ==> r == EnqueueRetry::GiveUp,
        attempt < EMAIL_ENQUEUE_ATTEMPTS ==> r == EnqueueRetry::After(
            (EMAIL_ENQUEUE_BASE_DELAY_MS * pow2((attempt - 1) as nat)) as u64,
        ),
{
    if attempt == EMAIL_ENQUEUE_ATTEMPTS {
        return EnqueueRetry::GiveUp;
    }
    let mut delay: u64 = EMAIL_ENQUEUE_BASE_DELAY_MS;
    let mut k: u32 = 1;
    while k < attempt
        invariant
            1 <= k <= attempt < EMAIL_ENQUEUE_ATTEMPTS,
            delay == EMAIL_ENQUEUE_BASE_DELAY_MS * pow2((k - 1) as nat),
        decreases attempt - k,
    {
        assert(pow2(k as nat) == 2 * pow2((k - 1) as nat));
        delay = delay * 2;
        k = k + 1;
    }
    EnqueueRetry::After(delay)
}

} // verus!
