//! The bounded-retry policy applied uniformly wherever the orchestrator
//! repeats remote work: a fixed number of attempts, a fixed pause between
//! them, and an error classification that says what is worth retrying.

use vstd::prelude::*;
use crate::github::GHError;

verus! {

/// A bounded-retry policy: how often to try, and how long to pause between
/// attempts.
#[derive(PartialEq, Eq, Structural, Clone, Copy, Debug)]
pub struct RetryPolicy {
    pub max_attempts: u64,
    pub delay_secs: u64,
}

/// The policy for polling a freshly created session until its remote shell
/// answers: ten attempts, thirty seconds apart.
pub fn readiness_policy() -> (p: RetryPolicy)
    ensures
        p == (RetryPolicy { max_attempts: 10, delay_secs: 30 }),
{
    RetryPolicy { max_attempts: 10, delay_secs: 30 }
}

/// Whether another attempt is allowed after `attempts_done` have failed.
pub fn should_retry(policy: &RetryPolicy, attempts_done: u64) -> (r: bool)
    ensures
        r == (attempts_done < policy.max_attempts),
{
    attempts_done < policy.max_attempts
}

/// Whether a failure is worth retrying: transient command failures are; a
/// rejected credential is not.
pub fn retryable(error: &GHError) -> (r: bool)
    ensures
        r == (error is CommandError),
{
    match error {
        GHError::CommandError(_) => true,
        GHError::AuthError(_) => false,
    }
}

/// Whether a readiness probe's answer shows the remote shell alive: the
/// probe echoes a marker, and the marker must come back.
pub fn ssh_ready(probe_output: &str) -> (r: bool)
    ensures
        r == crate::text::spec_contains(probe_output@, "ready"@),
{
    crate::text::str_contains(probe_output, "ready")
}

} // verus!
