//! The connection supervisor's retry policy.
//!
//! The harness is meant to be started before the broker is guaranteed ready,
//! so a refused connection is an expected operational condition: the policy
//! backs off a fixed 250 milliseconds and tries again, with no upper bound on
//! attempts. Only the initial handshake tolerates retry; once a connection is
//! established, transport failures are fatal elsewhere.

use vstd::prelude::*;

verus! {

/// The fixed pause between connection attempts, in milliseconds.
pub const CONNECT_BACKOFF_MILLIS: u64 = 250;

/// What the supervisor does after one connection attempt.
#[derive(Clone, Copy, PartialEq, Eq, Debug)]
pub enum RetryDecision {
    /// The connection is up; hand it to the selected role.
    Proceed,
    /// The attempt failed; pause this long and try again.
    Backoff { millis: u64 },
}

/// Decide after one connection attempt: proceed on success, otherwise back
/// off the fixed pause and retry — a refused connection is never surfaced as
/// a failure.
pub fn connect_decision(succeeded: bool) -> (r: RetryDecision)
    ensures
        r == if succeeded {
            RetryDecision::Proceed
        } else {
            (RetryDecision::Backoff { millis: CONNECT_BACKOFF_MILLIS })
        },
{
    if succeeded {
        RetryDecision::Proceed
    } else {
        RetryDecision::Backoff { millis: CONNECT_BACKOFF_MILLIS }
    }
}

/// The total startup delay a run of failed connection attempts costs before
/// the successful one: exactly the fixed backoff per failure.
pub fn total_backoff_millis(failed_attempts: u64) -> (r: Option<u64>)
    ensures
        r is Some <==> failed_attempts * CONNECT_BACKOFF_MILLIS <= u64::MAX,
        (r matches Some(t) ==> t == failed_attempts * CONNECT_BACKOFF_MILLIS),
{
    failed_attempts.checked_mul(CONNECT_BACKOFF_MILLIS)
}

} // verus!
