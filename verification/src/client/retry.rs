//! The decisions of `send`: which message id a request carries, and what to
//! do after each attempt to deliver it.

use vstd::prelude::*;
use crate::client::soap::Messages;

verus! {

/// The number of attempts `send` makes before giving up.
pub const MAX_RETRIES: usize = 5;

/// Seconds to wait for the reply to one attempt.
pub const TIMEOUT_SECS: u64 = 1;

/// Milliseconds to wait before the next attempt after a failed one.
pub const BACKOFF_MILLIS: u64 = 200;

/// Seconds after which the HTTP client itself abandons a request.
pub const CLIENT_TIMEOUT_SECS: u64 = 30;

/// Idle connections the HTTP client keeps per host.
pub const POOL_MAX_IDLE_PER_HOST: usize = 5;

/// What came of one attempt to deliver a request.
#[derive(Debug, Clone, Copy, PartialEq, Eq)]
pub enum AttemptOutcome {
    /// A response arrived in time.
    Delivered,
    /// The request failed before the time ran out.
    Failed,
    /// No response arrived in time.
    TimedOut,
}

/// What `send` does after an attempt.
#[derive(Debug, Clone, Copy, PartialEq, Eq)]
pub enum SendStep {
    /// Hand the response to the caller.
    ReturnResponse,
    /// Wait `BACKOFF_MILLIS`, then make the next attempt.
    RetryAfterBackoff,
    /// Report that no response came after `MAX_RETRIES` attempts.
    GiveUp,
}

/// The step after attempt number `attempt` (counted from 1) ended with
/// `outcome`: a response is returned at once; a failure is retried after a
/// pause unless it was the last attempt.
pub open spec fn step_after(attempt: int, outcome: AttemptOutcome) -> SendStep {
    if outcome == AttemptOutcome::Delivered {
        SendStep::ReturnResponse
    } else if attempt < MAX_RETRIES {
        SendStep::RetryAfterBackoff
    } else {
        SendStep::GiveUp
    }
}

/// Decides what `send` does after attempt number `attempt` ended with
/// `outcome`.
pub fn next_send_step(attempt: usize, outcome: AttemptOutcome) -> (step: SendStep)
    requires
        1 <= attempt <= MAX_RETRIES,
    ensures
        step == step_after(attempt as int, outcome),
{
    match outcome {
        AttemptOutcome::Delivered => SendStep::ReturnResponse,
        _ => if attempt < MAX_RETRIES {
            SendStep::RetryAfterBackoff
        } else {
            SendStep::GiveUp
        },
    }
}

/// Whether a request needs a fresh random message id: only the discovery
/// probe carries one; every other request uses the nil id.
pub fn needs_fresh_message_id(msg: &Messages) -> (fresh: bool)
    ensures
        fresh == (*msg is Discovery),
{
    match msg {
        Messages::Discovery => true,
        _ => false,
    }
}

/// The course of `send` from attempt number `attempt` on, when attempt `k`
/// ends with `outcomes[k - 1]`: whether a response was returned, how many
/// attempts were made in all, and how many pauses were taken.
pub open spec fn send_run(outcomes: Seq<AttemptOutcome>, attempt: int) -> (bool, int, int)
    decreases MAX_RETRIES - attempt,
{
    if attempt < 1 || attempt > MAX_RETRIES {
        (false, attempt - 1, attempt - 1)
    } else {
        match step_after(attempt, outcomes[attempt - 1]) {
            SendStep::ReturnResponse => (true, attempt, attempt - 1),
            SendStep::GiveUp => (false, attempt, attempt - 1),
            SendStep::RetryAfterBackoff => send_run(outcomes, attempt + 1),
        }
    }
}

/// `send` makes at most `MAX_RETRIES` attempts, pauses once between each two of
/// them and never after the last, and returns a response exactly when one of
/// its attempts is delivered: the first one, after which it stops.
pub proof fn lemma_send_run(outcomes: Seq<AttemptOutcome>)
    requires
        outcomes.len() >= MAX_RETRIES,
    ensures
        ({
            let (delivered, attempts, pauses) = send_run(outcomes, 1);
            &&& 1 <= attempts <= MAX_RETRIES
            &&& pauses == attempts - 1
            &&& delivered <==> exists|k: int|
                0 <= k < MAX_RETRIES && outcomes[k] == AttemptOutcome::Delivered
            &&& delivered ==> outcomes[attempts - 1] == AttemptOutcome::Delivered
            &&& forall|k: int| 0 <= k < attempts - 1 ==> outcomes[k] != AttemptOutcome::Delivered
        }),
{
    lemma_send_run_from(outcomes, 1);
}

proof fn lemma_send_run_from(outcomes: Seq<AttemptOutcome>, attempt: int)
    requires
        outcomes.len() >= MAX_RETRIES,
        1 <= attempt <= MAX_RETRIES,
    ensures
        ({
            let (delivered, attempts, pauses) = send_run(outcomes, attempt);
            &&& attempt <= attempts <= MAX_RETRIES
            &&& pauses == attempts - 1
            &&& delivered <==> exists|k: int|
                attempt - 1 <= k < MAX_RETRIES && outcomes[k] == AttemptOutcome::Delivered
            &&& delivered ==> outcomes[attempts - 1] == AttemptOutcome::Delivered
            &&& forall|k: int|
                attempt - 1 <= k < attempts - 1 ==> outcomes[k] != AttemptOutcome::Delivered
        }),
    decreases MAX_RETRIES - attempt,
{
    if outcomes[attempt - 1] != AttemptOutcome::Delivered && attempt < MAX_RETRIES {
        lemma_send_run_from(outcomes, attempt + 1);
        let (delivered, attempts, pauses) = send_run(outcomes, attempt);
        if delivered {
            let k = choose|k: int|
                attempt <= k < MAX_RETRIES && outcomes[k] == AttemptOutcome::Delivered;
            assert(attempt - 1 <= k < MAX_RETRIES && outcomes[k] == AttemptOutcome::Delivered);
        }
    } else if outcomes[attempt - 1] == AttemptOutcome::Delivered {
        assert(outcomes[attempt - 1] == AttemptOutcome::Delivered);
    }
}

} // verus!
