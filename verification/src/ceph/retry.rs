//! The retry of sends that failed in a way that may pass.
//!
//! This stage stands directly above the sender. It sees how each physical
//! send ended and decides whether the send is made again. How long to wait
//! before a retry is the business of the exponential backoff of
//! `reqwest_retry`; how often to retry, and what for, is decided here.

use crate::ceph::{is_server_error, CephRestfulClientError, Delivery};
use reqwest_retry::policies::ExponentialBackoff;
use reqwest_retry::RetryPolicy;
use retry_policies::RetryDecision;
use vstd::prelude::*;

verus! {

/// How often one send is made again at most.
pub const MAX_RETRIES: u32 = 3;

/// Builds the `ExponentialBackoff` of `reqwest_retry` with its default
/// bounds, base and jitter, for `max_retries` retries, and calls its
/// `should_retry` for a send that was retried `past_retries` times already.
/// Handed back is the time before which the next attempt is not to be made,
/// in milliseconds since the Unix epoch, or `None` where the policy gives up.
/// The contract claims that the policy gives up exactly when `max_retries`
/// retries were made. Nothing is claimed of the time: it depends on the clock
/// and on a random jitter.
#[verifier::external_body]
pub(crate) fn backoff_deadline(max_retries: u32, past_retries: u32) -> (deadline: Option<i64>)
    ensures
        deadline is Some <==> past_retries < max_retries,
{
    let policy = ExponentialBackoff::builder().build_with_max_retries(max_retries);
    match policy.should_retry(past_retries) {
        RetryDecision::Retry { execute_after } => Some(execute_after.timestamp_millis()),
        RetryDecision::DoNotRetry => None,
    }
}

/// A send that ended in a way that may pass: without an answer, for a reason
/// of the network, or with a status 5xx. A status 4xx is never one of these.
pub open spec fn is_transient(attempt: Delivery) -> bool {
    match attempt {
        Delivery::Response { status } => is_server_error(status),
        Delivery::Failed { transient } => transient,
    }
}

/// Whether a send ended in a way that may pass.
pub fn may_pass(attempt: Delivery) -> (transient: bool)
    ensures
        transient == is_transient(attempt),
{
    match attempt {
        Delivery::Response { status } => 500 <= status && status <= 599,
        Delivery::Failed { transient } => transient,
    }
}

/// What is to be done after a send.
#[derive(Debug, Clone, Copy, PartialEq, Eq, Structural)]
pub enum RetryAction {
    /// Make the send again, not before this time, in milliseconds since the
    /// Unix epoch.
    Retry { not_before: i64 },
    /// Hand the outcome of the send to the stage above, as it is.
    Deliver,
    /// Fail the request.
    Fail(CephRestfulClientError),
}

/// How often the send of one request was made again so far.
#[derive(Debug, Clone, Copy, PartialEq, Eq)]
pub struct RetryState {
    past_retries: u32,
}

/// The decision after a send that was retried `past_retries` times before,
/// where `backoff` is what the backoff policy said: the retries made after
/// this decision, and what is to be done.
///
/// - An outcome that is not transient is delivered.
/// - A transient outcome is delivered too once `MAX_RETRIES` retries were
///   made, or where the policy names no time.
/// - Otherwise the send is made again at the time that the policy named, if
///   the request can be sent again exactly as it was; if it cannot, the
///   request fails with `NotReplayable`.
pub open spec fn retry_spec(
    past_retries: u32,
    attempt: Delivery,
    replayable: bool,
    backoff: Option<i64>,
) -> (u32, RetryAction) {
    if is_transient(attempt) && past_retries < MAX_RETRIES && backoff is Some {
        if replayable {
            ((past_retries + 1) as u32, RetryAction::Retry { not_before: backoff->0 })
        } else {
            (past_retries, RetryAction::Fail(CephRestfulClientError::NotReplayable))
        }
    } else {
        (past_retries, RetryAction::Deliver)
    }
}

impl RetryState {
    /// No send is retried more often than `MAX_RETRIES` times.
    #[verifier::type_invariant]
    spec fn bounded(self) -> bool {
        self.past_retries <= MAX_RETRIES
    }

    /// The retries made so far.
    pub closed spec fn past_retries(&self) -> u32 {
        self.past_retries
    }

    /// The state before the first send of a request.
    pub fn new() -> (state: Self)
        ensures
            state.past_retries() == 0,
    {
        RetryState { past_retries: 0 }
    }

    /// The retries made so far, which are never more than `MAX_RETRIES`.
    pub fn retries(&self) -> (count: u32)
        ensures
            count == self.past_retries(),
            count <= MAX_RETRIES,
    {
        proof {
            use_type_invariant(self);
        }
        self.past_retries
    }

    /// Decides what follows a send, given what the backoff policy said.
    pub fn decide(self, attempt: Delivery, replayable: bool, backoff: Option<i64>) -> (step: (
        Self,
        RetryAction,
    ))
        ensures
            (step.0.past_retries(), step.1) == retry_spec(
                self.past_retries(),
                attempt,
                replayable,
                backoff,
            ),
    {
        let transient = may_pass(attempt);
        if transient && self.past_retries < MAX_RETRIES {
            match backoff {
                Some(not_before) => {
                    if replayable {
                        (
                            RetryState { past_retries: self.past_retries + 1 },
                            RetryAction::Retry { not_before },
                        )
                    } else {
                        (self, RetryAction::Fail(CephRestfulClientError::NotReplayable))
                    }
                },
                None => (self, RetryAction::Deliver),
            }
        } else {
            (self, RetryAction::Deliver)
        }
    }

    /// Decides what follows a send. The backoff policy is asked for the time
    /// of the next attempt; whether there is one does not depend on its
    /// answer: a transient outcome is retried as long as fewer than
    /// `MAX_RETRIES` retries were made, and no other outcome ever is.
    pub fn on_attempt(self, attempt: Delivery, replayable: bool) -> (step: (Self, RetryAction))
        ensures
            exists|not_before: i64|
                (step.0.past_retries(), step.1) == #[trigger] retry_spec(
                    self.past_retries(),
                    attempt,
                    replayable,
                    Some(not_before),
                ),
    {
        proof {
            use_type_invariant(self);
        }
        let backoff = if may_pass(attempt) && self.past_retries < MAX_RETRIES {
            backoff_deadline(MAX_RETRIES, self.past_retries)
        } else {
            None
        };
        let step = self.decide(attempt, replayable, backoff);
        proof {
            match backoff {
                Some(not_before) => {
                    assert((step.0.past_retries(), step.1) == retry_spec(
                        self.past_retries(),
                        attempt,
                        replayable,
                        Some(not_before),
                    ));
                },
                None => {
                    assert((step.0.past_retries(), step.1) == retry_spec(
                        self.past_retries(),
                        attempt,
                        replayable,
                        Some(0i64),
                    ));
                },
            }
        }
        step
    }
}

/// How long to wait at the time `now` so as not to send before `not_before`,
/// both in milliseconds since the Unix epoch: the time that is left, and
/// nothing if `not_before` has passed.
pub open spec fn wait_spec(not_before: i64, now: i64) -> int {
    if not_before > now {
        not_before - now
    } else {
        0
    }
}

/// The milliseconds to wait at the time `now` before a retry that is due at
/// `not_before`.
pub fn wait_for(not_before: i64, now: i64) -> (wait: u64)
    ensures
        wait == wait_spec(not_before, now),
{
    if not_before > now {
        let left: i128 = not_before as i128 - now as i128;
        left as u64
    } else {
        0
    }
}

/// The retries of one send are bounded. A retry is decided only for a
/// transient outcome of a request that can be sent again, and only while
/// fewer than `MAX_RETRIES` retries were made; each one counts. So a send is
/// made four times at most, and a status 4xx is never sent again.
pub proof fn lemma_retries_bounded(
    past_retries: u32,
    attempt: Delivery,
    replayable: bool,
    backoff: Option<i64>,
)
    requires
        past_retries <= MAX_RETRIES,
    ensures
        ({
            let step = retry_spec(past_retries, attempt, replayable, backoff);
            &&& step.0 <= MAX_RETRIES
            &&& step.1 is Retry ==> is_transient(attempt) && replayable && past_retries
                < MAX_RETRIES && step.0 == past_retries + 1
            &&& !(step.1 is Retry) ==> step.0 == past_retries
            &&& past_retries == MAX_RETRIES ==> step.1 == RetryAction::Deliver
            &&& (attempt matches Delivery::Response { status } && !is_server_error(status))
                ==> step.1 == RetryAction::Deliver
        }),
{
}

} // verus!
