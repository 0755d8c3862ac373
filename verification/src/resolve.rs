//! The retry classifier and the endpoint-resolution client that it guards.
//!
//! A failed discovery call is retried after a backoff delay unless the
//! discovery service has declined the destination with "invalid argument":
//! that answer is final and is handed on as it is.

use crate::backoff::{spec_next_iterations, ExponentialBackoff, ExponentialBackoffStream};
use crate::failure::Failure;
use vstd::prelude::*;
use vstd::std_specs::convert::FromSpecImpl;

verus! {

/// A recovery policy: back off and retry every failure but "invalid
/// argument".
#[derive(Clone, Copy, Debug)]
pub struct BackoffUnlessInvalidArgument(pub ExponentialBackoff);

impl From<ExponentialBackoff> for BackoffUnlessInvalidArgument {
    fn from(eb: ExponentialBackoff) -> (r: Self) {
        BackoffUnlessInvalidArgument(eb)
    }
}

impl FromSpecImpl<ExponentialBackoff> for BackoffUnlessInvalidArgument {
    open spec fn obeys_from_spec() -> bool {
        true
    }

    open spec fn from_spec(eb: ExponentialBackoff) -> Self {
        BackoffUnlessInvalidArgument(eb)
    }
}

impl Default for BackoffUnlessInvalidArgument {
    /// The policy over the schedule of all zeros.
    fn default() -> (r: Self)
        ensures
            r.0.spec_min() == 0,
            r.0.spec_max() == 0,
            r.0.spec_jitter() == 0,
    {
        BackoffUnlessInvalidArgument(ExponentialBackoff::default())
    }
}

impl BackoffUnlessInvalidArgument {
    /// Classifies a failure. One that carries "invalid argument" anywhere in
    /// its chain is permanent and comes back unchanged; for any other a fresh
    /// cursor over the schedule is handed out.
    pub fn recover(&self, error: Failure) -> (r: Result<ExponentialBackoffStream, Failure>)
        ensures
            error.carries_invalid_argument() ==> r == Err::<ExponentialBackoffStream, Failure>(error),
            !error.carries_invalid_argument() ==> (r matches Ok(s) && s.spec_backoff() == self.0
                && s.spec_iterations() == 0),
    {
        if error.has_invalid_argument() {
            return Err(error);
        }
        Ok(self.0.stream())
    }
}

/// What a retry loop does after a failed attempt.
#[derive(Debug, PartialEq, Eq)]
pub enum Retry {
    /// Wait this many milliseconds, then call again.
    After(u64),
    /// Give up and hand on the failure.
    GiveUp(Failure),
}

/// The state of one retry loop: the backoff cursor, present from the first
/// failure until the next success. It belongs to one call and is shared with
/// no other.
#[derive(Clone, Copy, Debug)]
pub struct Recovery {
    backoff: Option<ExponentialBackoffStream>,
}

/// The cursor with which a loop in the state `backoff` answers its next
/// transient failure: the one it has, or a fresh one over `schedule`.
pub open spec fn cursor_in_use(
    backoff: Option<ExponentialBackoffStream>,
    schedule: ExponentialBackoff,
) -> (ExponentialBackoff, u32) {
    match backoff {
        Some(s) => (s.spec_backoff(), s.spec_iterations()),
        None => (schedule, 0u32),
    }
}

impl Recovery {
    pub closed spec fn spec_backoff(self) -> Option<ExponentialBackoffStream> {
        self.backoff
    }

    /// The schedule and the position with which this loop answers its next
    /// transient failure under a policy over `schedule`.
    pub open spec fn cursor(self, schedule: ExponentialBackoff) -> (ExponentialBackoff, u32) {
        cursor_in_use(self.spec_backoff(), schedule)
    }

    /// `after` is this state after one more retried failure: the cursor in
    /// use is kept and has advanced by one.
    pub open spec fn retried(self, after: Recovery, schedule: ExponentialBackoff) -> bool {
        after.spec_backoff() matches Some(s) && s.spec_backoff() == self.cursor(schedule).0
            && s.spec_iterations() == spec_next_iterations(self.cursor(schedule).1)
    }

    /// The state of a loop that has not failed yet.
    pub fn new() -> (r: Recovery)
        ensures
            r.spec_backoff() is None,
    {
        Recovery { backoff: None }
    }

    /// Whether the loop is between a failure and the next success.
    pub fn is_recovering(&self) -> (r: bool)
        ensures
            r == self.spec_backoff() is Some,
    {
        self.backoff.is_some()
    }

    /// How many delays the loop has handed out since the last success.
    pub fn failures(&self) -> (r: u32)
        ensures
            self.spec_backoff() is None ==> r == 0,
            self.spec_backoff() matches Some(s) ==> r == s.spec_iterations(),
    {
        match &self.backoff {
            Some(s) => s.iterations(),
            None => 0,
        }
    }

    /// An attempt succeeded: the cursor is discarded.
    pub fn on_success(&mut self)
        ensures
            final(self).spec_backoff() is None,
    {
        self.backoff = None;
    }

    /// An attempt failed with `error`. A failure that `policy` classifies as
    /// permanent ends the loop and is handed on unchanged, the state as it
    /// was. Any other is answered with the next delay of the cursor in use,
    /// for the jitter sample `sample`, and the cursor advances.
    pub fn on_failure(
        &mut self,
        policy: &BackoffUnlessInvalidArgument,
        error: Failure,
        sample: u32,
    ) -> (r: Retry)
        ensures
            error.carries_invalid_argument() ==> r == Retry::GiveUp(error),
            error.carries_invalid_argument() ==> final(self).spec_backoff() == old(self).spec_backoff(),
            !error.carries_invalid_argument() ==> r == Retry::After(
                old(self).cursor(policy.0).0.spec_delay(old(self).cursor(policy.0).1 as nat, sample) as u64,
            ),
            !error.carries_invalid_argument() ==> old(self).retried(*final(self), policy.0),
            r matches Retry::After(d) ==> d <= old(self).cursor(policy.0).0.spec_max(),
    {
        match policy.recover(error) {
            Err(e) => Retry::GiveUp(e),
            Ok(fresh) => {
                let mut cursor = match self.backoff {
                    Some(s) => s,
                    None => fresh,
                };
                let d = cursor.next_delay(sample);
                self.backoff = Some(cursor);
                Retry::After(d)
            },
        }
    }
}

/// The endpoint-resolution client: the discovery channel, the context token
/// sent with every call, and the recovery policy of its retry loops.
#[derive(Debug)]
pub struct Resolve<S> {
    pub recover: BackoffUnlessInvalidArgument,
    pub service: S,
    pub context_token: String,
}

/// Builds the endpoint-resolution client over the channel `service`.
pub fn new<S>(service: S, token: &str, backoff: ExponentialBackoff) -> (r: Resolve<S>)
    ensures
        r.recover.0 == backoff,
        r.service == service,
        r.context_token@ == token@,
{
    Resolve { recover: BackoffUnlessInvalidArgument::from(backoff), service, context_token: token.to_owned() }
}

} // verus!
