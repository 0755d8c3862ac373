//! One discovery call through a handle, step by step.
//!
//! The handle decides; the caller performs. The caller asks how to start,
//! makes the calls and waits the delays it is told to, and reports what each
//! attempt gave. A call through a handle never ends in a failure: it yields
//! what discovery found, or the default.

use crate::addr::Addr;
use crate::backoff::{
    lemma_consecutive_delays_non_decreasing, lemma_delay_bounds, spec_next_iterations,
    ExponentialBackoff,
};
use crate::default_profile::RecoverDefaultProfile;
use crate::default_resolve::RecoverDefaultResolve;
use crate::failure::{Failure, Rejected};
use crate::permit::PermitConfiguredDsts;
use crate::profiles::{initial_timeout_failure, Client};
use crate::request_filter::RequestFilter;
use crate::resolve::{BackoffUnlessInvalidArgument, Recovery, Resolve, Retry};
use core::time::Duration;
use vstd::prelude::*;

verus! {

/// What the caller does next.
#[derive(Debug, PartialEq, Eq)]
pub enum Step {
    /// Call the discovery service now.
    Call,
    /// Wait this many milliseconds, then call the discovery service again.
    RetryAfter(u64),
    /// Hand on what the discovery service sent.
    Yield,
    /// Make no further call and use the default.
    Default,
    /// Fail with this failure.
    Fail(Failure),
}

/// The step with which a request for `addr` starts under `filter`.
pub open spec fn spec_start(filter: PermitConfiguredDsts, addr: Addr) -> Step {
    if filter.spec_permits(addr) {
        Step::Call
    } else {
        Step::Default
    }
}

/// The step that answers the failure `error` of an attempt, for a retry loop
/// whose cursor stands at `iterations` over `schedule`.
pub open spec fn spec_failed(
    schedule: ExponentialBackoff,
    iterations: u32,
    error: Failure,
    sample: u32,
) -> Step {
    if error.carries_invalid_argument() {
        Step::Default
    } else {
        Step::RetryAfter(schedule.spec_delay(iterations as nat, sample) as u64)
    }
}

/// A failure that carries "invalid argument" is a rejection.
pub proof fn lemma_invalid_argument_is_rejection(f: Failure)
    requires
        f.carries_invalid_argument(),
    ensures
        f.is_rejection(),
{
    let i = choose|i: int|
        0 <= i < f.chain().len() && (#[trigger] f.chain()[i]).spec_is_invalid_argument();
    assert(f.chain()[i].spec_is_rejection());
}

fn start(filter: &PermitConfiguredDsts, addr: &Addr) -> (r: Step)
    ensures
        r == spec_start(*filter, *addr),
{
    if filter.permits(addr) {
        Step::Call
    } else {
        Step::Default
    }
}

fn failed(
    policy: &BackoffUnlessInvalidArgument,
    state: &mut Recovery,
    error: Failure,
    sample: u32,
) -> (r: Step)
    ensures
        r == spec_failed(old(state).cursor(policy.0).0, old(state).cursor(policy.0).1, error, sample),
        !(r is Fail),
        error.carries_invalid_argument() ==> final(state).spec_backoff() == old(state).spec_backoff(),
        !error.carries_invalid_argument() ==> old(state).retried(*final(state), policy.0),
{
    match state.on_failure(policy, error, sample) {
        Retry::After(delay) => Step::RetryAfter(delay),
        Retry::GiveUp(e) => {
            proof {
                lemma_invalid_argument_is_rejection(e);
            }
            if Rejected::matches(&e) {
                Step::Default
            } else {
                Step::Fail(e)
            }
        },
    }
}

impl<S> RecoverDefaultResolve<RequestFilter<Resolve<S>>> {
    /// A caller asks for the endpoints of `addr`. A destination outside the
    /// allow-lists gets the default at once, and no call is made for it.
    pub fn start(&self, addr: &Addr) -> (r: Step)
        ensures
            r == spec_start(self.inner.filter, *addr),
    {
        start(&self.inner.filter, addr)
    }

    /// The discovery service sent an update: it is handed on, and the retry
    /// loop starts afresh.
    pub fn on_update(&self, state: &mut Recovery) -> (r: Step)
        ensures
            r == Step::Yield,
            final(state).spec_backoff() is None,
    {
        state.on_success();
        Step::Yield
    }

    /// An attempt failed with `error`. A failure that carries "invalid
    /// argument" ends the call with the default, the state as it was; any
    /// other is retried after the next delay of the loop's cursor, which
    /// advances. The call never fails.
    pub fn on_failure(&self, state: &mut Recovery, error: Failure, sample: u32) -> (r: Step)
        ensures
            r == spec_failed(
                old(state).cursor(self.inner.service.recover.0).0,
                old(state).cursor(self.inner.service.recover.0).1,
                error,
                sample,
            ),
            !(r is Fail),
            error.carries_invalid_argument() ==> final(state).spec_backoff() == old(state).spec_backoff(),
            !error.carries_invalid_argument() ==> old(state).retried(
                *final(state),
                self.inner.service.recover.0,
            ),
    {
        failed(&self.inner.service.recover, state, error, sample)
    }
}

impl<S> RecoverDefaultProfile<RequestFilter<Client<S>>> {
    /// A caller asks for the profile of `addr`. A destination outside the
    /// allow-lists gets the default at once, and no call is made for it.
    pub fn start(&self, addr: &Addr) -> (r: Step)
        ensures
            r == spec_start(self.inner.filter, *addr),
    {
        start(&self.inner.filter, addr)
    }

    /// The time that the next attempt may take to bring the first profile:
    /// the configured time until a profile has been handed on, none after.
    pub fn timeout(&self, yielded: bool) -> (r: Option<Duration>)
        ensures
            r == (if yielded {
                None
            } else {
                Some(self.inner.service.initial_timeout)
            }),
    {
        if yielded {
            None
        } else {
            Some(self.inner.service.initial_timeout)
        }
    }

    /// The discovery service sent a profile: it is handed on, and the retry
    /// loop starts afresh.
    pub fn on_update(&self, state: &mut Recovery) -> (r: Step)
        ensures
            r == Step::Yield,
            final(state).spec_backoff() is None,
    {
        state.on_success();
        Step::Yield
    }

    /// An attempt failed with `error`: as for endpoint resolution.
    pub fn on_failure(&self, state: &mut Recovery, error: Failure, sample: u32) -> (r: Step)
        ensures
            r == spec_failed(
                old(state).cursor(self.inner.service.recover.0).0,
                old(state).cursor(self.inner.service.recover.0).1,
                error,
                sample,
            ),
            !(r is Fail),
            error.carries_invalid_argument() ==> final(state).spec_backoff() == old(state).spec_backoff(),
            !error.carries_invalid_argument() ==> old(state).retried(
                *final(state),
                self.inner.service.recover.0,
            ),
    {
        failed(&self.inner.service.recover, state, error, sample)
    }

    /// The first profile did not arrive in time. The attempt counts as
    /// failed, whatever the state of the retry loop, and is retried as any
    /// transient failure is.
    pub fn on_timeout(&self, state: &mut Recovery, sample: u32) -> (r: Step)
        ensures
            r == Step::RetryAfter(
                old(state).cursor(self.inner.service.recover.0).0.spec_delay(
                    old(state).cursor(self.inner.service.recover.0).1 as nat,
                    sample,
                ) as u64,
            ),
            old(state).retried(*final(state), self.inner.service.recover.0),
    {
        failed(&self.inner.service.recover, state, initial_timeout_failure(), sample)
    }
}

/// Two failures in a row that are both retried: the second delay is no
/// shorter than the first, and neither exceeds the schedule's maximum,
/// whatever the jitter samples.
pub proof fn lemma_retry_delays_non_decreasing(
    schedule: ExponentialBackoff,
    iterations: u32,
    error1: Failure,
    sample1: u32,
    error2: Failure,
    sample2: u32,
)
    requires
        schedule.valid(),
        !error1.carries_invalid_argument(),
        !error2.carries_invalid_argument(),
    ensures
        spec_failed(schedule, iterations, error1, sample1) matches Step::RetryAfter(d1)
            && spec_failed(
            schedule,
            spec_next_iterations(iterations),
            error2,
            sample2,
        ) matches Step::RetryAfter(d2) && d1 <= d2 <= schedule.spec_max(),
{
    lemma_consecutive_delays_non_decreasing(schedule, iterations, sample1, sample2);
    lemma_delay_bounds(schedule, iterations as nat, sample1);
    lemma_delay_bounds(
        schedule,
        spec_next_iterations(iterations) as nat,
        sample2,
    );
}

/// A call never surfaces a failure: whatever an attempt failed with, the
/// step that answers it is a retry or the default.
pub proof fn lemma_never_fails(
    schedule: ExponentialBackoff,
    iterations: u32,
    error: Failure,
    sample: u32,
)
    ensures
        spec_failed(schedule, iterations, error, sample) is RetryAfter || spec_failed(
            schedule,
            iterations,
            error,
            sample,
        ) is Default,
        spec_failed(schedule, iterations, error, sample) is Default <==> error.carries_invalid_argument(),
{
}

} // verus!
