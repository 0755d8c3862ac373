//! The profile client: the discovery channel with what a profile lookup
//! needs besides, and the time allowed for the first profile to arrive.

use crate::failure::{Failure, FailureKind};
use crate::resolve::BackoffUnlessInvalidArgument;
use core::time::Duration;
use vstd::prelude::*;

verus! {

/// The profile client.
#[derive(Debug)]
pub struct Client<S> {
    pub service: S,
    pub recover: BackoffUnlessInvalidArgument,
    pub initial_timeout: Duration,
    pub context_token: String,
}

impl<S> Client<S> {
    pub fn new(
        service: S,
        recover: BackoffUnlessInvalidArgument,
        initial_timeout: Duration,
        context_token: String,
    ) -> (r: Self)
        ensures
            r.service == service,
            r.recover == recover,
            r.initial_timeout == initial_timeout,
            r.context_token == context_token,
    {
        Client { service, recover, initial_timeout, context_token }
    }
}

/// The failure that stands for a first profile that did not arrive in time.
/// It is no rejection and carries no "invalid argument", so it is classified
/// as any transient failure is.
pub fn initial_timeout_failure() -> (f: Failure)
    ensures
        f.chain() == seq![FailureKind::Timeout],
        !f.carries_invalid_argument(),
        !f.is_rejection(),
{
    Failure::new(FailureKind::Timeout)
}

} // verus!
