//! The layer that puts an admission filter in front of a discovery client.

use crate::addr::Addr;
use crate::failure::{Failure, FailureKind};
use crate::permit::PermitConfiguredDsts;
use vstd::prelude::*;

verus! {

/// A discovery client behind an admission filter: a request reaches `service`
/// only if `filter` permits its destination.
#[derive(Debug)]
pub struct RequestFilter<S> {
    pub filter: PermitConfiguredDsts,
    pub service: S,
}

impl<S> RequestFilter<S> {
    pub fn new(filter: PermitConfiguredDsts, service: S) -> (r: Self)
        ensures
            r.filter == filter,
            r.service == service,
    {
        RequestFilter { filter, service }
    }

    /// Decides on a request before the client sees it. A permitted
    /// destination is handed back unchanged, to be passed on to the client;
    /// any other fails at once with a rejection that has no cause.
    pub fn filter_request(&self, addr: Addr) -> (r: Result<Addr, Failure>)
        ensures
            self.filter.spec_permits(addr) ==> r == Ok::<Addr, Failure>(addr),
            !self.filter.spec_permits(addr) ==> (r matches Err(f) && f.chain() == seq![
                FailureKind::Rejected,
            ] && f.is_rejection()),
    {
        match self.filter.check(addr) {
            Ok(addr) => Ok(addr),
            Err(rejected) => Err(rejected.into_failure()),
        }
    }
}

} // verus!
