//! Default-fallback recovery for endpoint resolution: a rejected discovery
//! leaves the destination unresolved, and the connection goes to the address
//! it named.

use crate::addr::Addr;
use crate::failure::{Failure, Rejected};
use vstd::prelude::*;

verus! {

/// What a caller of endpoint resolution receives.
#[derive(Debug, PartialEq, Eq)]
pub enum Resolution<T> {
    /// The endpoints that discovery found.
    Resolved(T),
    /// No discovery: connect to the destination's own address.
    Unresolved(Addr),
}

/// An endpoint-resolution client whose rejections become the default.
#[derive(Debug)]
pub struct RecoverDefaultResolve<S> {
    pub inner: S,
}

/// Wraps a client in the recovery layer.
pub fn layer<S>(inner: S) -> (r: RecoverDefaultResolve<S>)
    ensures
        r.inner == inner,
{
    RecoverDefaultResolve { inner }
}

/// What the recovery layer makes of the wrapped client's answer for `addr`.
pub open spec fn spec_recover<T>(addr: Addr, result: Result<T, Failure>) -> Result<
    Resolution<T>,
    Failure,
> {
    match result {
        Ok(endpoints) => Ok(Resolution::Resolved(endpoints)),
        Err(f) => if f.is_rejection() {
            Ok(Resolution::Unresolved(addr))
        } else {
            Err(f)
        },
    }
}

impl<S> RecoverDefaultResolve<S> {
    /// Passes a success through, answers a rejection with the unresolved
    /// default for `addr`, and hands on any other failure unchanged.
    pub fn recover<T>(&self, addr: Addr, result: Result<T, Failure>) -> (r: Result<
        Resolution<T>,
        Failure,
    >)
        ensures
            r == spec_recover(addr, result),
    {
        match result {
            Ok(endpoints) => Ok(Resolution::Resolved(endpoints)),
            Err(f) => {
                if Rejected::matches(&f) {
                    Ok(Resolution::Unresolved(addr))
                } else {
                    Err(f)
                }
            },
        }
    }
}

} // verus!
