//! Default-fallback recovery for profile lookups: a rejected discovery yields
//! the default profile, with no routing or retry policy of its own.

use crate::failure::{Failure, Rejected};
use vstd::prelude::*;

verus! {

/// What a caller of a profile lookup receives.
#[derive(Debug, PartialEq, Eq)]
pub enum Profile<T> {
    /// The profile that discovery found.
    Discovered(T),
    /// The empty profile.
    Default,
}

/// A profile client whose rejections become the default.
#[derive(Debug)]
pub struct RecoverDefaultProfile<S> {
    pub inner: S,
}

/// Wraps a client in the recovery layer.
pub fn layer<S>(inner: S) -> (r: RecoverDefaultProfile<S>)
    ensures
        r.inner == inner,
{
    RecoverDefaultProfile { inner }
}

/// What the recovery layer makes of the wrapped client's answer.
pub open spec fn spec_recover<T>(result: Result<T, Failure>) -> Result<Profile<T>, Failure> {
    match result {
        Ok(profile) => Ok(Profile::Discovered(profile)),
        Err(f) => if f.is_rejection() {
            Ok(Profile::Default)
        } else {
            Err(f)
        },
    }
}

impl<S> RecoverDefaultProfile<S> {
    /// Passes a success through, answers a rejection with the default
    /// profile, and hands on any other failure unchanged.
    pub fn recover<T>(&self, result: Result<T, Failure>) -> (r: Result<Profile<T>, Failure>)
        ensures
            r == spec_recover(result),
    {
        match result {
            Ok(profile) => Ok(Profile::Discovered(profile)),
            Err(f) => {
                if Rejected::matches(&f) {
                    Ok(Profile::Default)
                } else {
                    Err(f)
                }
            },
        }
    }
}

} // verus!
