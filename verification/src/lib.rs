//! Destination discovery policy for a service-mesh proxy: which destinations
//! may be discovered, which discovery failures are retried and after what
//! delay, and when a declined discovery falls back to a default.
//!
//! The two handles of [`Dst`] are stacks of layers. From the inside out: the
//! client of the discovery channel, the retry classifier, the admission
//! filter, and the default-fallback recovery.

pub mod addr;
pub mod backoff;
pub mod control;
pub mod default_profile;
pub mod default_resolve;
pub mod discover;
pub mod failure;
pub mod net;
pub mod permit;
pub mod profiles;
pub mod request_filter;
pub mod resolve;
pub mod sets;

use crate::addr::Suffix;
use crate::default_profile::RecoverDefaultProfile;
use crate::default_resolve::RecoverDefaultResolve;
use crate::net::IpNet;
use crate::permit::{PermitProfile, PermitResolve};
use crate::request_filter::RequestFilter;
use crate::sets::{net_set_items, suffix_set_items};
use core::time::Duration;
use indexmap::IndexSet;
use vstd::prelude::*;

verus! {

/// The configuration of the discovery client. Built once and not changed.
#[derive(Debug)]
pub struct Config {
    pub control: control::Config,
    pub context: String,
    pub get_suffixes: IndexSet<Suffix>,
    pub get_networks: IndexSet<IpNet>,
    pub profile_suffixes: IndexSet<Suffix>,
    pub profile_networks: IndexSet<IpNet>,
    pub initial_profile_timeout: Duration,
}

/// Handles to destination service clients.
#[derive(Debug)]
pub struct Dst<S> {
    /// The address of the destination service, used for logging.
    pub addr: control::ControlAddr,
    /// Resolves profiles.
    pub profiles: RecoverDefaultProfile<RequestFilter<profiles::Client<S>>>,
    /// Resolves endpoints.
    pub resolve: RecoverDefaultResolve<RequestFilter<resolve::Resolve<S>>>,
}

impl Config {
    /// Assembles the two handles over the control channel. `channel` is what
    /// building the channel from `self.control` gave: a failure to build it
    /// is handed on unchanged, and nothing else fails.
    ///
    /// Either handle is, from the inside out, the client over the channel
    /// with the retry classifier on the channel's backoff schedule, the
    /// admission filter over its own pair of allow-lists, and the
    /// default-fallback recovery.
    pub fn build<S: Clone, E>(self, channel: Result<S, E>) -> (r: Result<Dst<S>, E>)
        ensures
            channel matches Err(e) ==> r == Err::<Dst<S>, E>(e),
            channel matches Ok(svc) ==> (r matches Ok(dst) && {
                &&& dst.addr == self.control.addr
                &&& cloned(svc, dst.resolve.inner.service.service)
                &&& dst.resolve.inner.service.recover.0 == self.control.connect.backoff
                &&& dst.resolve.inner.service.context_token@ == self.context@
                &&& dst.resolve.inner.filter.suffixes() == suffix_set_items(self.get_suffixes)
                &&& dst.resolve.inner.filter.nets() == net_set_items(self.get_networks)
                &&& dst.profiles.inner.service.service == svc
                &&& dst.profiles.inner.service.recover.0 == self.control.connect.backoff
                &&& dst.profiles.inner.service.initial_timeout == self.initial_profile_timeout
                &&& dst.profiles.inner.service.context_token == self.context
                &&& dst.profiles.inner.filter.suffixes() == suffix_set_items(self.profile_suffixes)
                &&& dst.profiles.inner.filter.nets() == net_set_items(self.profile_networks)
            }),
    {
        let svc = match channel {
            Ok(svc) => svc,
            Err(e) => {
                return Err(e);
            },
        };
        let addr = self.control.addr;
        let backoff = self.control.connect.backoff;
        let resolve = default_resolve::layer(
            RequestFilter::new(
                PermitResolve::new(self.get_suffixes, self.get_networks),
                resolve::new(svc.clone(), self.context.as_str(), backoff),
            ),
        );
        let profiles = default_profile::layer(
            RequestFilter::new(
                PermitProfile::new(self.profile_suffixes, self.profile_networks),
                profiles::Client::new(
                    svc,
                    resolve::BackoffUnlessInvalidArgument::from(backoff),
                    self.initial_profile_timeout,
                    self.context,
                ),
            ),
        );
        Ok(Dst { addr, resolve, profiles })
    }
}

} // verus!
