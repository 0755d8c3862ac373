//! What the discovery client reads of the control channel's configuration.

use crate::addr::Addr;
use crate::backoff::ExponentialBackoff;
use vstd::prelude::*;

verus! {

/// The address of the discovery service, kept for diagnostics.
#[derive(Debug)]
pub struct ControlAddr {
    pub addr: Addr,
}

/// How the control channel connects and reconnects.
#[derive(Clone, Copy, Debug)]
pub struct ConnectConfig {
    pub backoff: ExponentialBackoff,
}

/// The configuration of the control channel.
#[derive(Debug)]
pub struct Config {
    pub addr: ControlAddr,
    pub connect: ConnectConfig,
}

} // verus!
