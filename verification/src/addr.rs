//! Destination addresses: a DNS name or an IP address, each with a port.

use crate::net::IpAddr;
use vstd::prelude::*;

verus! {

/// A destination given by name.
#[derive(Clone, Debug, PartialEq, Eq)]
pub struct NameAddr {
    pub name: String,
    pub port: u16,
}

/// A destination given by IP address.
#[derive(Clone, Copy, Debug, PartialEq, Eq)]
pub struct SocketAddr {
    pub ip: IpAddr,
    pub port: u16,
}

/// The destination of an outbound connection.
#[derive(Clone, Debug, PartialEq, Eq)]
pub enum Addr {
    Name(NameAddr),
    Socket(SocketAddr),
}

/// Calls `str::ends_with` with a string pattern. Trusted: the standard
/// library documents that it tells whether the pattern matches a suffix of
/// the string.
#[verifier::external_body]
fn str_ends_with(name: &str, suffix: &str) -> (r: bool)
    ensures
        r == suffix@.is_suffix_of(name@),
{
    name.ends_with(suffix)
}

/// A DNS suffix of an allow-list.
#[derive(Clone, Debug, PartialEq, Eq, Hash)]
pub struct Suffix {
    suffix: String,
}

impl View for Suffix {
    type V = Seq<char>;

    closed spec fn view(&self) -> Seq<char> {
        self.suffix@
    }
}

impl Suffix {
    pub fn new(suffix: String) -> (s: Suffix)
        ensures
            s@ == suffix@,
    {
        Suffix { suffix }
    }

    pub fn as_str(&self) -> (s: &str)
        ensures
            s@ == self@,
    {
        self.suffix.as_str()
    }

    /// Whether `name` ends with this suffix.
    pub fn contains(&self, name: &str) -> (r: bool)
        ensures
            r == self@.is_suffix_of(name@),
    {
        str_ends_with(name, self.suffix.as_str())
    }
}

} // verus!
