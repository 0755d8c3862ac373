//! The admission filter: discovery is attempted only for destinations that
//! the configured allow-lists name.

use crate::addr::{Addr, Suffix};
use crate::failure::Rejected;
use crate::net::{IpAddr, IpNet};
use crate::sets::{net_set_get, net_set_items, net_set_len, suffix_set_get, suffix_set_items, suffix_set_len};
use indexmap::IndexSet;
use vstd::prelude::*;

verus! {

/// Some suffix of the list ends the name.
pub open spec fn name_permitted(suffixes: Seq<Seq<char>>, name: Seq<char>) -> bool {
    exists|i: int| 0 <= i < suffixes.len() && (#[trigger] suffixes[i]).is_suffix_of(name)
}

/// Some network of the list contains the address.
pub open spec fn ip_permitted(networks: Seq<IpNet>, ip: IpAddr) -> bool {
    exists|i: int| 0 <= i < networks.len() && (#[trigger] networks[i]).spec_contains(ip)
}

/// The allow-list decision: a named destination is permitted when its name
/// ends with a listed suffix, a concrete one when a listed network contains
/// its IP address.
pub open spec fn addr_permitted(suffixes: Seq<Seq<char>>, networks: Seq<IpNet>, addr: Addr) -> bool {
    match addr {
        Addr::Name(n) => name_permitted(suffixes, n.name@),
        Addr::Socket(s) => ip_permitted(networks, s.ip),
    }
}

/// An admission filter over one pair of allow-lists.
#[derive(Debug)]
pub struct PermitConfiguredDsts {
    name_suffixes: IndexSet<Suffix>,
    networks: IndexSet<IpNet>,
}

/// The admission filter for endpoint resolution.
pub type PermitResolve = PermitConfiguredDsts;

/// The admission filter for profile lookups.
pub type PermitProfile = PermitConfiguredDsts;

impl PermitConfiguredDsts {
    /// The listed suffixes, in the list's order.
    pub closed spec fn suffixes(self) -> Seq<Seq<char>> {
        suffix_set_items(self.name_suffixes)
    }

    /// The listed networks, in the list's order.
    pub closed spec fn nets(self) -> Seq<IpNet> {
        net_set_items(self.networks)
    }

    /// Whether this filter lets `addr` through.
    pub open spec fn spec_permits(self, addr: Addr) -> bool {
        addr_permitted(self.suffixes(), self.nets(), addr)
    }

    pub fn new(name_suffixes: IndexSet<Suffix>, networks: IndexSet<IpNet>) -> (p: Self)
        ensures
            p.suffixes() == suffix_set_items(name_suffixes),
            p.nets() == net_set_items(networks),
    {
        PermitConfiguredDsts { name_suffixes, networks }
    }

    fn permits_name(&self, name: &str) -> (r: bool)
        ensures
            r == name_permitted(self.suffixes(), name@),
    {
        let n = suffix_set_len(&self.name_suffixes);
        let mut i: usize = 0;
        while i < n
            invariant
                i <= n,
                n == self.suffixes().len(),
                forall|j: int| 0 <= j < i ==> !(#[trigger] self.suffixes()[j]).is_suffix_of(name@),
            decreases n - i,
        {
            match suffix_set_get(&self.name_suffixes, i) {
                Some(suffix) => {
                    if suffix.contains(name) {
                        return true;
                    }
                },
                None => {},
            }
            i = i + 1;
        }
        false
    }

    fn permits_ip(&self, ip: &IpAddr) -> (r: bool)
        ensures
            r == ip_permitted(self.nets(), *ip),
    {
        let n = net_set_len(&self.networks);
        let mut i: usize = 0;
        while i < n
            invariant
                i <= n,
                n == self.nets().len(),
                forall|j: int| 0 <= j < i ==> !(#[trigger] self.nets()[j]).spec_contains(*ip),
            decreases n - i,
        {
            match net_set_get(&self.networks, i) {
                Some(net) => {
                    if net.contains(ip) {
                        return true;
                    }
                },
                None => {},
            }
            i = i + 1;
        }
        false
    }

    /// Whether this filter lets `addr` through.
    pub fn permits(&self, addr: &Addr) -> (r: bool)
        ensures
            r == self.spec_permits(*addr),
    {
        match addr {
            Addr::Name(n) => self.permits_name(n.name.as_str()),
            Addr::Socket(s) => self.permits_ip(&s.ip),
        }
    }

    /// Hands a permitted destination back unchanged and rejects every other.
    pub fn check(&self, addr: Addr) -> (r: Result<Addr, Rejected>)
        ensures
            self.spec_permits(addr) ==> r == Ok::<Addr, Rejected>(addr),
            !self.spec_permits(addr) ==> r == Err::<Addr, Rejected>(Rejected),
    {
        if self.permits(&addr) {
            Ok(addr)
        } else {
            Err(Rejected)
        }
    }
}

/// With both allow-lists empty nothing is permitted.
pub proof fn lemma_empty_lists_reject(addr: Addr)
    ensures
        !addr_permitted(Seq::empty(), Seq::empty(), addr),
{
}

/// The decision depends on which items the lists hold, not on their order or
/// on repetitions.
pub proof fn lemma_order_irrelevant(
    suffixes1: Seq<Seq<char>>,
    networks1: Seq<IpNet>,
    suffixes2: Seq<Seq<char>>,
    networks2: Seq<IpNet>,
    addr: Addr,
)
    requires
        suffixes1.to_set() == suffixes2.to_set(),
        networks1.to_set() == networks2.to_set(),
    ensures
        addr_permitted(suffixes1, networks1, addr) == addr_permitted(suffixes2, networks2, addr),
{
    match addr {
        Addr::Name(n) => {
            if name_permitted(suffixes1, n.name@) {
                lemma_name_by_set(suffixes1, suffixes2, n.name@);
            }
            if name_permitted(suffixes2, n.name@) {
                lemma_name_by_set(suffixes2, suffixes1, n.name@);
            }
        },
        Addr::Socket(s) => {
            if ip_permitted(networks1, s.ip) {
                lemma_ip_by_set(networks1, networks2, s.ip);
            }
            if ip_permitted(networks2, s.ip) {
                lemma_ip_by_set(networks2, networks1, s.ip);
            }
        },
    }
}

proof fn lemma_name_by_set(a: Seq<Seq<char>>, b: Seq<Seq<char>>, name: Seq<char>)
    requires
        a.to_set() == b.to_set(),
        name_permitted(a, name),
    ensures
        name_permitted(b, name),
{
    let i = choose|i: int| 0 <= i < a.len() && (#[trigger] a[i]).is_suffix_of(name);
    assert(a.to_set().contains(a[i]));
    assert(b.contains(a[i]));
    let j = choose|j: int| 0 <= j < b.len() && b[j] == a[i];
    assert(b[j].is_suffix_of(name));
}

proof fn lemma_ip_by_set(a: Seq<IpNet>, b: Seq<IpNet>, ip: IpAddr)
    requires
        a.to_set() == b.to_set(),
        ip_permitted(a, ip),
    ensures
        ip_permitted(b, ip),
{
    let i = choose|i: int| 0 <= i < a.len() && (#[trigger] a[i]).spec_contains(ip);
    assert(a.to_set().contains(a[i]));
    assert(b.contains(a[i]));
    let j = choose|j: int| 0 <= j < b.len() && b[j] == a[i];
    assert(b[j].spec_contains(ip));
}

} // verus!
