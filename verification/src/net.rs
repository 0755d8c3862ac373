//! IP addresses and networks as plain integers, with network membership
//! answered by the `ipnet` crate.

use vstd::prelude::*;

verus! {

/// An IP address: the 32 bits of an IPv4 address or the 128 bits of an IPv6
/// address, most significant octet first.
#[derive(Clone, Copy, Debug, PartialEq, Eq, Hash, Structural)]
pub enum IpAddr {
    V4(u32),
    V6(u128),
}

/// The prefix length given for a network is longer than its address family
/// allows.
#[derive(Clone, Copy, Debug, PartialEq, Eq, Structural)]
pub struct PrefixLenError;

/// The IPv4 netmask of a prefix length: `prefix_len` leading one bits.
pub open spec fn v4_netmask(prefix_len: u8) -> u32 {
    if prefix_len == 0 {
        0u32
    } else {
        0xffff_ffffu32 << ((32 - prefix_len) as u32)
    }
}

/// The IPv4 hostmask of a prefix length: the bits that the netmask leaves out.
pub open spec fn v4_hostmask(prefix_len: u8) -> u32 {
    if prefix_len >= 32 {
        0u32
    } else {
        0xffff_ffffu32 >> (prefix_len as u32)
    }
}

/// Whether `ip` lies between the first and the last address of the IPv4
/// network `addr/prefix_len`.
pub open spec fn v4_contains(addr: u32, prefix_len: u8, ip: u32) -> bool {
    (addr & v4_netmask(prefix_len)) <= ip <= (addr | v4_hostmask(prefix_len))
}

/// An address belongs to an IPv4 network exactly when it agrees with the
/// network's address on the first `prefix_len` bits.
pub proof fn lemma_v4_contains_by_prefix(addr: u32, prefix_len: u8, ip: u32)
    requires
        prefix_len <= 32,
    ensures
        v4_contains(addr, prefix_len, ip) <==> (prefix_len == 0 || (ip >> ((32 - prefix_len) as u32))
            == (addr >> ((32 - prefix_len) as u32))),
{
    if prefix_len == 0 {
        assert(0xffff_ffffu32 >> 0u32 == 0xffff_ffffu32) by (bit_vector);
        assert((addr & 0u32) == 0u32 && (addr | 0xffff_ffffu32) == 0xffff_ffffu32) by (bit_vector);
    } else if prefix_len == 32 {
        assert(0xffff_ffffu32 << 0u32 == 0xffff_ffffu32) by (bit_vector);
        assert((addr & 0xffff_ffffu32) == addr && (addr | 0u32) == addr && (addr >> 0u32) == addr
            && (ip >> 0u32) == ip) by (bit_vector);
    } else {
        let h: u32 = (32 - prefix_len) as u32;
        let p: u32 = prefix_len as u32;
        assert(((addr & (0xffff_ffffu32 << h)) <= ip && ip <= (addr | (0xffff_ffffu32 >> p))) <==> (
        (ip >> h) == (addr >> h))) by (bit_vector)
            requires
                0 < h < 32,
                p == 32 - h,
        ;
    }
}

/// Calls `ipnet::Ipv4Net::contains` on the network `addr/prefix_len` and the
/// host address `ip`. Trusted: the result is taken to be what the crate
/// documents, that `ip` is no less than the network address (the address with
/// the host bits cleared) and no greater than the broadcast address (the
/// address with the host bits set).
#[verifier::external_body]
fn ipnet_v4_contains(addr: u32, prefix_len: u8, ip: u32) -> (r: bool)
    requires
        prefix_len <= 32,
    ensures
        r == v4_contains(addr, prefix_len, ip),
{
    let net = ipnet::Ipv4Net::new_assert(addr.into(), prefix_len);
    let host = ipnet::Ipv4Net::new_assert(ip.into(), 32).addr();
    net.contains(&host)
}

/// An IPv4 network: an address and the number of its leading bits that name
/// the network.
#[derive(Clone, Copy, Debug, PartialEq, Eq, Hash)]
pub struct Ipv4Net {
    addr: u32,
    prefix_len: u8,
}

impl Ipv4Net {
    #[verifier::type_invariant]
    spec fn wf(self) -> bool {
        self.prefix_len <= 32
    }

    pub closed spec fn spec_addr(self) -> u32 {
        self.addr
    }

    pub closed spec fn spec_prefix_len(self) -> u8 {
        self.prefix_len
    }

    /// Builds the network `addr/prefix_len`; fails exactly when the prefix is
    /// longer than 32 bits.
    pub fn new(addr: u32, prefix_len: u8) -> (r: Result<Ipv4Net, PrefixLenError>)
        ensures
            prefix_len <= 32 <==> r is Ok,
            r matches Ok(net) ==> net.spec_addr() == addr && net.spec_prefix_len() == prefix_len,
    {
        if prefix_len > 32 {
            Err(PrefixLenError)
        } else {
            Ok(Ipv4Net { addr, prefix_len })
        }
    }

    pub fn addr(&self) -> (r: u32)
        ensures
            r == self.spec_addr(),
    {
        self.addr
    }

    pub fn prefix_len(&self) -> (r: u8)
        ensures
            r == self.spec_prefix_len(),
            r <= 32,
    {
        proof {
            use_type_invariant(self);
        }
        self.prefix_len
    }

    /// Whether `ip` belongs to this network.
    pub open spec fn spec_contains(self, ip: u32) -> bool {
        v4_contains(self.spec_addr(), self.spec_prefix_len(), ip)
    }

    pub fn contains(&self, ip: u32) -> (r: bool)
        ensures
            r == self.spec_contains(ip),
    {
        proof {
            use_type_invariant(self);
        }
        ipnet_v4_contains(self.addr, self.prefix_len, ip)
    }
}

/// The IPv6 netmask of a prefix length: `prefix_len` leading one bits.
pub open spec fn v6_netmask(prefix_len: u8) -> u128 {
    if prefix_len == 0 {
        0u128
    } else {
        0xffff_ffff_ffff_ffff_ffff_ffff_ffff_ffffu128 << ((128 - prefix_len) as u128)
    }
}

/// The IPv6 hostmask of a prefix length: the bits that the netmask leaves out.
pub open spec fn v6_hostmask(prefix_len: u8) -> u128 {
    if prefix_len >= 128 {
        0u128
    } else {
        0xffff_ffff_ffff_ffff_ffff_ffff_ffff_ffffu128 >> (prefix_len as u128)
    }
}

/// Whether `ip` lies between the first and the last address of the IPv6
/// network `addr/prefix_len`.
pub open spec fn v6_contains(addr: u128, prefix_len: u8, ip: u128) -> bool {
    (addr & v6_netmask(prefix_len)) <= ip <= (addr | v6_hostmask(prefix_len))
}

/// An address belongs to an IPv6 network exactly when it agrees with the
/// network's address on the first `prefix_len` bits.
#[verifier::rlimit(100)]
pub proof fn lemma_v6_contains_by_prefix(addr: u128, prefix_len: u8, ip: u128)
    requires
        prefix_len <= 128,
    ensures
        v6_contains(addr, prefix_len, ip) <==> (prefix_len == 0 || (ip >> ((128 - prefix_len) as u128))
            == (addr >> ((128 - prefix_len) as u128))),
{
    if prefix_len == 0 {
        assert(0xffff_ffff_ffff_ffff_ffff_ffff_ffff_ffffu128 >> 0u128 == 0xffff_ffff_ffff_ffff_ffff_ffff_ffff_ffffu128) by (bit_vector);
        assert((addr & 0u128) == 0u128 && (addr | 0xffff_ffff_ffff_ffff_ffff_ffff_ffff_ffffu128) == 0xffff_ffff_ffff_ffff_ffff_ffff_ffff_ffffu128) by (bit_vector);
    } else if prefix_len == 128 {
        assert(0xffff_ffff_ffff_ffff_ffff_ffff_ffff_ffffu128 << 0u128 == 0xffff_ffff_ffff_ffff_ffff_ffff_ffff_ffffu128) by (bit_vector);
        assert((addr & 0xffff_ffff_ffff_ffff_ffff_ffff_ffff_ffffu128) == addr && (addr | 0u128) == addr && (addr >> 0u128) == addr && (ip
            >> 0u128) == ip) by (bit_vector);
    } else {
        let h: u128 = (128 - prefix_len) as u128;
        let p: u128 = prefix_len as u128;
        assert(((addr & (0xffff_ffff_ffff_ffff_ffff_ffff_ffff_ffffu128 << h)) <= ip && ip <= (addr | (0xffff_ffff_ffff_ffff_ffff_ffff_ffff_ffffu128 >> p))) <==> ((ip >> h) == (
        addr >> h))) by (bit_vector)
            requires
                0 < h < 128,
                p == 128 - h,
        ;
    }
}

/// Calls `ipnet::Ipv6Net::contains` on the network `addr/prefix_len` and the
/// host address `ip`. Trusted: the result is taken to be what the crate
/// documents, that `ip` is no less than the network address and no greater
/// than the last address of the network.
#[verifier::external_body]
fn ipnet_v6_contains(addr: u128, prefix_len: u8, ip: u128) -> (r: bool)
    requires
        prefix_len <= 128,
    ensures
        r == v6_contains(addr, prefix_len, ip),
{
    let net = ipnet::Ipv6Net::new_assert(addr.into(), prefix_len);
    let host = ipnet::Ipv6Net::new_assert(ip.into(), 128).addr();
    net.contains(&host)
}

/// An IPv6 network: an address and the number of its leading bits that name
/// the network.
#[derive(Clone, Copy, Debug, PartialEq, Eq, Hash)]
pub struct Ipv6Net {
    addr: u128,
    prefix_len: u8,
}

impl Ipv6Net {
    #[verifier::type_invariant]
    spec fn wf(self) -> bool {
        self.prefix_len <= 128
    }

    pub closed spec fn spec_addr(self) -> u128 {
        self.addr
    }

    pub closed spec fn spec_prefix_len(self) -> u8 {
        self.prefix_len
    }

    /// Builds the network `addr/prefix_len`; fails exactly when the prefix is
    /// longer than 128 bits.
    pub fn new(addr: u128, prefix_len: u8) -> (r: Result<Ipv6Net, PrefixLenError>)
        ensures
            prefix_len <= 128 <==> r is Ok,
            r matches Ok(net) ==> net.spec_addr() == addr && net.spec_prefix_len() == prefix_len,
    {
        if prefix_len > 128 {
            Err(PrefixLenError)
        } else {
            Ok(Ipv6Net { addr, prefix_len })
        }
    }

    pub fn addr(&self) -> (r: u128)
        ensures
            r == self.spec_addr(),
    {
        self.addr
    }

    pub fn prefix_len(&self) -> (r: u8)
        ensures
            r == self.spec_prefix_len(),
            r <= 128,
    {
        proof {
            use_type_invariant(self);
        }
        self.prefix_len
    }

    /// Whether `ip` belongs to this network.
    pub open spec fn spec_contains(self, ip: u128) -> bool {
        v6_contains(self.spec_addr(), self.spec_prefix_len(), ip)
    }

    pub fn contains(&self, ip: u128) -> (r: bool)
        ensures
            r == self.spec_contains(ip),
    {
        proof {
            use_type_invariant(self);
        }
        ipnet_v6_contains(self.addr, self.prefix_len, ip)
    }
}

/// A network of either address family.
#[derive(Clone, Copy, Debug, PartialEq, Eq, Hash)]
pub enum IpNet {
    V4(Ipv4Net),
    V6(Ipv6Net),
}

impl IpNet {
    /// Whether `ip` belongs to this network. An address of the other family
    /// never does.
    pub open spec fn spec_contains(self, ip: IpAddr) -> bool {
        match (self, ip) {
            (IpNet::V4(net), IpAddr::V4(a)) => net.spec_contains(a),
            (IpNet::V6(net), IpAddr::V6(a)) => net.spec_contains(a),
            _ => false,
        }
    }

    pub fn contains(&self, ip: &IpAddr) -> (r: bool)
        ensures
            r == self.spec_contains(*ip),
    {
        match (self, ip) {
            (IpNet::V4(net), IpAddr::V4(a)) => net.contains(*a),
            (IpNet::V6(net), IpAddr::V6(a)) => net.contains(*a),
            _ => false,
        }
    }
}

} // verus!
