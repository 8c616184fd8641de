//! Plain-value model of the network addresses a target resolves to.
//!
//! A resolved address is held as its raw components (octets or segments plus
//! a port), so that the multicast classification and the socket setup rules
//! can be stated and checked over integers alone.
use vstd::prelude::*;

verus! {

/// An IP address as plain values: four octets for IPv4, eight 16-bit
/// segments for IPv6.
#[derive(Clone, Copy, Debug, PartialEq, Eq)]
pub enum IpAddress {
    V4 { a: u8, b: u8, c: u8, d: u8 },
    V6 { segments: [u16; 8] },
}

impl IpAddress {
    /// An IPv4 address is multicast exactly when its first octet lies in
    /// 224..=239 (the 224.0.0.0/4 block).
    /// An IPv6 address is multicast exactly when its first segment starts
    /// with the byte 0xff (the ff00::/8 block), that is when the segment is
    /// at least 0xff00.
    pub open spec fn spec_is_multicast(self) -> bool {
        match self {
            IpAddress::V4 { a, .. } => 224 <= a <= 239,
            IpAddress::V6 { segments } => segments[0] >= 0xff00,
        }
    }

    /// Decide whether the address is a multicast address.
    pub fn is_multicast(&self) -> (r: bool)
        ensures
            r == self.spec_is_multicast(),
    {
        match self {
            IpAddress::V4 { a, .. } => 224 <= *a && *a <= 239,
            IpAddress::V6 { segments } => segments[0] >= 0xff00,
        }
    }

    /// True of IPv4 addresses.
    pub open spec fn spec_is_ipv4(self) -> bool {
        self is V4
    }

    /// True of IPv6 addresses.
    pub open spec fn spec_is_ipv6(self) -> bool {
        self is V6
    }

    /// Decide the address family.
    pub fn is_ipv6(&self) -> (r: bool)
        ensures
            r == self.spec_is_ipv6(),
    {
        match self {
            IpAddress::V4 { .. } => false,
            IpAddress::V6 { .. } => true,
        }
    }

    /// The unspecified (all-zero) address of the same family as `self`.
    pub open spec fn spec_unspecified_of_family(self) -> IpAddress {
        match self {
            IpAddress::V4 { .. } => IpAddress::V4 { a: 0, b: 0, c: 0, d: 0 },
            IpAddress::V6 { .. } => IpAddress::V6 { segments: [0u16, 0, 0, 0, 0, 0, 0, 0] },
        }
    }

    /// Build the unspecified address of the same family as `self`.
    pub fn unspecified_of_family(&self) -> (r: IpAddress)
        ensures
            r == self.spec_unspecified_of_family(),
    {
        match self {
            IpAddress::V4 { .. } => IpAddress::V4 { a: 0, b: 0, c: 0, d: 0 },
            IpAddress::V6 { .. } => IpAddress::V6 { segments: [0u16, 0, 0, 0, 0, 0, 0, 0] },
        }
    }
}

/// A resolved socket address: an IP address and a port.
#[derive(Clone, Copy, Debug, PartialEq, Eq)]
pub struct SocketAddress {
    pub ip: IpAddress,
    pub port: u16,
}

impl SocketAddress {
    /// A target uses the IPv6 multicast send path exactly when its address
    /// is an IPv6 multicast address.
    pub open spec fn spec_is_ipv6_multicast(self) -> bool {
        self.ip.spec_is_ipv6() && self.ip.spec_is_multicast()
    }

    /// Decide whether this address is IPv6 multicast.
    pub fn is_ipv6_multicast(&self) -> (r: bool)
        ensures
            r == self.spec_is_ipv6_multicast(),
    {
        self.ip.is_ipv6() && self.ip.is_multicast()
    }
}

} // verus!
