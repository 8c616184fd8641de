//! Socket setup rules for one target address.
//!
//! Given the address a destination string resolved to, the binder decides
//! everything the caller must do before the streaming loop starts: which
//! local address to bind, whether and where to connect the socket, and
//! which multicast group to join on which interface. The decisions are
//! returned as a [`SocketPlan`] of plain values; performing the actual
//! socket calls is left to the unverified edge of the program.
use vstd::prelude::*;

use crate::addr::IpAddress;
use crate::addr::SocketAddress;

verus! {

/// The operating systems whose multicast setup differs.
#[derive(Clone, Copy, Debug, PartialEq, Eq, Structural)]
pub enum Platform {
    Linux,
    Windows,
    MacOs,
}

/// The fatal setup failures: each aborts the whole session before any data
/// flows.
#[derive(Clone, Copy, Debug, PartialEq, Eq, Structural)]
pub enum SetupError {
    /// The destination string resolved to no address.
    AddressResolution,
    /// The local socket could not be bound.
    Bind,
    /// The multicast group could not be joined, or the interface to join on
    /// could not be determined.
    MulticastJoin,
}

/// The multicast join a target requires, if any.
#[derive(Clone, Copy, Debug, PartialEq, Eq)]
pub enum JoinPlan {
    /// The target is not multicast: nothing to join.
    NoJoin,
    /// Join the IPv4 group on the unspecified local interface.
    JoinV4 { group: IpAddress },
    /// Join the IPv6 group on the interface with the given index.
    JoinV6 { group: IpAddress, interface_index: u32 },
}

/// Everything the caller must do to turn one resolved address into a
/// ready-to-send socket.
#[derive(Clone, Copy, Debug, PartialEq, Eq)]
pub struct SocketPlan {
    /// Bind a new UDP socket here: the unspecified address of the target's
    /// family, on an OS-assigned ephemeral port.
    pub bind_address: SocketAddress,
    /// Connect the bound socket here before joining, so that later sends
    /// need no destination argument. Present exactly for IPv6 multicast
    /// targets.
    pub connect_to: Option<SocketAddress>,
    /// The multicast group to join, if the target is multicast.
    pub join: JoinPlan,
}

/// The local address the socket for `target` is bound to: unspecified, of
/// the target's family, port 0.
pub open spec fn spec_bind_address(target: SocketAddress) -> SocketAddress {
    SocketAddress { ip: target.ip.spec_unspecified_of_family(), port: 0 }
}

/// Where the socket for `target` is connected before sending: only IPv6
/// multicast targets are pre-connected; everywhere but on Windows the
/// connection goes to the unspecified IPv6 address at the target's port,
/// on Windows to the fully resolved target itself.
pub open spec fn spec_connect_target(target: SocketAddress, platform: Platform) -> Option<
    SocketAddress,
> {
    if target.spec_is_ipv6_multicast() {
        if platform is Windows {
            Some(target)
        } else {
            Some(SocketAddress { ip: target.ip.spec_unspecified_of_family(), port: target.port })
        }
    } else {
        None
    }
}

/// What a correct setup plan for `target` on `platform` looks like. The
/// interface index of an IPv6 join is pinned to 0 everywhere but on macOS,
/// where it is whatever the default-interface query returned.
pub open spec fn spec_plan_matches(
    target: SocketAddress,
    platform: Platform,
    plan: SocketPlan,
) -> bool {
    &&& plan.bind_address == spec_bind_address(target)
    &&& plan.connect_to == spec_connect_target(target, platform)
    &&& match plan.join {
        JoinPlan::NoJoin => !target.ip.spec_is_multicast(),
        JoinPlan::JoinV4 { group } => {
            &&& target.ip.spec_is_ipv4()
            &&& target.ip.spec_is_multicast()
            &&& group == target.ip
        },
        JoinPlan::JoinV6 { group, interface_index } => {
            &&& target.spec_is_ipv6_multicast()
            &&& group == target.ip
            &&& (platform is MacOs || interface_index == 0)
        },
    }
}

/// Relies on `default_net::get_default_interface`: the index of the
/// machine's default network interface. The result depends on the machine
/// and its configuration, so nothing is promised of the value.
#[verifier::external_body]
fn default_interface_index() -> Option<u32> {
    default_net::get_default_interface().ok().map(|interface| interface.index)
}

/// Turn the address one destination string resolved to into the resolved
/// address paired with its socket setup plan.
///
/// `resolved` is `None` when resolution produced no address at all; that is
/// the one `AddressResolution` failure. A `MulticastJoin` error can arise
/// only on macOS for an IPv6 multicast target, when the default network
/// interface to join on cannot be determined; every other input is owed a
/// plan.
pub fn target_socket_interface(resolved: Option<SocketAddress>, platform: Platform) -> (r: Result<
    (SocketAddress, SocketPlan),
    SetupError,
>)
    ensures
        (resolved is None) == (r matches Err(e) && e is AddressResolution),
        r matches Ok(p) ==> resolved == Some(p.0) && spec_plan_matches(p.0, platform, p.1),
        r matches Err(e) ==> (e is AddressResolution || e is MulticastJoin),
        (r matches Err(e) && e is MulticastJoin) ==> (resolved matches Some(a)
            && a.spec_is_ipv6_multicast() && platform is MacOs),
        (resolved matches Some(a) && !(a.spec_is_ipv6_multicast() && platform is MacOs))
            ==> r is Ok,
{
    match resolved {
        None => Err(SetupError::AddressResolution),
        Some(addr) => {
            let bind_address = SocketAddress { ip: addr.ip.unspecified_of_family(), port: 0 };
            if !addr.ip.is_multicast() {
                Ok(
                    (
                        addr,
                        SocketPlan { bind_address, connect_to: None, join: JoinPlan::NoJoin },
                    ),
                )
            } else if !addr.ip.is_ipv6() {
                Ok(
                    (
                        addr,
                        SocketPlan {
                            bind_address,
                            connect_to: None,
                            join: JoinPlan::JoinV4 { group: addr.ip },
                        },
                    ),
                )
            } else {
                let connect_to = match platform {
                    Platform::Windows => Some(addr),
                    _ => Some(
                        SocketAddress { ip: addr.ip.unspecified_of_family(), port: addr.port },
                    ),
                };
                let interface_index: u32 = match platform {
                    Platform::MacOs => match default_interface_index() {
                        Some(index) => index,
                        None => {
                            return Err(SetupError::MulticastJoin);
                        },
                    },
                    _ => 0,
                };
                Ok(
                    (
                        addr,
                        SocketPlan {
                            bind_address,
                            connect_to,
                            join: JoinPlan::JoinV6 { group: addr.ip, interface_index },
                        },
                    ),
                )
            }
        },
    }
}

} // verus!
