//! Socket-address value types.
//!
//! This library models the address half of a network or local-IPC endpoint:
//! IPv4 and IPv6 internet addresses with their ports, filesystem and abstract
//! Unix-domain addresses, kernel-routing (netlink) and link-layer (packet)
//! addresses, and the Apple system-control address shape.  Every address is a
//! plain immutable value, and every address can be converted losslessly to and
//! from the exact byte layout that the Linux socket ABI uses on a
//! little-endian machine: multi-byte address and port fields appear on the
//! wire in network (big-endian) order, while family tags, flow information and
//! scope identifiers appear in the host's order.

use vstd::prelude::*;

pub mod buf;
pub mod endian;
pub mod family;
pub mod inet;
pub mod ip;
pub mod netlink;
pub mod packet;
pub mod sock;
pub mod sys_control;
pub mod text;
pub mod unix;

pub use crate::netlink::NetlinkAddr;
pub use crate::packet::PacketAddr;
pub use crate::sock::SockAddr;
pub use crate::sys_control::SysControlAddr;
pub use crate::unix::UnixAddr;

pub use crate::family::AddressFamily;
pub use crate::inet::GenericIpv4;
pub use crate::inet::GenericIpv6;
pub use crate::inet::GenericSocketAddr;
pub use crate::inet::InetAddr;
pub use crate::inet::SockaddrIn;
pub use crate::inet::SockaddrIn6;
pub use crate::ip::IpAddr;
pub use crate::ip::Ipv4Addr;
pub use crate::ip::Ipv6Addr;

verus! {

/// The one failure this library raises itself: a caller-supplied path or name
/// does not fit in the fixed buffer of its kernel structure.  Oversize input
/// is rejected outright, never truncated.
#[derive(Clone, Copy, Debug, PartialEq, Eq, Structural)]
pub enum AddrError {
    NameTooLong,
}

} // verus!
