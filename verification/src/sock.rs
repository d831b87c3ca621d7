//! The tagged union over every address family, and its raw-byte boundary.
//!
//! `SockAddr` is the one type the rest of a system passes across the syscall
//! boundary.  Outbound, `as_ffi_pair` lays the active variant out as the exact
//! bytes of its kernel structure, paired with the exact length the kernel
//! should read.  Inbound, `from_libc_sockaddr` reinterprets a kernel-written
//! buffer as a bounded copy: it checks the family code in the header and the
//! buffer's length before touching any field, and fails closed — an absent
//! buffer, a short buffer, an unrecognized family, and the Unix family (whose
//! explicit length a bare buffer cannot carry) all decode to nothing.

use vstd::prelude::*;

use crate::AddrError;
use crate::buf::push_array;
use crate::buf::push_range;
use crate::buf::zeros;
use crate::endian::push_le16;
use crate::endian::push_le32;
use crate::endian::read_le16;
use crate::endian::read_le32;
use crate::endian::spec_le16;
use crate::endian::spec_le32;
use crate::endian::spec_u16_le;
use crate::endian::spec_u32_le;
use crate::family::AddressFamily;
use crate::family::AF_INET;
use crate::family::AF_INET6;
use crate::family::AF_NETLINK;
use crate::family::AF_PACKET;
use crate::family::AF_UNIX;
use crate::inet::InetAddr;
use crate::inet::SockaddrIn;
use crate::inet::SockaddrIn6;
use crate::ip::Ipv4Addr;
use crate::ip::Ipv6Addr;
use crate::netlink::NetlinkAddr;
use crate::packet::PacketAddr;
use crate::packet::SLL_ADDR_LEN;
use crate::unix::SUN_PATH_LEN;
use crate::unix::UnixAddr;

verus! {

broadcast use vstd::array::group_array_axioms;

/// A socket address of any supported family.
#[derive(Clone, Debug)]
pub enum SockAddr {
    Inet(InetAddr),
    Unix(UnixAddr),
    Netlink(NetlinkAddr),
    Packet(PacketAddr),
}

impl SockAddr {
    /// The active variant's structure is shaped as its family demands.
    pub open spec fn wf(self) -> bool {
        match self {
            SockAddr::Inet(a) => a.wf(),
            SockAddr::Unix(u) => u.wf(),
            SockAddr::Netlink(_) => true,
            SockAddr::Packet(p) => p.wf(),
        }
    }

    /// The family tag of the active variant.
    pub open spec fn spec_family(self) -> AddressFamily {
        match self {
            SockAddr::Inet(InetAddr::V4(_)) => AddressFamily::Inet,
            SockAddr::Inet(InetAddr::V6(_)) => AddressFamily::Inet6,
            SockAddr::Unix(_) => AddressFamily::Unix,
            SockAddr::Netlink(_) => AddressFamily::Netlink,
            SockAddr::Packet(_) => AddressFamily::Packet,
        }
    }

    /// The exact bytes of the active variant's kernel structure, as the
    /// syscall boundary exchanges them: every 16- and 32-bit field at its
    /// ABI offset in host (little-endian) order — ports and addresses having
    /// already been stored in network order, so they appear big-endian on the
    /// wire — and, for Unix, the family tag followed by only the used bytes
    /// of the path buffer.
    pub open spec fn spec_raw_bytes(self) -> Seq<u8> {
        match self {
            SockAddr::Inet(InetAddr::V4(sa)) => spec_le16(sa.sin_family) + spec_le16(sa.sin_port)
                + sa.sin_addr.s_addr@ + sa.sin_zero@,
            SockAddr::Inet(InetAddr::V6(sa)) => spec_le16(sa.sin6_family) + spec_le16(sa.sin6_port)
                + spec_le32(sa.sin6_flowinfo) + sa.sin6_addr.s6_addr@ + spec_le32(
                sa.sin6_scope_id,
            ),
            SockAddr::Unix(u) => spec_le16(AF_UNIX as u16) + u.used_bytes(),
            SockAddr::Netlink(n) => spec_le16(AF_NETLINK as u16) + spec_le16(0u16) + spec_le32(
                n.nl_pid,
            ) + spec_le32(n.nl_groups),
            SockAddr::Packet(p) => spec_le16(AF_PACKET as u16) + spec_le16(p.sll_protocol)
                + spec_le32(p.sll_ifindex) + spec_le16(p.sll_hatype) + seq![
                p.sll_pkttype,
                p.sll_halen,
            ] + p.sll_addr@,
        }
    }

    /// Wrap an internet endpoint.
    pub fn new_inet(addr: InetAddr) -> (r: SockAddr)
        ensures
            r == SockAddr::Inet(addr),
    {
        SockAddr::Inet(addr)
    }

    /// Build the address of a Unix filesystem path; rejects a path longer
    /// than the fixed buffer, whole.
    pub fn new_unix(path: &[u8]) -> (r: Result<SockAddr, AddrError>)
        ensures
            path@.len() > SUN_PATH_LEN ==> (r matches Err(e) && e == AddrError::NameTooLong),
            path@.len() <= SUN_PATH_LEN ==> (r matches Ok(s) && s matches SockAddr::Unix(u)
                && u.wf() && u.path_len == path@.len() && u.sun_path@ =~= path@ + zeros(
                SUN_PATH_LEN - path@.len(),
            )),
    {
        match UnixAddr::new(path) {
            Ok(u) => Ok(SockAddr::Unix(u)),
            Err(e) => Err(e),
        }
    }

    /// Build a netlink address.
    pub fn new_netlink(pid: u32, groups: u32) -> (r: SockAddr)
        ensures
            r matches SockAddr::Netlink(n) && n.nl_pid == pid && n.nl_groups == groups,
    {
        SockAddr::Netlink(NetlinkAddr::new(pid, groups))
    }

    /// The family tag of the active variant.
    pub fn family(&self) -> (r: AddressFamily)
        ensures
            r == self.spec_family(),
    {
        match self {
            SockAddr::Inet(InetAddr::V4(_)) => AddressFamily::Inet,
            SockAddr::Inet(InetAddr::V6(_)) => AddressFamily::Inet6,
            SockAddr::Unix(_) => AddressFamily::Unix,
            SockAddr::Netlink(_) => AddressFamily::Netlink,
            SockAddr::Packet(_) => AddressFamily::Packet,
        }
    }

    /// Render this address as the active variant renders itself.
    pub fn to_str(&self) -> (r: String)
        requires
            self.wf(),
        ensures
            self matches SockAddr::Inet(a) ==> r@ == a.spec_str(),
            self matches SockAddr::Netlink(n) ==> r@ == n.spec_str(),
            self matches SockAddr::Packet(p) ==> r@ == p.spec_str(),
            self matches SockAddr::Unix(u) ==> {
                &&& u.is_unnamed() ==> r@ == "<unbound UNIX socket>"@
                &&& u.is_path() && vstd::utf8::valid_utf8(u.spec_path_bytes()) ==> r@
                    == vstd::utf8::decode_utf8(u.spec_path_bytes())
                &&& u.is_abstract() && vstd::utf8::valid_utf8(u.spec_abstract_bytes()) ==> r@ == (
                "@")@ + vstd::utf8::decode_utf8(u.spec_abstract_bytes())
            },
    {
        match self {
            SockAddr::Inet(a) => a.to_str(),
            SockAddr::Unix(u) => u.to_str(),
            SockAddr::Netlink(n) => n.to_str(),
            SockAddr::Packet(p) => p.to_str(),
        }
    }

    /// The read-only buffer-and-length pair the syscall layer passes to calls
    /// expecting a length-bounded address: exactly the kernel structure's
    /// bytes, and a length equal to the structure's true size — for Unix, the
    /// family header plus only the used length.
    pub fn as_ffi_pair(&self) -> (r: (Vec<u8>, u32))
        requires
            self.wf(),
        ensures
            r.0@ =~= self.spec_raw_bytes(),
            r.1 as int == r.0@.len(),
            self matches SockAddr::Inet(InetAddr::V4(_)) ==> r.1 == 16,
            self matches SockAddr::Inet(InetAddr::V6(_)) ==> r.1 == 28,
            self matches SockAddr::Unix(u) ==> r.1 as int == 2 + u.path_len,
            self is Netlink ==> r.1 == 12,
            self is Packet ==> r.1 == 20,
    {
        let mut v: Vec<u8> = Vec::new();
        match self {
            SockAddr::Inet(InetAddr::V4(sa)) => {
                push_le16(&mut v, sa.sin_family);
                push_le16(&mut v, sa.sin_port);
                push_array(&mut v, &sa.sin_addr.s_addr);
                push_array(&mut v, &sa.sin_zero);
            },
            SockAddr::Inet(InetAddr::V6(sa)) => {
                push_le16(&mut v, sa.sin6_family);
                push_le16(&mut v, sa.sin6_port);
                push_le32(&mut v, sa.sin6_flowinfo);
                push_array(&mut v, &sa.sin6_addr.s6_addr);
                push_le32(&mut v, sa.sin6_scope_id);
            },
            SockAddr::Unix(u) => {
                push_le16(&mut v, 1u16);
                push_range(&mut v, &u.sun_path, 0, u.path_len);
            },
            SockAddr::Netlink(n) => {
                push_le16(&mut v, 16u16);
                push_le16(&mut v, 0u16);
                push_le32(&mut v, n.nl_pid);
                push_le32(&mut v, n.nl_groups);
            },
            SockAddr::Packet(p) => {
                push_le16(&mut v, 17u16);
                push_le16(&mut v, p.sll_protocol);
                push_le32(&mut v, p.sll_ifindex);
                push_le16(&mut v, p.sll_hatype);
                v.push(p.sll_pkttype);
                v.push(p.sll_halen);
                push_array(&mut v, &p.sll_addr);
            },
        }
        assert(v@ =~= self.spec_raw_bytes());
        let n = v.len();
        (v, n as u32)
    }

    /// Reinterpret a kernel-written buffer, dispatching on the family code its
    /// first two bytes declare.  Everything this function accepts, and
    /// everything it refuses, is fixed by `spec_from_raw`: an absent buffer, a
    /// buffer too short for its declared family's structure, an unrecognized
    /// family code, a packet address whose declared hardware-address length
    /// overruns its storage, and the Unix family — whose variable length a
    /// bare buffer does not carry — all yield nothing.
    pub fn from_libc_sockaddr(addr: Option<&Vec<u8>>) -> (r: Option<SockAddr>)
        ensures
            addr is None ==> r is None,
            addr matches Some(b) ==> r == spec_from_raw(b@),
            r matches Some(s) ==> s.wf() && !(s is Unix),
    {
        let b = match addr {
            None => {
                return None;
            },
            Some(b) => b,
        };
        if b.len() < 2 {
            return None;
        }
        let family = read_le16(b, 0) as i32;
        if family == AF_INET {
            if b.len() < 16 {
                return None;
            }
            Some(
                SockAddr::Inet(
                    InetAddr::V4(
                        SockaddrIn {
                            sin_family: read_le16(b, 0),
                            sin_port: read_le16(b, 2),
                            sin_addr: Ipv4Addr { s_addr: [b[4], b[5], b[6], b[7]] },
                            sin_zero: [b[8], b[9], b[10], b[11], b[12], b[13], b[14], b[15]],
                        },
                    ),
                ),
            )
        } else if family == AF_INET6 {
            if b.len() < 28 {
                return None;
            }
            Some(
                SockAddr::Inet(
                    InetAddr::V6(
                        SockaddrIn6 {
                            sin6_family: read_le16(b, 0),
                            sin6_port: read_le16(b, 2),
                            sin6_flowinfo: read_le32(b, 4),
                            sin6_addr: Ipv6Addr {
                                s6_addr: [
                                    b[8],
                                    b[9],
                                    b[10],
                                    b[11],
                                    b[12],
                                    b[13],
                                    b[14],
                                    b[15],
                                    b[16],
                                    b[17],
                                    b[18],
                                    b[19],
                                    b[20],
                                    b[21],
                                    b[22],
                                    b[23],
                                ],
                            },
                            sin6_scope_id: read_le32(b, 24),
                        },
                    ),
                ),
            )
        } else if family == AF_NETLINK {
            if b.len() < 12 {
                return None;
            }
            Some(
                SockAddr::Netlink(
                    NetlinkAddr { nl_pid: read_le32(b, 4), nl_groups: read_le32(b, 8) },
                ),
            )
        } else if family == AF_PACKET {
            if b.len() < 20 {
                return None;
            }
            let halen = b[11];
            if halen as usize > SLL_ADDR_LEN {
                return None;
            }
            Some(
                SockAddr::Packet(
                    PacketAddr {
                        sll_protocol: read_le16(b, 2),
                        sll_ifindex: read_le32(b, 4),
                        sll_hatype: read_le16(b, 8),
                        sll_pkttype: b[10],
                        sll_halen: halen,
                        sll_addr: [b[12], b[13], b[14], b[15], b[16], b[17], b[18], b[19]],
                    },
                ),
            )
        } else {
            None
        }
    }
}

/// What `from_libc_sockaddr` makes of a raw buffer's bytes, in full: the
/// dispatch on the declared family code, every length check, and every parsed
/// field.
pub open spec fn spec_from_raw(b: Seq<u8>) -> Option<SockAddr> {
    if b.len() < 2 {
        None
    } else {
        let family = spec_u16_le(b[0], b[1]) as i32;
        if family == AF_INET {
            if b.len() < 16 {
                None
            } else {
                Some(
                    SockAddr::Inet(
                        InetAddr::V4(
                            SockaddrIn {
                                sin_family: spec_u16_le(b[0], b[1]),
                                sin_port: spec_u16_le(b[2], b[3]),
                                sin_addr: Ipv4Addr { s_addr: [b[4], b[5], b[6], b[7]] },
                                sin_zero: [b[8], b[9], b[10], b[11], b[12], b[13], b[14], b[15]],
                            },
                        ),
                    ),
                )
            }
        } else if family == AF_INET6 {
            if b.len() < 28 {
                None
            } else {
                Some(
                    SockAddr::Inet(
                        InetAddr::V6(
                            SockaddrIn6 {
                                sin6_family: spec_u16_le(b[0], b[1]),
                                sin6_port: spec_u16_le(b[2], b[3]),
                                sin6_flowinfo: spec_u32_le(b[4], b[5], b[6], b[7]),
                                sin6_addr: Ipv6Addr {
                                    s6_addr: [
                                        b[8],
                                        b[9],
                                        b[10],
                                        b[11],
                                        b[12],
                                        b[13],
                                        b[14],
                                        b[15],
                                        b[16],
                                        b[17],
                                        b[18],
                                        b[19],
                                        b[20],
                                        b[21],
                                        b[22],
                                        b[23],
                                    ],
                                },
                                sin6_scope_id: spec_u32_le(b[24], b[25], b[26], b[27]),
                            },
                        ),
                    ),
                )
            }
        } else if family == AF_NETLINK {
            if b.len() < 12 {
                None
            } else {
                Some(
                    SockAddr::Netlink(
                        NetlinkAddr {
                            nl_pid: spec_u32_le(b[4], b[5], b[6], b[7]),
                            nl_groups: spec_u32_le(b[8], b[9], b[10], b[11]),
                        },
                    ),
                )
            }
        } else if family == AF_PACKET {
            if b.len() < 20 {
                None
            } else if b[11] as int > SLL_ADDR_LEN {
                None
            } else {
                Some(
                    SockAddr::Packet(
                        PacketAddr {
                            sll_protocol: spec_u16_le(b[2], b[3]),
                            sll_ifindex: spec_u32_le(b[4], b[5], b[6], b[7]),
                            sll_hatype: spec_u16_le(b[8], b[9]),
                            sll_pkttype: b[10],
                            sll_halen: b[11],
                            sll_addr: [b[12], b[13], b[14], b[15], b[16], b[17], b[18], b[19]],
                        },
                    ),
                )
            }
        } else {
            None
        }
    }
}

/// The meaning of equality of internet endpoints, as `InetAddr`'s own
/// equality defines it.
pub open spec fn spec_inet_eq(a: InetAddr, b: InetAddr) -> bool {
    match (a, b) {
        (InetAddr::V4(x), InetAddr::V4(y)) => x.sin_port == y.sin_port && x.sin_addr.s_addr@
            =~= y.sin_addr.s_addr@,
        (InetAddr::V6(x), InetAddr::V6(y)) => x.sin6_port == y.sin6_port && x.sin6_addr.s6_addr@
            =~= y.sin6_addr.s6_addr@ && x.sin6_flowinfo == y.sin6_flowinfo && x.sin6_scope_id
            == y.sin6_scope_id,
        _ => false,
    }
}

/// The meaning of equality of packet addresses, as `PacketAddr`'s own
/// equality defines it.
pub open spec fn spec_packet_eq(a: PacketAddr, b: PacketAddr) -> bool {
    &&& a.sll_protocol == b.sll_protocol
    &&& a.sll_ifindex == b.sll_ifindex
    &&& a.sll_hatype == b.sll_hatype
    &&& a.sll_pkttype == b.sll_pkttype
    &&& a.hw_addr() =~= b.hw_addr()
}

/// Law: the raw boundary is lossless.  Laying out any well-formed address as
/// its kernel bytes and reinterpreting those bytes gives the address back
/// exactly — for every family that raw reinterpretation accepts.  Unix
/// addresses are excluded by design: their explicit length cannot ride in a
/// bare buffer, so `spec_from_raw` refuses their family code.
pub proof fn lemma_raw_round_trip(s: SockAddr)
    requires
        s.wf(),
        !(s is Unix),
    ensures
        spec_from_raw(s.spec_raw_bytes()) == Some(s),
{
    let b = s.spec_raw_bytes();
    match s {
        SockAddr::Inet(InetAddr::V4(sa)) => {
            assert(b.len() == 16);
            crate::endian::lemma_le16_round_trip(sa.sin_family);
            crate::endian::lemma_le16_round_trip(sa.sin_port);
            assert(spec_u16_le(b[0], b[1]) == sa.sin_family);
            assert(spec_u16_le(b[2], b[3]) == sa.sin_port);
            assert([b[4], b[5], b[6], b[7]] =~= sa.sin_addr.s_addr);
            assert([b[8], b[9], b[10], b[11], b[12], b[13], b[14], b[15]] =~= sa.sin_zero);
            assert(spec_from_raw(b) == Some(s));
        },
        SockAddr::Inet(InetAddr::V6(sa)) => {
            assert(b.len() == 28);
            crate::endian::lemma_le16_round_trip(sa.sin6_family);
            crate::endian::lemma_le16_round_trip(sa.sin6_port);
            crate::endian::lemma_le32_round_trip(sa.sin6_flowinfo);
            crate::endian::lemma_le32_round_trip(sa.sin6_scope_id);
            assert(spec_u16_le(b[0], b[1]) == sa.sin6_family);
            assert(spec_u16_le(b[2], b[3]) == sa.sin6_port);
            assert(spec_u32_le(b[4], b[5], b[6], b[7]) == sa.sin6_flowinfo);
            assert(spec_u32_le(b[24], b[25], b[26], b[27]) == sa.sin6_scope_id);
            assert([
                b[8],
                b[9],
                b[10],
                b[11],
                b[12],
                b[13],
                b[14],
                b[15],
                b[16],
                b[17],
                b[18],
                b[19],
                b[20],
                b[21],
                b[22],
                b[23],
            ] =~= sa.sin6_addr.s6_addr);
            assert(spec_from_raw(b) == Some(s));
        },
        SockAddr::Unix(_) => {
        },
        SockAddr::Netlink(n) => {
            assert(b.len() == 12);
            crate::endian::lemma_le16_round_trip(16u16);
            crate::endian::lemma_le32_round_trip(n.nl_pid);
            crate::endian::lemma_le32_round_trip(n.nl_groups);
            assert(spec_u16_le(b[0], b[1]) == 16u16);
            assert(spec_u32_le(b[4], b[5], b[6], b[7]) == n.nl_pid);
            assert(spec_u32_le(b[8], b[9], b[10], b[11]) == n.nl_groups);
            assert(spec_from_raw(b) == Some(s));
        },
        SockAddr::Packet(p) => {
            assert(b.len() == 20);
            crate::endian::lemma_le16_round_trip(17u16);
            crate::endian::lemma_le16_round_trip(p.sll_protocol);
            crate::endian::lemma_le32_round_trip(p.sll_ifindex);
            crate::endian::lemma_le16_round_trip(p.sll_hatype);
            assert(spec_u16_le(b[0], b[1]) == 17u16);
            assert(spec_u16_le(b[2], b[3]) == p.sll_protocol);
            assert(spec_u32_le(b[4], b[5], b[6], b[7]) == p.sll_ifindex);
            assert(spec_u16_le(b[8], b[9]) == p.sll_hatype);
            assert(b[10] == p.sll_pkttype);
            assert(b[11] == p.sll_halen);
            assert([b[12], b[13], b[14], b[15], b[16], b[17], b[18], b[19]] =~= p.sll_addr);
            assert(spec_from_raw(b) == Some(s));
        },
    }
}

/// Law: reinterpretation loses nothing either.  Laying a decoded address back
/// out reproduces the kernel-written buffer byte for byte, whenever the
/// buffer has exactly its structure's size — and, for netlink, zero padding,
/// the one region whose bytes the decoded value does not carry.
pub proof fn lemma_raw_bytes_faithful(b: Seq<u8>)
    requires
        spec_from_raw(b) is Some,
        ({
            let s = spec_from_raw(b)->0;
            &&& (s matches SockAddr::Inet(InetAddr::V4(_)) ==> b.len() == 16)
            &&& (s matches SockAddr::Inet(InetAddr::V6(_)) ==> b.len() == 28)
            &&& (s is Netlink ==> b.len() == 12 && b[2] == 0 && b[3] == 0)
            &&& (s is Packet ==> b.len() == 20)
        }),
    ensures
        spec_from_raw(b)->0.spec_raw_bytes() =~= b,
{
    let family = spec_u16_le(b[0], b[1]) as i32;
    if family == AF_INET {
        crate::endian::lemma_u16_le_round_trip(b[0], b[1]);
        crate::endian::lemma_u16_le_round_trip(b[2], b[3]);
        assert(spec_from_raw(b)->0.spec_raw_bytes() =~= b);
    } else if family == AF_INET6 {
        crate::endian::lemma_u16_le_round_trip(b[0], b[1]);
        crate::endian::lemma_u16_le_round_trip(b[2], b[3]);
        crate::endian::lemma_u32_le_round_trip(b[4], b[5], b[6], b[7]);
        crate::endian::lemma_u32_le_round_trip(b[24], b[25], b[26], b[27]);
        assert(spec_from_raw(b)->0.spec_raw_bytes() =~= b);
    } else if family == AF_NETLINK {
        crate::endian::lemma_u16_le_round_trip(b[0], b[1]);
        crate::endian::lemma_u16_le_round_trip(b[2], b[3]);
        crate::endian::lemma_u32_le_round_trip(b[4], b[5], b[6], b[7]);
        crate::endian::lemma_u32_le_round_trip(b[8], b[9], b[10], b[11]);
        assert((0u16 & 0xff) as u8 == 0u8 && ((0u16 >> 8) & 0xff) as u8 == 0u8) by (bit_vector);
        assert(spec_le16(0u16) =~= seq![b[2], b[3]]);
        assert(spec_from_raw(b)->0.spec_raw_bytes() =~= b);
    } else {
        crate::endian::lemma_u16_le_round_trip(b[0], b[1]);
        crate::endian::lemma_u16_le_round_trip(b[2], b[3]);
        crate::endian::lemma_u32_le_round_trip(b[4], b[5], b[6], b[7]);
        crate::endian::lemma_u16_le_round_trip(b[8], b[9]);
        assert(spec_from_raw(b)->0.spec_raw_bytes() =~= b);
    }
}

impl PartialEq for SockAddr {
    fn eq(&self, other: &SockAddr) -> (r: bool) {
        match (self, other) {
            (SockAddr::Inet(a), SockAddr::Inet(b)) => a == b,
            (SockAddr::Unix(a), SockAddr::Unix(b)) => a == b,
            (SockAddr::Netlink(a), SockAddr::Netlink(b)) => a == b,
            (SockAddr::Packet(a), SockAddr::Packet(b)) => a == b,
            _ => false,
        }
    }
}

impl Eq for SockAddr {

}

impl vstd::std_specs::cmp::PartialEqSpecImpl for SockAddr {
    open spec fn obeys_eq_spec() -> bool {
        true
    }

    /// Equality of socket addresses delegates to the active variant's own
    /// meaning of equality; two addresses of different families are never
    /// equal.
    open spec fn eq_spec(&self, other: &SockAddr) -> bool {
        match (self, other) {
            (SockAddr::Inet(a), SockAddr::Inet(b)) => spec_inet_eq(*a, *b),
            (SockAddr::Unix(a), SockAddr::Unix(b)) => a.used_bytes() =~= b.used_bytes(),
            (SockAddr::Netlink(a), SockAddr::Netlink(b)) => a == b,
            (SockAddr::Packet(a), SockAddr::Packet(b)) => spec_packet_eq(*a, *b),
            _ => false,
        }
    }
}

} // verus!
