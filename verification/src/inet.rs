//! Internet endpoints: an IP address together with a port, stored as the
//! literal kernel structure of its family.
//!
//! Ports are stored in network byte order and every accessor undoes that on
//! the way out; the IPv6 flow-information and scope-identifier fields are
//! stored in host order, as the ABI mandates.  Equality ignores the padding
//! bytes the kernel does not promise to zero.

use vstd::prelude::*;

use crate::endian::spec_be16;
use crate::endian::spec_swap16;
use crate::endian::swap16;
use crate::text::append_colon;
use crate::text::append_dec;
use crate::text::spec_dec;
use vstd::string::StringExecFns;
use crate::family::AF_INET;
use crate::family::AF_INET6;
use crate::ip::IpAddr;
use crate::ip::Ipv4Addr;
use crate::ip::Ipv6Addr;

verus! {

broadcast use vstd::array::group_array_axioms;

/// The kernel structure of an IPv4 endpoint.  `sin_port` holds the port in
/// network byte order; `sin_zero` is padding that the kernel may leave
/// unspecified, carried verbatim and ignored by equality.
#[derive(Clone, Copy, Debug)]
pub struct SockaddrIn {
    pub sin_family: u16,
    pub sin_port: u16,
    pub sin_addr: Ipv4Addr,
    pub sin_zero: [u8; 8],
}

impl SockaddrIn {
    /// The structure carries the IPv4 family tag.
    pub open spec fn wf(self) -> bool {
        self.sin_family == AF_INET as u16
    }
}

/// The kernel structure of an IPv6 endpoint.  `sin6_port` holds the port in
/// network byte order; `sin6_flowinfo` and `sin6_scope_id` are in host order.
#[derive(Clone, Copy, Debug)]
pub struct SockaddrIn6 {
    pub sin6_family: u16,
    pub sin6_port: u16,
    pub sin6_flowinfo: u32,
    pub sin6_addr: Ipv6Addr,
    pub sin6_scope_id: u32,
}

impl SockaddrIn6 {
    /// The structure carries the IPv6 family tag.
    pub open spec fn wf(self) -> bool {
        self.sin6_family == AF_INET6 as u16
    }
}

/// A portable IPv4 host address: the four octets of its dotted-quad form, in
/// host order.
#[derive(Clone, Copy, Debug, PartialEq, Eq, Structural)]
pub struct GenericIpv4 {
    pub a: u8,
    pub b: u8,
    pub c: u8,
    pub d: u8,
}

/// A portable IPv6 host address: the eight 16-bit segments of its colon-hex
/// form, in host order.
#[derive(Clone, Copy, Debug, PartialEq, Eq, Structural)]
pub struct GenericIpv6 {
    pub s0: u16,
    pub s1: u16,
    pub s2: u16,
    pub s3: u16,
    pub s4: u16,
    pub s5: u16,
    pub s6: u16,
    pub s7: u16,
}

/// A portable internet endpoint, the form generic address libraries use: all
/// fields in host order, nothing kernel-shaped about it.
#[derive(Clone, Copy, Debug, PartialEq, Eq, Structural)]
pub enum GenericSocketAddr {
    V4 { ip: GenericIpv4, port: u16 },
    V6 { ip: GenericIpv6, port: u16, flowinfo: u32, scope_id: u32 },
}

/// An internet endpoint: address plus port, for either IP family, stored as
/// the family's literal kernel structure.
#[derive(Clone, Copy, Debug)]
pub enum InetAddr {
    V4(SockaddrIn),
    V6(SockaddrIn6),
}

impl InetAddr {
    /// The active variant's structure is shaped as its family demands.
    pub open spec fn wf(self) -> bool {
        match self {
            InetAddr::V4(sa) => sa.wf(),
            InetAddr::V6(sa) => sa.wf(),
        }
    }

    /// The port in host order: the stored network-order field, swapped back.
    pub open spec fn spec_port(self) -> u16 {
        match self {
            InetAddr::V4(sa) => spec_swap16(sa.sin_port),
            InetAddr::V6(sa) => spec_swap16(sa.sin6_port),
        }
    }

    /// The IP address of this endpoint.
    pub open spec fn spec_ip(self) -> IpAddr {
        match self {
            InetAddr::V4(sa) => IpAddr::V4(sa.sin_addr),
            InetAddr::V6(sa) => IpAddr::V6(sa.sin6_addr),
        }
    }

    /// The portable form of this endpoint: every field translated back to
    /// host order.
    pub open spec fn spec_to_generic(self) -> GenericSocketAddr {
        match self {
            InetAddr::V4(sa) => GenericSocketAddr::V4 {
                ip: GenericIpv4 {
                    a: sa.sin_addr.s_addr@[0],
                    b: sa.sin_addr.s_addr@[1],
                    c: sa.sin_addr.s_addr@[2],
                    d: sa.sin_addr.s_addr@[3],
                },
                port: spec_swap16(sa.sin_port),
            },
            InetAddr::V6(sa) => GenericSocketAddr::V6 {
                ip: GenericIpv6 {
                    s0: sa.sin6_addr.spec_segments()[0],
                    s1: sa.sin6_addr.spec_segments()[1],
                    s2: sa.sin6_addr.spec_segments()[2],
                    s3: sa.sin6_addr.spec_segments()[3],
                    s4: sa.sin6_addr.spec_segments()[4],
                    s5: sa.sin6_addr.spec_segments()[5],
                    s6: sa.sin6_addr.spec_segments()[6],
                    s7: sa.sin6_addr.spec_segments()[7],
                },
                port: spec_swap16(sa.sin6_port),
                flowinfo: sa.sin6_flowinfo,
                scope_id: sa.sin6_scope_id,
            },
        }
    }

    /// Build the endpoint of `ip` and `port`: the family-appropriate kernel
    /// structure, with the port converted to network order and every unused
    /// field zero-initialized.
    pub fn new(ip: IpAddr, port: u16) -> (r: InetAddr)
        ensures
            r.wf(),
            r.spec_ip() == ip,
            r.spec_port() == port,
            r matches InetAddr::V4(sa) ==> sa.sin_zero@ =~= seq![0u8, 0u8, 0u8, 0u8, 0u8, 0u8, 0u8, 0u8],
            r matches InetAddr::V6(sa) ==> sa.sin6_flowinfo == 0 && sa.sin6_scope_id == 0,
            (r is V4) == (ip is V4),
    {
        proof {
            crate::endian::lemma_swap16_involutive(port);
        }
        match ip {
            IpAddr::V4(v4) => InetAddr::V4(
                SockaddrIn {
                    sin_family: 2,
                    sin_port: swap16(port),
                    sin_addr: v4,
                    sin_zero: [0u8, 0u8, 0u8, 0u8, 0u8, 0u8, 0u8, 0u8],
                },
            ),
            IpAddr::V6(v6) => InetAddr::V6(
                SockaddrIn6 {
                    sin6_family: 10,
                    sin6_port: swap16(port),
                    sin6_flowinfo: 0,
                    sin6_addr: v6,
                    sin6_scope_id: 0,
                },
            ),
        }
    }

    /// The endpoint a portable address describes, as a value: the
    /// family-appropriate kernel structure, the port stored in network order,
    /// unused fields zero.
    pub open spec fn spec_from_generic(g: GenericSocketAddr) -> InetAddr {
        match g {
            GenericSocketAddr::V4 { ip, port } => InetAddr::V4(
                SockaddrIn {
                    sin_family: 2u16,
                    sin_port: spec_swap16(port),
                    sin_addr: Ipv4Addr { s_addr: [ip.a, ip.b, ip.c, ip.d] },
                    sin_zero: [0u8, 0u8, 0u8, 0u8, 0u8, 0u8, 0u8, 0u8],
                },
            ),
            GenericSocketAddr::V6 { ip, port, flowinfo, scope_id } => InetAddr::V6(
                SockaddrIn6 {
                    sin6_family: 10u16,
                    sin6_port: spec_swap16(port),
                    sin6_flowinfo: flowinfo,
                    sin6_addr: Ipv6Addr {
                        s6_addr: [
                            spec_be16(ip.s0)[0],
                            spec_be16(ip.s0)[1],
                            spec_be16(ip.s1)[0],
                            spec_be16(ip.s1)[1],
                            spec_be16(ip.s2)[0],
                            spec_be16(ip.s2)[1],
                            spec_be16(ip.s3)[0],
                            spec_be16(ip.s3)[1],
                            spec_be16(ip.s4)[0],
                            spec_be16(ip.s4)[1],
                            spec_be16(ip.s5)[0],
                            spec_be16(ip.s5)[1],
                            spec_be16(ip.s6)[0],
                            spec_be16(ip.s6)[1],
                            spec_be16(ip.s7)[0],
                            spec_be16(ip.s7)[1],
                        ],
                    },
                    sin6_scope_id: scope_id,
                },
            ),
        }
    }

    /// Build the endpoint a portable address describes: the conversion path an
    /// application takes when it holds a portable address rather than a
    /// kernel-shaped one.  The portable form is recovered exactly by
    /// `to_generic`.
    pub fn from_generic(g: &GenericSocketAddr) -> (r: InetAddr)
        ensures
            r == InetAddr::spec_from_generic(*g),
            r.wf(),
            r.spec_to_generic() == *g,
            (r is V4) == (*g is V4),
            r matches InetAddr::V4(sa) ==> sa.sin_zero@ =~= seq![0u8, 0u8, 0u8, 0u8, 0u8, 0u8, 0u8, 0u8],
    {
        match g {
            GenericSocketAddr::V4 { ip, port } => {
                proof {
                    crate::endian::lemma_swap16_involutive(*port);
                }
                let r = InetAddr::V4(
                    SockaddrIn {
                        sin_family: 2,
                        sin_port: swap16(*port),
                        sin_addr: Ipv4Addr::new(ip.a, ip.b, ip.c, ip.d),
                        sin_zero: [0u8, 0u8, 0u8, 0u8, 0u8, 0u8, 0u8, 0u8],
                    },
                );
                proof {
                    let sp = InetAddr::spec_from_generic(*g);
                    assert(r->V4_0.sin_addr.s_addr =~= sp->V4_0.sin_addr.s_addr);
                    assert(r->V4_0.sin_zero =~= sp->V4_0.sin_zero);
                }
                r
            },
            GenericSocketAddr::V6 { ip, port, flowinfo, scope_id } => {
                proof {
                    crate::endian::lemma_swap16_involutive(*port);
                }
                let r = InetAddr::V6(
                    SockaddrIn6 {
                        sin6_family: 10,
                        sin6_port: swap16(*port),
                        sin6_flowinfo: *flowinfo,
                        sin6_addr: Ipv6Addr::new(
                            ip.s0,
                            ip.s1,
                            ip.s2,
                            ip.s3,
                            ip.s4,
                            ip.s5,
                            ip.s6,
                            ip.s7,
                        ),
                        sin6_scope_id: *scope_id,
                    },
                );
                proof {
                    let sp = InetAddr::spec_from_generic(*g);
                    assert(r->V6_0.sin6_addr.s6_addr =~= sp->V6_0.sin6_addr.s6_addr);
                }
                r
            },
        }
    }

    /// The IP address of this endpoint.
    pub fn ip(&self) -> (r: IpAddr)
        ensures
            r == self.spec_ip(),
    {
        match self {
            InetAddr::V4(sa) => IpAddr::V4(sa.sin_addr),
            InetAddr::V6(sa) => IpAddr::V6(sa.sin6_addr),
        }
    }

    /// The port of this endpoint, converted back from network-order storage.
    pub fn port(&self) -> (r: u16)
        ensures
            r == self.spec_port(),
    {
        match self {
            InetAddr::V4(sa) => swap16(sa.sin_port),
            InetAddr::V6(sa) => swap16(sa.sin6_port),
        }
    }

    /// The portable form of this endpoint: the exact inverse of
    /// `from_generic` for every value this library produces.
    pub fn to_generic(&self) -> (r: GenericSocketAddr)
        ensures
            r == self.spec_to_generic(),
    {
        match self {
            InetAddr::V4(sa) => {
                let o = sa.sin_addr.octets();
                GenericSocketAddr::V4 {
                    ip: GenericIpv4 { a: o[0], b: o[1], c: o[2], d: o[3] },
                    port: swap16(sa.sin_port),
                }
            },
            InetAddr::V6(sa) => {
                let s = sa.sin6_addr.segments();
                GenericSocketAddr::V6 {
                    ip: GenericIpv6 {
                        s0: s[0],
                        s1: s[1],
                        s2: s[2],
                        s3: s[3],
                        s4: s[4],
                        s5: s[5],
                        s6: s[6],
                        s7: s[7],
                    },
                    port: swap16(sa.sin6_port),
                    flowinfo: sa.sin6_flowinfo,
                    scope_id: sa.sin6_scope_id,
                }
            },
        }
    }
}

/// Law: portable round trip.  For every portable endpoint — both families,
/// flow information and scope identifier included — building the kernel form
/// and reading the portable form back gives the original exactly.
pub proof fn lemma_generic_round_trip(g: GenericSocketAddr)
    ensures
        InetAddr::spec_from_generic(g).spec_to_generic() == g,
{
    match g {
        GenericSocketAddr::V4 { ip, port } => {
            crate::endian::lemma_swap16_involutive(port);
        },
        GenericSocketAddr::V6 { ip, port, flowinfo, scope_id } => {
            crate::endian::lemma_swap16_involutive(port);
            crate::endian::lemma_be16_round_trip(ip.s0);
            crate::endian::lemma_be16_round_trip(ip.s1);
            crate::endian::lemma_be16_round_trip(ip.s2);
            crate::endian::lemma_be16_round_trip(ip.s3);
            crate::endian::lemma_be16_round_trip(ip.s4);
            crate::endian::lemma_be16_round_trip(ip.s5);
            crate::endian::lemma_be16_round_trip(ip.s6);
            crate::endian::lemma_be16_round_trip(ip.s7);
            let a = InetAddr::spec_from_generic(g)->V6_0.sin6_addr;
            assert(a.spec_segments() =~= seq![
                ip.s0,
                ip.s1,
                ip.s2,
                ip.s3,
                ip.s4,
                ip.s5,
                ip.s6,
                ip.s7,
            ]);
        },
    }
}

impl InetAddr {
    /// The textual rendering of this endpoint: `ip:port` for IPv4, and
    /// `[ip]:port` for IPv6 — the brackets keep the colon-hex address apart
    /// from the port separator.
    pub open spec fn spec_str(self) -> Seq<char> {
        match self {
            InetAddr::V4(sa) => sa.sin_addr.spec_str() + seq![':'] + spec_dec(
                spec_swap16(sa.sin_port) as int,
            ),
            InetAddr::V6(sa) => "["@ + sa.sin6_addr.spec_str() + "]:"@ + spec_dec(
                spec_swap16(sa.sin6_port) as int,
            ),
        }
    }

    /// Render this endpoint as text.
    pub fn to_str(&self) -> (r: String)
        ensures
            r@ == self.spec_str(),
    {
        match self {
            InetAddr::V4(sa) => {
                let mut s = sa.sin_addr.to_str();
                append_colon(&mut s);
                append_dec(&mut s, swap16(sa.sin_port) as u32);
                assert(s@ =~= self.spec_str());
                s
            },
            InetAddr::V6(sa) => {
                let ip = sa.sin6_addr.to_str();
                let mut s = String::new();
                s.append("[");
                s.append(ip.as_str());
                s.append("]:");
                append_dec(&mut s, swap16(sa.sin6_port) as u32);
                assert(s@ =~= self.spec_str());
                s
            },
        }
    }
}

impl PartialEq for InetAddr {
    fn eq(&self, other: &InetAddr) -> (r: bool) {
        match (self, other) {
            (InetAddr::V4(a), InetAddr::V4(b)) => a.sin_port == b.sin_port && a.sin_addr
                == b.sin_addr,
            (InetAddr::V6(a), InetAddr::V6(b)) => a.sin6_port == b.sin6_port && a.sin6_addr
                == b.sin6_addr && a.sin6_flowinfo == b.sin6_flowinfo && a.sin6_scope_id
                == b.sin6_scope_id,
            _ => false,
        }
    }
}

impl Eq for InetAddr {

}

impl vstd::std_specs::cmp::PartialEqSpecImpl for InetAddr {
    open spec fn obeys_eq_spec() -> bool {
        true
    }

    /// Equality of internet endpoints: the meaningful fields of the active
    /// variant — port and address, plus flow information and scope for IPv6 —
    /// and nothing else.  The padding bytes and the redundant family tag are
    /// deliberately ignored.
    open spec fn eq_spec(&self, other: &InetAddr) -> bool {
        match (self, other) {
            (InetAddr::V4(a), InetAddr::V4(b)) => a.sin_port == b.sin_port
                && a.sin_addr.s_addr@ =~= b.sin_addr.s_addr@,
            (InetAddr::V6(a), InetAddr::V6(b)) => a.sin6_port == b.sin6_port
                && a.sin6_addr.s6_addr@ =~= b.sin6_addr.s6_addr@ && a.sin6_flowinfo
                == b.sin6_flowinfo && a.sin6_scope_id == b.sin6_scope_id,
            _ => false,
        }
    }
}

} // verus!
