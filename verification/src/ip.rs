//! IPv4 and IPv6 host addresses, stored in network byte order.

use vstd::prelude::*;

use crate::endian::spec_u16_be;
use crate::endian::u16_from_be;
use crate::endian::be_hi;
use crate::endian::be_lo;
use crate::text::append_dec;
use crate::text::append_dot;
use crate::text::append_ipv6;
use crate::text::spec_dec;
use crate::text::spec_ipv6_chars;

verus! {

broadcast use vstd::array::group_array_axioms;

/// A 32-bit IPv4 host address.  `s_addr` holds the four bytes of the address
/// word exactly as they cross the wire: `s_addr[0]` is the leftmost octet of
/// the dotted-quad form, whatever the host's own byte order.
#[derive(Clone, Copy, Debug)]
pub struct Ipv4Addr {
    pub s_addr: [u8; 4],
}

impl Ipv4Addr {
    /// The address whose dotted-quad form is `a.b.c.d`.
    pub fn new(a: u8, b: u8, c: u8, d: u8) -> (r: Ipv4Addr)
        ensures
            r.s_addr@ =~= seq![a, b, c, d],
    {
        Ipv4Addr { s_addr: [a, b, c, d] }
    }

    /// The wildcard ("any") address: all zeros.
    pub fn any() -> (r: Ipv4Addr)
        ensures
            r.s_addr@ =~= seq![0u8, 0u8, 0u8, 0u8],
    {
        Ipv4Addr { s_addr: [0, 0, 0, 0] }
    }

    /// The four octets of the address, leftmost first.
    pub fn octets(&self) -> (r: [u8; 4])
        ensures
            r == self.s_addr,
    {
        self.s_addr
    }

    /// The dotted-quad rendering of this address.
    pub open spec fn spec_str(self) -> Seq<char> {
        spec_dec(self.s_addr@[0] as int) + seq!['.'] + spec_dec(self.s_addr@[1] as int)
            + seq!['.'] + spec_dec(self.s_addr@[2] as int) + seq!['.'] + spec_dec(
            self.s_addr@[3] as int,
        )
    }

    /// Render the address in its dotted-quad form.
    pub fn to_str(&self) -> (r: String)
        ensures
            r@ == self.spec_str(),
    {
        let mut s = String::new();
        append_dec(&mut s, self.s_addr[0] as u32);
        append_dot(&mut s);
        append_dec(&mut s, self.s_addr[1] as u32);
        append_dot(&mut s);
        append_dec(&mut s, self.s_addr[2] as u32);
        append_dot(&mut s);
        append_dec(&mut s, self.s_addr[3] as u32);
        assert(s@ =~= self.spec_str());
        s
    }
}

impl PartialEq for Ipv4Addr {
    fn eq(&self, other: &Ipv4Addr) -> (r: bool) {
        self.s_addr[0] == other.s_addr[0] && self.s_addr[1] == other.s_addr[1] && self.s_addr[2]
            == other.s_addr[2] && self.s_addr[3] == other.s_addr[3]
    }
}

impl Eq for Ipv4Addr {

}

impl vstd::std_specs::cmp::PartialEqSpecImpl for Ipv4Addr {
    open spec fn obeys_eq_spec() -> bool {
        true
    }

    open spec fn eq_spec(&self, other: &Ipv4Addr) -> bool {
        self.s_addr@ =~= other.s_addr@
    }
}

/// A 128-bit IPv6 host address.  `s6_addr` holds the sixteen address bytes in
/// network order on every architecture: bytes `2*i` and `2*i + 1` spell the
/// address's segment `i`, high byte first.
#[derive(Clone, Copy, Debug)]
pub struct Ipv6Addr {
    pub s6_addr: [u8; 16],
}

impl Ipv6Addr {
    /// The eight 16-bit segments the stored bytes spell, in host order.
    pub open spec fn spec_segments(self) -> Seq<u16> {
        Seq::new(8, |i: int| spec_u16_be(self.s6_addr@[2 * i], self.s6_addr@[2 * i + 1]))
    }

    /// The address whose colon-hex form is `a:b:c:d:e:f:g:h`.
    pub fn new(a: u16, b: u16, c: u16, d: u16, e: u16, f: u16, g: u16, h: u16) -> (r: Ipv6Addr)
        ensures
            r.spec_segments() =~= seq![a, b, c, d, e, f, g, h],
            r.s6_addr@ =~= crate::endian::spec_be16(a) + crate::endian::spec_be16(b)
                + crate::endian::spec_be16(c) + crate::endian::spec_be16(d)
                + crate::endian::spec_be16(e) + crate::endian::spec_be16(f)
                + crate::endian::spec_be16(g) + crate::endian::spec_be16(h),
    {
        let r = Ipv6Addr {
            s6_addr: [
                be_hi(a),
                be_lo(a),
                be_hi(b),
                be_lo(b),
                be_hi(c),
                be_lo(c),
                be_hi(d),
                be_lo(d),
                be_hi(e),
                be_lo(e),
                be_hi(f),
                be_lo(f),
                be_hi(g),
                be_lo(g),
                be_hi(h),
                be_lo(h),
            ],
        };
        proof {
            crate::endian::lemma_be16_round_trip(a);
            crate::endian::lemma_be16_round_trip(b);
            crate::endian::lemma_be16_round_trip(c);
            crate::endian::lemma_be16_round_trip(d);
            crate::endian::lemma_be16_round_trip(e);
            crate::endian::lemma_be16_round_trip(f);
            crate::endian::lemma_be16_round_trip(g);
            crate::endian::lemma_be16_round_trip(h);
        }
        r
    }

    /// The canonical compressed colon-hex rendering of this address.
    pub open spec fn spec_str(self) -> Seq<char> {
        spec_ipv6_chars(self.spec_segments())
    }

    /// Render the address in its canonical compressed colon-hex form.
    pub fn to_str(&self) -> (r: String)
        ensures
            r@ == self.spec_str(),
    {
        let segs = self.segments();
        let mut s = String::new();
        append_ipv6(&mut s, &segs);
        assert(s@ =~= self.spec_str());
        s
    }

    /// The eight 16-bit segments that make up this address, reconstructed in
    /// host order from the network-order byte array.
    pub fn segments(&self) -> (r: [u16; 8])
        ensures
            r@ =~= self.spec_segments(),
    {
        [
            u16_from_be(self.s6_addr[0], self.s6_addr[1]),
            u16_from_be(self.s6_addr[2], self.s6_addr[3]),
            u16_from_be(self.s6_addr[4], self.s6_addr[5]),
            u16_from_be(self.s6_addr[6], self.s6_addr[7]),
            u16_from_be(self.s6_addr[8], self.s6_addr[9]),
            u16_from_be(self.s6_addr[10], self.s6_addr[11]),
            u16_from_be(self.s6_addr[12], self.s6_addr[13]),
            u16_from_be(self.s6_addr[14], self.s6_addr[15]),
        ]
    }
}

impl PartialEq for Ipv6Addr {
    fn eq(&self, other: &Ipv6Addr) -> (r: bool) {
        let mut i: usize = 0;
        while i < 16
            invariant
                i <= 16,
                forall|j: int| 0 <= j < i ==> self.s6_addr@[j] == other.s6_addr@[j],
            decreases 16 - i,
        {
            if self.s6_addr[i] != other.s6_addr[i] {
                return false;
            }
            i = i + 1;
        }
        true
    }
}

impl Eq for Ipv6Addr {

}

impl vstd::std_specs::cmp::PartialEqSpecImpl for Ipv6Addr {
    open spec fn obeys_eq_spec() -> bool {
        true
    }

    open spec fn eq_spec(&self, other: &Ipv6Addr) -> bool {
        self.s6_addr@ =~= other.s6_addr@
    }
}

/// An IP host address of either internet family, without a port.
#[derive(Clone, Copy, Debug)]
pub enum IpAddr {
    V4(Ipv4Addr),
    V6(Ipv6Addr),
}

impl IpAddr {
    /// The IPv4 address `a.b.c.d`, wrapped as a family-agnostic address.
    pub fn new_v4(a: u8, b: u8, c: u8, d: u8) -> (r: IpAddr)
        ensures
            r matches IpAddr::V4(v) && v.s_addr@ =~= seq![a, b, c, d],
    {
        IpAddr::V4(Ipv4Addr::new(a, b, c, d))
    }

    /// The IPv6 address `a:b:c:d:e:f:g:h`, wrapped as a family-agnostic
    /// address.
    pub fn new_v6(a: u16, b: u16, c: u16, d: u16, e: u16, f: u16, g: u16, h: u16) -> (r: IpAddr)
        ensures
            r matches IpAddr::V6(v) && v.spec_segments() =~= seq![a, b, c, d, e, f, g, h],
    {
        IpAddr::V6(Ipv6Addr::new(a, b, c, d, e, f, g, h))
    }
}

impl IpAddr {
    /// The textual rendering of the active variant.
    pub open spec fn spec_str(self) -> Seq<char> {
        match self {
            IpAddr::V4(a) => a.spec_str(),
            IpAddr::V6(a) => a.spec_str(),
        }
    }

    /// Render the active variant's address.
    pub fn to_str(&self) -> (r: String)
        ensures
            r@ == self.spec_str(),
    {
        match self {
            IpAddr::V4(a) => a.to_str(),
            IpAddr::V6(a) => a.to_str(),
        }
    }
}

impl PartialEq for IpAddr {
    fn eq(&self, other: &IpAddr) -> (r: bool) {
        match (self, other) {
            (IpAddr::V4(a), IpAddr::V4(b)) => a == b,
            (IpAddr::V6(a), IpAddr::V6(b)) => a == b,
            _ => false,
        }
    }
}

impl Eq for IpAddr {

}

impl vstd::std_specs::cmp::PartialEqSpecImpl for IpAddr {
    open spec fn obeys_eq_spec() -> bool {
        true
    }

    open spec fn eq_spec(&self, other: &IpAddr) -> bool {
        match (self, other) {
            (IpAddr::V4(a), IpAddr::V4(b)) => a.s_addr@ =~= b.s_addr@,
            (IpAddr::V6(a), IpAddr::V6(b)) => a.s6_addr@ =~= b.s6_addr@,
            _ => false,
        }
    }
}

} // verus!
