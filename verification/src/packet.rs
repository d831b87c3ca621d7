//! Link-layer (packet) addresses.
//!
//! A packet endpoint names a protocol, an interface and a hardware address.
//! The hardware address is a length-prefixed byte field inside fixed storage:
//! `sll_halen` says how many of the `sll_addr` bytes are meaningful, and every
//! operation bounds itself by that declared length after checking it against
//! the storage capacity.

use vstd::prelude::*;
use vstd::string::StringExecFns;

use crate::text::append_dec;
use crate::text::spec_dec;

verus! {

/// Capacity of the hardware-address storage of the kernel's packet address
/// structure.
pub const SLL_ADDR_LEN: usize = 8;

/// A link-layer socket address.  `sll_protocol` is carried exactly as the
/// kernel stores it (network order on the wire); the remaining numeric fields
/// are in host order.
#[derive(Clone, Copy, Debug)]
pub struct PacketAddr {
    /// Protocol number, as stored in the kernel structure.
    pub sll_protocol: u16,
    /// Interface index.
    pub sll_ifindex: u32,
    /// Hardware-address type.
    pub sll_hatype: u16,
    /// Packet type.
    pub sll_pkttype: u8,
    /// How many leading bytes of `sll_addr` are meaningful.
    pub sll_halen: u8,
    /// Hardware-address storage, `SLL_ADDR_LEN` bytes.
    pub sll_addr: [u8; 8],
}

impl PacketAddr {
    /// The declared hardware-address length lies within the storage.
    pub open spec fn wf(self) -> bool {
        self.sll_halen as int <= SLL_ADDR_LEN
    }

    /// The meaningful hardware-address bytes: the declared-length prefix of
    /// the storage (clamped to the storage, so that it is defined for every
    /// value).
    pub open spec fn hw_addr(self) -> Seq<u8> {
        let n = if self.sll_halen as int <= self.sll_addr@.len() {
            self.sll_halen as int
        } else {
            self.sll_addr@.len() as int
        };
        self.sll_addr@.subrange(0, n)
    }

    /// The hardware address: the `sll_halen`-byte prefix of the storage.
    pub fn get_addr(&self) -> (r: Vec<u8>)
        requires
            self.wf(),
        ensures
            r@ =~= self.hw_addr(),
    {
        let n = self.sll_halen as usize;
        let mut r: Vec<u8> = Vec::new();
        let mut i: usize = 0;
        while i < n
            invariant
                n <= self.sll_addr@.len(),
                i <= n,
                r@ =~= self.sll_addr@.subrange(0, i as int),
            decreases n - i,
        {
            r.push(self.sll_addr[i]);
            i = i + 1;
            assert(r@ =~= self.sll_addr@.subrange(0, i as int));
        }
        r
    }
}

impl PacketAddr {
    /// The textual rendering of this address.
    pub open spec fn spec_str(self) -> Seq<char> {
        "protocol: "@ + spec_dec(self.sll_protocol as int) + " ifindex: "@ + spec_dec(
            self.sll_ifindex as int,
        ) + " hatype: "@ + spec_dec(self.sll_hatype as int) + " halen: "@ + spec_dec(
            self.sll_halen as int,
        )
    }

    /// Render this address as text.
    pub fn to_str(&self) -> (r: String)
        ensures
            r@ == self.spec_str(),
    {
        let mut s = String::new();
        s.append("protocol: ");
        append_dec(&mut s, self.sll_protocol as u32);
        s.append(" ifindex: ");
        append_dec(&mut s, self.sll_ifindex);
        s.append(" hatype: ");
        append_dec(&mut s, self.sll_hatype as u32);
        s.append(" halen: ");
        append_dec(&mut s, self.sll_halen as u32);
        assert(s@ =~= self.spec_str());
        s
    }
}

impl PartialEq for PacketAddr {
    fn eq(&self, other: &PacketAddr) -> (r: bool) {
        if self.sll_protocol != other.sll_protocol || self.sll_ifindex != other.sll_ifindex
            || self.sll_hatype != other.sll_hatype || self.sll_pkttype != other.sll_pkttype {
            return false;
        }
        let m1 = if (self.sll_halen as usize) <= self.sll_addr.len() {
            self.sll_halen as usize
        } else {
            self.sll_addr.len()
        };
        let m2 = if (other.sll_halen as usize) <= other.sll_addr.len() {
            other.sll_halen as usize
        } else {
            other.sll_addr.len()
        };
        if m1 != m2 {
            proof {
                assert(self.hw_addr().len() == m1);
                assert(other.hw_addr().len() == m2);
            }
            return false;
        }
        let mut i: usize = 0;
        while i < m1
            invariant
                m1 <= self.sll_addr@.len(),
                m1 == m2 <= other.sll_addr@.len(),
                m1 == self.hw_addr().len(),
                m2 == other.hw_addr().len(),
                i <= m1,
                forall|j: int| 0 <= j < i ==> self.sll_addr@[j] == other.sll_addr@[j],
            decreases m1 - i,
        {
            if self.sll_addr[i] != other.sll_addr[i] {
                proof {
                    assert(self.hw_addr()[i as int] != other.hw_addr()[i as int]);
                }
                return false;
            }
            i = i + 1;
        }
        true
    }
}

impl Eq for PacketAddr {

}

impl vstd::std_specs::cmp::PartialEqSpecImpl for PacketAddr {
    open spec fn obeys_eq_spec() -> bool {
        true
    }

    /// Equality of packet addresses: protocol, interface index, hardware type,
    /// packet type, and the length-bounded hardware-address bytes.
    open spec fn eq_spec(&self, other: &PacketAddr) -> bool {
        &&& self.sll_protocol == other.sll_protocol
        &&& self.sll_ifindex == other.sll_ifindex
        &&& self.sll_hatype == other.sll_hatype
        &&& self.sll_pkttype == other.sll_pkttype
        &&& self.hw_addr() =~= other.hw_addr()
    }
}

} // verus!
