//! Address families and their numeric codes.
//!
//! Each family tag maps to the numeric protocol-family constant of the Linux
//! socket ABI.  Encoding a tag to its code is total; decoding a code back to a
//! tag is deliberately partial: only the families whose address structures
//! this library understands are decoded, and every other code — valid but
//! unhandled families included — decodes to nothing, which callers must treat
//! as "unsupported", not "invalid".

use vstd::prelude::*;

verus! {

/// Protocol family code of local (Unix-domain) communication.
pub const AF_UNIX: i32 = 1;

/// Protocol family code of the IPv4 internet protocols.
pub const AF_INET: i32 = 2;

/// Protocol family code of the IPv6 internet protocols.
pub const AF_INET6: i32 = 10;

/// Protocol family code of the kernel user-interface device.
pub const AF_NETLINK: i32 = 16;

/// Protocol family code of the low-level packet interface.
pub const AF_PACKET: i32 = 17;

/// A protocol family tag, as used to pick the domain of a socket and to label
/// the address structures the kernel exchanges.
#[derive(Clone, Copy, Debug, Hash, PartialEq, Eq, Structural)]
pub enum AddressFamily {
    /// Local communication.
    Unix,
    /// IPv4 internet protocols.
    Inet,
    /// IPv6 internet protocols.
    Inet6,
    /// Kernel user-interface device.
    Netlink,
    /// Low-level packet interface.
    Packet,
    /// Amateur radio AX.25 protocol.
    Ax25,
    /// IPX - Novell protocols.
    Ipx,
    /// AppleTalk.
    AppleTalk,
    NetRom,
    Bridge,
    /// Access to raw ATM PVCs.
    AtmPvc,
    /// ITU-T X.25 / ISO-8208 protocol.
    X25,
    Rose,
    Decnet,
    NetBeui,
    Security,
    Key,
    Ash,
    Econet,
    AtmSvc,
    Rds,
    Sna,
    Irda,
    Pppox,
    Wanpipe,
    Llc,
    Ib,
    Mpls,
    Can,
    Tipc,
    Bluetooth,
    Iucv,
    RxRpc,
    Isdn,
    Phonet,
    Ieee802154,
    Caif,
    /// Interface to the kernel crypto API.
    Alg,
    Nfc,
    Vsock,
}

impl AddressFamily {
    /// The numeric protocol-family code of this tag.  Total: every tag has
    /// exactly one code.
    pub open spec fn spec_code(self) -> i32 {
        match self {
            AddressFamily::Unix => 1,
            AddressFamily::Inet => 2,
            AddressFamily::Ax25 => 3,
            AddressFamily::Ipx => 4,
            AddressFamily::AppleTalk => 5,
            AddressFamily::NetRom => 6,
            AddressFamily::Bridge => 7,
            AddressFamily::AtmPvc => 8,
            AddressFamily::X25 => 9,
            AddressFamily::Inet6 => 10,
            AddressFamily::Rose => 11,
            AddressFamily::Decnet => 12,
            AddressFamily::NetBeui => 13,
            AddressFamily::Security => 14,
            AddressFamily::Key => 15,
            AddressFamily::Netlink => 16,
            AddressFamily::Packet => 17,
            AddressFamily::Ash => 18,
            AddressFamily::Econet => 19,
            AddressFamily::AtmSvc => 20,
            AddressFamily::Rds => 21,
            AddressFamily::Sna => 22,
            AddressFamily::Irda => 23,
            AddressFamily::Pppox => 24,
            AddressFamily::Wanpipe => 25,
            AddressFamily::Llc => 26,
            AddressFamily::Ib => 27,
            AddressFamily::Mpls => 28,
            AddressFamily::Can => 29,
            AddressFamily::Tipc => 30,
            AddressFamily::Bluetooth => 31,
            AddressFamily::Iucv => 32,
            AddressFamily::RxRpc => 33,
            AddressFamily::Isdn => 34,
            AddressFamily::Phonet => 35,
            AddressFamily::Ieee802154 => 36,
            AddressFamily::Caif => 37,
            AddressFamily::Alg => 38,
            AddressFamily::Nfc => 39,
            AddressFamily::Vsock => 40,
        }
    }

    /// The tag a numeric family code decodes to, for the families whose
    /// address structures this library can interpret; anything else decodes
    /// to nothing.
    pub open spec fn spec_from_code(family: i32) -> Option<AddressFamily> {
        if family == AF_UNIX {
            Some(AddressFamily::Unix)
        } else if family == AF_INET {
            Some(AddressFamily::Inet)
        } else if family == AF_INET6 {
            Some(AddressFamily::Inet6)
        } else if family == AF_NETLINK {
            Some(AddressFamily::Netlink)
        } else if family == AF_PACKET {
            Some(AddressFamily::Packet)
        } else {
            None
        }
    }

    /// The numeric protocol-family code of this tag, as it appears in the
    /// family field of the kernel's address structures.
    pub fn to_i32(self) -> (r: i32)
        ensures
            r == self.spec_code(),
    {
        match self {
            AddressFamily::Unix => 1,
            AddressFamily::Inet => 2,
            AddressFamily::Ax25 => 3,
            AddressFamily::Ipx => 4,
            AddressFamily::AppleTalk => 5,
            AddressFamily::NetRom => 6,
            AddressFamily::Bridge => 7,
            AddressFamily::AtmPvc => 8,
            AddressFamily::X25 => 9,
            AddressFamily::Inet6 => 10,
            AddressFamily::Rose => 11,
            AddressFamily::Decnet => 12,
            AddressFamily::NetBeui => 13,
            AddressFamily::Security => 14,
            AddressFamily::Key => 15,
            AddressFamily::Netlink => 16,
            AddressFamily::Packet => 17,
            AddressFamily::Ash => 18,
            AddressFamily::Econet => 19,
            AddressFamily::AtmSvc => 20,
            AddressFamily::Rds => 21,
            AddressFamily::Sna => 22,
            AddressFamily::Irda => 23,
            AddressFamily::Pppox => 24,
            AddressFamily::Wanpipe => 25,
            AddressFamily::Llc => 26,
            AddressFamily::Ib => 27,
            AddressFamily::Mpls => 28,
            AddressFamily::Can => 29,
            AddressFamily::Tipc => 30,
            AddressFamily::Bluetooth => 31,
            AddressFamily::Iucv => 32,
            AddressFamily::RxRpc => 33,
            AddressFamily::Isdn => 34,
            AddressFamily::Phonet => 35,
            AddressFamily::Ieee802154 => 36,
            AddressFamily::Caif => 37,
            AddressFamily::Alg => 38,
            AddressFamily::Nfc => 39,
            AddressFamily::Vsock => 40,
        }
    }

    /// Decode a numeric family code, usually read from the family field of a
    /// kernel address structure.  Returns the tag for the families this
    /// library can interpret — Unix, the two internet families, netlink and
    /// packet — and `None` for every other code, unsupported and unknown
    /// alike.
    pub fn from_i32(family: i32) -> (r: Option<AddressFamily>)
        ensures
            r == AddressFamily::spec_from_code(family),
            r is Some ==> r->0.spec_code() == family,
    {
        match family {
            1 => Some(AddressFamily::Unix),
            2 => Some(AddressFamily::Inet),
            10 => Some(AddressFamily::Inet6),
            16 => Some(AddressFamily::Netlink),
            17 => Some(AddressFamily::Packet),
            _ => None,
        }
    }
}

/// Law: on the decodable subset, encoding and decoding are mutually inverse.
/// Whatever tag a decode produces encodes back to the very code it came from,
/// and each of the five decodable tags is recovered from its own code.
pub proof fn lemma_family_code_bijective(code: i32, f: AddressFamily)
    ensures
        AddressFamily::spec_from_code(code) matches Some(g) ==> g.spec_code() == code,
        AddressFamily::spec_from_code(f.spec_code()) is Some ==> AddressFamily::spec_from_code(
            f.spec_code(),
        ) == Some(f),
{
}

} // verus!
