//! Kernel-routing (netlink) addresses.
//!
//! A netlink endpoint is identified by a port (usually a process id) and a
//! 32-bit multicast-group mask, both in host order.

use vstd::prelude::*;
use vstd::string::StringExecFns;

use crate::text::append_dec;
use crate::text::spec_dec;

verus! {

/// A netlink socket address.
#[derive(Clone, Copy, Debug, Hash, PartialEq, Eq, Structural)]
pub struct NetlinkAddr {
    /// Port identifier: the process id for a unicast address, zero for the
    /// kernel.
    pub nl_pid: u32,
    /// Multicast group mask.
    pub nl_groups: u32,
}

impl NetlinkAddr {
    /// The address of netlink port `pid` with multicast groups `groups`.
    pub fn new(pid: u32, groups: u32) -> (r: NetlinkAddr)
        ensures
            r.nl_pid == pid,
            r.nl_groups == groups,
    {
        NetlinkAddr { nl_pid: pid, nl_groups: groups }
    }

    /// The port identifier.
    pub fn pid(&self) -> (r: u32)
        ensures
            r == self.nl_pid,
    {
        self.nl_pid
    }

    /// The multicast group mask.
    pub fn groups(&self) -> (r: u32)
        ensures
            r == self.nl_groups,
    {
        self.nl_groups
    }

    /// The textual rendering of this address.
    pub open spec fn spec_str(self) -> Seq<char> {
        "pid: "@ + spec_dec(self.nl_pid as int) + " groups: "@ + spec_dec(self.nl_groups as int)
    }

    /// Render this address as text.
    pub fn to_str(&self) -> (r: String)
        ensures
            r@ == self.spec_str(),
    {
        let mut s = String::new();
        s.append("pid: ");
        append_dec(&mut s, self.nl_pid);
        s.append(" groups: ");
        append_dec(&mut s, self.nl_groups);
        assert(s@ =~= self.spec_str());
        s
    }
}

} // verus!
