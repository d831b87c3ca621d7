//! System-control addresses: the Apple kernel-control endpoint shape.
//!
//! A system-control endpoint is identified by a 32-bit control id and a unit.
//! Resolving a control *name* to its id takes an out-of-band query against a
//! caller-owned control socket; this module only shapes that request — the
//! zero-padded fixed-capacity name buffer — and checks the name against the
//! buffer's capacity.  The caller performs the query and hands the resolved id
//! back.

use vstd::prelude::*;

use vstd::string::StringExecFns;

use crate::AddrError;
use crate::buf::push_range;
use crate::text::append_dec;
use crate::text::spec_dec;
use crate::buf::push_zeros;
use crate::buf::zeros;

verus! {

/// Capacity of the control-name buffer of the lookup request.
pub const MAX_KCTL_NAME: usize = 96;

/// A system-control socket address.
#[derive(Clone, Copy, Debug, Hash, PartialEq, Eq, Structural)]
pub struct SysControlAddr {
    /// Control identifier, as resolved from the control's name.
    pub sc_id: u32,
    /// Unit number distinguishing instances of one control.
    pub sc_unit: u32,
}

impl SysControlAddr {
    /// The address of control `id`, unit `unit`.
    pub fn new(id: u32, unit: u32) -> (r: SysControlAddr)
        ensures
            r.sc_id == id,
            r.sc_unit == unit,
    {
        SysControlAddr { sc_id: id, sc_unit: unit }
    }

    /// The address of the control whose name the caller has resolved to
    /// `ctl_id` (by the out-of-band query built with `control_name_request`),
    /// at unit `unit`.  Rejects the same oversize names the request builder
    /// rejects, so the two agree on every input.
    pub fn from_name(name: &[u8], ctl_id: u32, unit: u32) -> (r: Result<SysControlAddr, AddrError>)
        ensures
            name@.len() > MAX_KCTL_NAME ==> (r matches Err(e) && e == AddrError::NameTooLong),
            name@.len() <= MAX_KCTL_NAME ==> (r matches Ok(a) && a.sc_id == ctl_id && a.sc_unit
                == unit),
    {
        if name.len() > MAX_KCTL_NAME {
            return Err(AddrError::NameTooLong);
        }
        Ok(SysControlAddr::new(ctl_id, unit))
    }

    /// The control identifier.
    pub fn id(&self) -> (r: u32)
        ensures
            r == self.sc_id,
    {
        self.sc_id
    }

    /// The unit number.
    pub fn unit(&self) -> (r: u32)
        ensures
            r == self.sc_unit,
    {
        self.sc_unit
    }

    /// The textual rendering of this address.
    pub open spec fn spec_str(self) -> Seq<char> {
        "id: "@ + spec_dec(self.sc_id as int) + " unit: "@ + spec_dec(self.sc_unit as int)
    }

    /// Render this address as text.
    pub fn to_str(&self) -> (r: String)
        ensures
            r@ == self.spec_str(),
    {
        let mut s = String::new();
        s.append("id: ");
        append_dec(&mut s, self.sc_id);
        s.append(" unit: ");
        append_dec(&mut s, self.sc_unit);
        assert(s@ =~= self.spec_str());
        s
    }
}

/// The name buffer of a control-name lookup request: the name's bytes padded
/// with zeros to the buffer's fixed capacity.  A name that does not fit is
/// rejected whole — never truncated — with the "name too long" error.
pub fn control_name_request(name: &[u8]) -> (r: Result<Vec<u8>, AddrError>)
    ensures
        name@.len() > MAX_KCTL_NAME ==> (r matches Err(e) && e == AddrError::NameTooLong),
        name@.len() <= MAX_KCTL_NAME ==> (r matches Ok(v) && v@ =~= name@ + zeros(
            MAX_KCTL_NAME - name@.len(),
        )),
{
    let name_vec = vstd::slice::slice_to_vec(name);
    if name_vec.len() > MAX_KCTL_NAME {
        return Err(AddrError::NameTooLong);
    }
    let n = name_vec.len();
    let mut buf: Vec<u8> = Vec::new();
    push_range(&mut buf, &name_vec, 0, n);
    assert(name_vec@.subrange(0, n as int) =~= name@);
    push_zeros(&mut buf, MAX_KCTL_NAME - n);
    assert(buf@ =~= name@ + zeros(MAX_KCTL_NAME - n));
    Ok(buf)
}

} // verus!
