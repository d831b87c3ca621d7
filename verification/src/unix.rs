//! Unix-domain (local IPC) addresses.
//!
//! A Unix address is a fixed-capacity path buffer plus an explicit used
//! length, because the kernel does not promise a terminating null: unnamed
//! and Linux abstract sockets are never null-terminated, and POSIX lets a
//! filesystem path fill the buffer exactly.  Three logical modes follow from
//! `(used length, first byte)` alone: *unnamed* (used length zero),
//! *abstract* (first byte zero, Linux's no-filesystem namespace), and
//! *filesystem path* (first byte nonzero).  Every derived operation bounds
//! itself by the used length, never by scanning the full capacity.

use vstd::prelude::*;

use vstd::string::StringExecFns;
use vstd::utf8::decode_utf8;
use vstd::utf8::valid_utf8;

use crate::AddrError;
use crate::buf::copy_range;
use crate::buf::push_zeros;
use crate::buf::zeros;
use crate::text::lossy_utf8;

verus! {

/// Capacity of the path buffer of the kernel's Unix address structure.
pub const SUN_PATH_LEN: usize = 108;

/// A Unix-domain socket address: the kernel's fixed path buffer together with
/// the number of bytes of it that are meaningful (a terminating null, if the
/// path has one, not included).
#[derive(Clone, Debug)]
pub struct UnixAddr {
    /// The path buffer, always exactly `SUN_PATH_LEN` bytes.
    pub sun_path: Vec<u8>,
    /// How many leading bytes of `sun_path` are meaningful.
    pub path_len: usize,
}

impl UnixAddr {
    /// The buffer has its fixed capacity and the used length lies within it.
    pub open spec fn wf(self) -> bool {
        &&& self.sun_path@.len() == SUN_PATH_LEN
        &&& self.path_len <= SUN_PATH_LEN
    }

    /// The meaningful bytes: the used-length-bounded prefix of the buffer
    /// (clamped to the buffer, so that it is defined for every value).
    pub open spec fn used_bytes(self) -> Seq<u8> {
        let n = if self.path_len as int <= self.sun_path@.len() {
            self.path_len as int
        } else {
            self.sun_path@.len() as int
        };
        self.sun_path@.subrange(0, n)
    }

    /// Unnamed: no meaningful bytes at all.
    pub open spec fn is_unnamed(self) -> bool {
        self.path_len == 0
    }

    /// Abstract namespace: meaningful bytes led by a zero byte.
    pub open spec fn is_abstract(self) -> bool {
        self.path_len > 0 && self.sun_path@[0] == 0
    }

    /// Filesystem path: meaningful bytes led by a nonzero byte.
    pub open spec fn is_path(self) -> bool {
        self.path_len > 0 && self.sun_path@[0] != 0
    }

    /// `k` is the effective length of the path: the distance to the first
    /// embedded null within the used region, or the whole used region when no
    /// null occurs in it.  Exactly one `k` satisfies this.
    pub open spec fn is_path_eff_len(self, k: int) -> bool {
        &&& 0 <= k <= self.path_len
        &&& forall|j: int| 0 <= j < k ==> self.sun_path@[j] != 0
        &&& k == self.path_len || self.sun_path@[k] == 0
    }

    /// Build the address of a filesystem path.  The bytes are copied verbatim
    /// — no terminator is added — and the used length records exactly the
    /// path's length.  A path longer than the buffer is rejected whole; no
    /// partial write happens.
    pub fn new(path: &[u8]) -> (r: Result<UnixAddr, AddrError>)
        ensures
            path@.len() > SUN_PATH_LEN ==> (r matches Err(e) && e == AddrError::NameTooLong),
            path@.len() <= SUN_PATH_LEN ==> (r matches Ok(u) && u.wf() && u.path_len
                == path@.len() && u.sun_path@ =~= path@ + zeros(SUN_PATH_LEN - path@.len())),
    {
        let mut bytes = vstd::slice::slice_to_vec(path);
        if bytes.len() > SUN_PATH_LEN {
            return Err(AddrError::NameTooLong);
        }
        let n = bytes.len();
        push_zeros(&mut bytes, SUN_PATH_LEN - n);
        Ok(UnixAddr { sun_path: bytes, path_len: n })
    }

    /// Build an address in the abstract namespace (no filesystem backing).
    /// The leading zero byte that marks the namespace is added here; `name`
    /// is the bare name.  A name that cannot fit together with that marker is
    /// rejected whole.
    pub fn new_abstract(name: &[u8]) -> (r: Result<UnixAddr, AddrError>)
        ensures
            path_len_of_abstract(name@.len() as int) > SUN_PATH_LEN ==> (r matches Err(e) && e
                == AddrError::NameTooLong),
            path_len_of_abstract(name@.len() as int) <= SUN_PATH_LEN ==> (r matches Ok(u)
                && u.wf() && u.path_len == name@.len() + 1 && u.sun_path@ =~= seq![0u8] + name@
                + zeros(SUN_PATH_LEN - name@.len() - 1)),
    {
        let name_vec = vstd::slice::slice_to_vec(name);
        if name_vec.len() >= SUN_PATH_LEN {
            return Err(AddrError::NameTooLong);
        }
        let n = name_vec.len();
        let mut bytes: Vec<u8> = Vec::new();
        bytes.push(0u8);
        crate::buf::push_range(&mut bytes, &name_vec, 0, n);
        assert(name_vec@.subrange(0, n as int) =~= name@);
        push_zeros(&mut bytes, SUN_PATH_LEN - 1 - n);
        assert(bytes@ =~= seq![0u8] + name@ + zeros(SUN_PATH_LEN - n - 1));
        Ok(UnixAddr { sun_path: bytes, path_len: n + 1 })
    }

    /// If this address is a filesystem path, the path's bytes: the prefix of
    /// the used region up to its first embedded null, or the whole used
    /// region when none occurs — never a byte beyond the used length, whether
    /// or not a null terminator exists.  Nothing for unnamed and abstract
    /// addresses.
    pub fn path(&self) -> (r: Option<Vec<u8>>)
        requires
            self.wf(),
        ensures
            self.is_path() <==> r is Some,
            r matches Some(v) ==> self.is_path_eff_len(v@.len() as int) && v@
                =~= self.sun_path@.subrange(0, v@.len() as int) && v@.len() == first_nul(
                self.sun_path@,
                0,
                self.path_len as int,
            ),
    {
        if self.path_len == 0 || self.sun_path[0] == 0 {
            return None;
        }
        let mut i: usize = 0;
        while i < self.path_len && self.sun_path[i] != 0
            invariant
                self.wf(),
                i <= self.path_len,
                forall|j: int| 0 <= j < i ==> self.sun_path@[j] != 0,
                first_nul(self.sun_path@, 0, self.path_len as int) == first_nul(
                    self.sun_path@,
                    i as int,
                    self.path_len as int,
                ),
            decreases self.path_len - i,
        {
            i = i + 1;
        }
        Some(copy_range(&self.sun_path, 0, i))
    }

    /// The bytes of the filesystem path this address holds: the used region
    /// cut at its first embedded null.
    pub open spec fn spec_path_bytes(self) -> Seq<u8> {
        self.sun_path@.subrange(0, first_nul(self.sun_path@, 0, self.path_len as int))
    }

    /// The bytes of the abstract name this address holds: the used region
    /// with the leading zero marker stripped.
    pub open spec fn spec_abstract_bytes(self) -> Seq<u8> {
        self.sun_path@.subrange(1, self.path_len as int)
    }

    /// Render this address as text: the fixed marker for an unnamed address;
    /// the path's bytes as characters for a filesystem address; `@` followed
    /// by the name's bytes as characters for an abstract address.  Path and
    /// name bytes are decoded from UTF-8, lossily (the namespace allows
    /// arbitrary bytes).
    pub fn to_str(&self) -> (r: String)
        requires
            self.wf(),
        ensures
            self.is_unnamed() ==> r@ == "<unbound UNIX socket>"@,
            self.is_path() && valid_utf8(self.spec_path_bytes()) ==> r@ == decode_utf8(
                self.spec_path_bytes(),
            ),
            self.is_abstract() && valid_utf8(self.spec_abstract_bytes()) ==> r@ == ("@")@
                + decode_utf8(self.spec_abstract_bytes()),
    {
        if self.path_len == 0 {
            return String::from_str("<unbound UNIX socket>");
        }
        match self.path() {
            Some(p) => lossy_utf8(&p),
            None => {
                match self.as_abstract() {
                    Some(name) => {
                        let t = lossy_utf8(&name);
                        let mut s = String::from_str("@");
                        s.append(t.as_str());
                        assert(self.is_abstract() && valid_utf8(self.spec_abstract_bytes())
                            ==> s@ =~= ("@")@ + decode_utf8(self.spec_abstract_bytes()));
                        s
                    },
                    // An address with meaningful bytes is a path or abstract;
                    // `path` returned nothing, so `as_abstract` cannot.
                    None => vstd::pervasive::unreached(),
                }
            },
        }
    }

    /// If this address lives in the abstract namespace, its bare name: the
    /// used region with the leading zero marker stripped.  Nothing for
    /// unnamed and path addresses.
    pub fn as_abstract(&self) -> (r: Option<Vec<u8>>)
        requires
            self.wf(),
        ensures
            self.is_abstract() <==> r is Some,
            r matches Some(v) ==> v@ =~= self.sun_path@.subrange(1, self.path_len as int),
    {
        if self.path_len >= 1 && self.sun_path[0] == 0 {
            Some(copy_range(&self.sun_path, 1, self.path_len))
        } else {
            None
        }
    }
}

/// The used length an abstract name occupies: the name plus its leading zero
/// marker.
pub open spec fn path_len_of_abstract(name_len: int) -> int {
    name_len + 1
}

/// The index of the first zero byte of `s` at or after `i` and before `end`,
/// or `end` itself when no zero byte occurs there.
pub open spec fn first_nul(s: Seq<u8>, i: int, end: int) -> int
    decreases end - i,
{
    if i < 0 || i >= end {
        end
    } else if s[i] == 0 {
        i
    } else {
        first_nul(s, i + 1, end)
    }
}

/// The first zero byte lies between the scan's start and its end.
pub proof fn lemma_first_nul_bounds(s: Seq<u8>, i: int, end: int)
    requires
        0 <= i <= end,
    ensures
        i <= first_nul(s, i, end) <= end,
    decreases end - i,
{
    if i < end && s[i] != 0 {
        lemma_first_nul_bounds(s, i + 1, end);
    }
}

impl PartialEq for UnixAddr {
    fn eq(&self, other: &UnixAddr) -> (r: bool) {
        let m1 = if self.path_len <= self.sun_path.len() {
            self.path_len
        } else {
            self.sun_path.len()
        };
        let m2 = if other.path_len <= other.sun_path.len() {
            other.path_len
        } else {
            other.sun_path.len()
        };
        if m1 != m2 {
            proof {
                assert(self.used_bytes().len() == m1);
                assert(other.used_bytes().len() == m2);
                assert(!(self.used_bytes() =~= other.used_bytes()));
            }
            return false;
        }
        let mut i: usize = 0;
        while i < m1
            invariant
                m1 <= self.sun_path@.len(),
                m1 == m2 <= other.sun_path@.len(),
                m1 == self.used_bytes().len(),
                m2 == other.used_bytes().len(),
                i <= m1,
                forall|j: int| 0 <= j < i ==> self.sun_path@[j] == other.sun_path@[j],
            decreases m1 - i,
        {
            if self.sun_path[i] != other.sun_path[i] {
                proof {
                    assert(self.used_bytes()[i as int] != other.used_bytes()[i as int]);
                    assert(!(self.used_bytes() =~= other.used_bytes()));
                }
                return false;
            }
            i = i + 1;
        }
        proof {
            assert(self.used_bytes() =~= other.used_bytes()) by {
                assert(forall|j: int| 0 <= j < m1 ==> self.used_bytes()[j]
                    == other.used_bytes()[j]);
            }
        }
        true
    }
}

impl Eq for UnixAddr {

}

impl vstd::std_specs::cmp::PartialEqSpecImpl for UnixAddr {
    open spec fn obeys_eq_spec() -> bool {
        true
    }

    /// Equality of Unix addresses: the used-length-bounded byte prefix and
    /// nothing else, so trailing garbage in the unused buffer capacity never
    /// distinguishes two addresses.
    open spec fn eq_spec(&self, other: &UnixAddr) -> bool {
        self.used_bytes() =~= other.used_bytes()
    }
}

} // verus!
