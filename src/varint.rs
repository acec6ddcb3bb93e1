//! An integer that is known to have an encoding.

use vstd::prelude::*;
use crate::buffers::{limit_left, room, unread, written};
use crate::codec::{read, unread_after_read, WriteError};
use crate::wire::{decoded_in_range, decoding, encoding, size, spec_size, EIGHT_OCTETS_MAX};

verus! {

/// An unsigned integer below 2^62, the range that the wire format can carry.
#[derive(Clone, Copy, Debug, Eq, Ord, PartialEq, PartialOrd, Hash, Structural)]
pub struct VarInt(u64);

/// A value that is 2^62 or more was offered where a `VarInt` is needed.
#[derive(Clone, Copy, Debug, Eq, PartialEq, Structural)]
pub struct VarIntBoundsExceeded;

impl View for VarInt {
    type V = u64;

    closed spec fn view(&self) -> u64 {
        self.0
    }
}

impl VarInt {
    #[verifier::type_invariant]
    spec fn in_range(self) -> bool {
        self.0 <= EIGHT_OCTETS_MAX
    }

    /// The value of `n`, where `n` is below 2^62.
    pub fn from_u64(n: u64) -> (r: Result<VarInt, VarIntBoundsExceeded>)
        ensures
            n <= EIGHT_OCTETS_MAX ==> (r matches Ok(v) && v@ == n),
            n > EIGHT_OCTETS_MAX ==> r == Err::<VarInt, VarIntBoundsExceeded>(VarIntBoundsExceeded),
    {
        if n <= EIGHT_OCTETS_MAX {
            Ok(VarInt(n))
        } else {
            Err(VarIntBoundsExceeded)
        }
    }

    /// The value of `n`, where `n` is below 2^62.
    pub fn from_usize(n: usize) -> (r: Result<VarInt, VarIntBoundsExceeded>)
        ensures
            n <= EIGHT_OCTETS_MAX ==> (r matches Ok(v) && v@ == n),
            n > EIGHT_OCTETS_MAX ==> r == Err::<VarInt, VarIntBoundsExceeded>(VarIntBoundsExceeded),
    {
        VarInt::from_u64(n as u64)
    }

    /// The value, as a `u64`; it is always below 2^62.
    pub fn into_inner(self) -> (r: u64)
        ensures
            r == self@,
            r <= EIGHT_OCTETS_MAX,
    {
        proof {
            use_type_invariant(&self);
        }
        self.0
    }

    /// The value, as a `usize`, on a target where it fits.
    pub fn to_usize(self) -> (r: usize)
        requires
            self@ <= usize::MAX,
        ensures
            r == self@,
    {
        self.0 as usize
    }

    /// Octet count of the shortest encoding: 1, 2, 4 or 8.
    pub fn size(&self) -> (r: usize)
        ensures
            spec_size(self@) == Some(r),
    {
        proof {
            use_type_invariant(self);
        }
        match size(self.0) {
            Some(n) => n,
            None => 8,
        }
    }

    /// The sum, where it is below 2^62.
    pub fn checked_add(self, rhs: VarInt) -> (r: Result<VarInt, VarIntBoundsExceeded>)
        ensures
            self@ + rhs@ <= EIGHT_OCTETS_MAX ==> (r matches Ok(v) && v@ == self@ + rhs@),
            self@ + rhs@ > EIGHT_OCTETS_MAX ==> r == Err::<VarInt, VarIntBoundsExceeded>(
                VarIntBoundsExceeded,
            ),
    {
        proof {
            use_type_invariant(&self);
            use_type_invariant(&rhs);
        }
        VarInt::from_u64(self.0 + rhs.0)
    }

    /// Reads one encoded integer from the front of `r`, as `read` does.
    pub fn decode(r: &mut bytes::Bytes) -> (v: Option<VarInt>)
        ensures
            match decoding(unread(*old(r))) {
                Some((x, _)) => v matches Some(d) && d@ == x,
                None => v is None,
            },
            unread(*final(r)) == unread_after_read(unread(*old(r))),
    {
        proof {
            decoded_in_range(unread(*r));
        }
        match read(r) {
            Some(x) => Some(VarInt(x)),
            None => None,
        }
    }

    /// Writes the shortest encoding of this value to `w`, as `write` does;
    /// fails only for want of room, leaving `w` as it was.
    pub fn encode(&self, w: &mut bytes::buf::Limit<bytes::BytesMut>) -> (r: Result<
        (),
        WriteError,
    >)
        ensures
            spec_size(self@) matches Some(n) && if room(*old(w)) < n {
                r == Err::<(), WriteError>(WriteError::InsufficientSpace) && *final(w) == *old(w)
            } else {
                &&& r == Ok::<(), WriteError>(())
                &&& written(*final(w)) == written(*old(w)) + encoding(self@)
                &&& limit_left(*final(w)) == limit_left(*old(w)) - n
            },
    {
        proof {
            use_type_invariant(self);
        }
        crate::codec::write(self.0, w)
    }

    /// A length plus this value, as a length: for layout arithmetic where an
    /// encoded field's value counts octets.
    pub fn add_len(self, len: usize) -> (r: usize)
        requires
            self@ + len <= usize::MAX,
        ensures
            r == self@ + len,
    {
        self.0 as usize + len
    }
}

impl From<u8> for VarInt {
    fn from(n: u8) -> (r: VarInt) {
        let r = VarInt(n as u64);
        assert(r@ == n as u64);
        r
    }
}

impl vstd::std_specs::convert::FromSpecImpl<u8> for VarInt {
    open spec fn obeys_from_spec() -> bool {
        true
    }

    open spec fn from_spec(n: u8) -> VarInt {
        choose|v: VarInt| v@ == n as u64
    }
}

impl From<u16> for VarInt {
    fn from(n: u16) -> (r: VarInt) {
        let r = VarInt(n as u64);
        assert(r@ == n as u64);
        r
    }
}

impl vstd::std_specs::convert::FromSpecImpl<u16> for VarInt {
    open spec fn obeys_from_spec() -> bool {
        true
    }

    open spec fn from_spec(n: u16) -> VarInt {
        choose|v: VarInt| v@ == n as u64
    }
}

impl From<u32> for VarInt {
    fn from(n: u32) -> (r: VarInt) {
        let r = VarInt(n as u64);
        assert(r@ == n as u64);
        r
    }
}

impl vstd::std_specs::convert::FromSpecImpl<u32> for VarInt {
    open spec fn obeys_from_spec() -> bool {
        true
    }

    open spec fn from_spec(n: u32) -> VarInt {
        choose|v: VarInt| v@ == n as u64
    }
}

impl From<VarInt> for u64 {
    fn from(v: VarInt) -> (r: u64) {
        v.0
    }
}

impl vstd::std_specs::convert::FromSpecImpl<VarInt> for u64 {
    open spec fn obeys_from_spec() -> bool {
        true
    }

    open spec fn from_spec(v: VarInt) -> u64 {
        v@
    }
}

} // verus!
