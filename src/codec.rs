//! Reading and writing one encoded integer.

use vstd::prelude::*;
use crate::buffers::{
    copy_to_slice,
    get_u8,
    limit_left,
    put_u16,
    put_u32,
    put_u64,
    put_u8,
    read_u16,
    read_u32,
    read_u64,
    remaining,
    remaining_mut,
    room,
    unread,
    written,
};
use crate::wire::{
    decoding,
    encoding,
    spec_size,
    EIGHT_OCTETS_MAX,
    FOUR_OCTETS_MAX,
    ONE_OCTET_MAX,
    TWO_OCTETS_MAX,
};

verus! {

/// What the cursor holds after `read`: past the encoding on success; past
/// the first octet, if there was one, on failure.
pub open spec fn unread_after_read(before: Seq<u8>) -> Seq<u8> {
    match decoding(before) {
        Some((_, n)) => before.skip(n as int),
        None => if before.len() == 0 {
            before
        } else {
            before.skip(1)
        },
    }
}

/// Reads one encoded integer from the front of `r`. `None` where `r` is
/// empty or holds fewer octets than the first octet's tag announces.
pub fn read(r: &mut bytes::Bytes) -> (v: Option<u64>)
    ensures
        v == (match decoding(unread(*old(r))) {
            Some((x, _)) => Some(x),
            None => None,
        }),
        unread(*final(r)) == unread_after_read(unread(*old(r))),
{
    let ghost s = unread(*r);
    if remaining(r) == 0 {
        return None;
    }
    let first = get_u8(r);
    let tag = first >> 6u8;
    let high = first & 0x3fu8;
    assert(tag <= 3) by (bit_vector)
        requires
            tag == first >> 6u8,
    ;
    let mut buf: [u8; 8] = [high, 0, 0, 0, 0, 0, 0, 0];
    if tag == 0 {
        Some(high as u64)
    } else if tag == 1 {
        if remaining(r) < 1 {
            return None;
        }
        copy_to_slice(r, &mut buf, 1, 2);
        assert(buf[1] == s[1]);
        Some(read_u16(&buf) as u64)
    } else if tag == 2 {
        if remaining(r) < 3 {
            return None;
        }
        copy_to_slice(r, &mut buf, 1, 4);
        assert(buf[1] == s[1] && buf[2] == s[2] && buf[3] == s[3]);
        Some(read_u32(&buf) as u64)
    } else {
        if remaining(r) < 7 {
            return None;
        }
        copy_to_slice(r, &mut buf, 1, 8);
        assert(buf[1] == s[1] && buf[2] == s[2] && buf[3] == s[3] && buf[4] == s[4]);
        assert(buf[5] == s[5] && buf[6] == s[6] && buf[7] == s[7]);
        assert(s.skip(1).skip(7) =~= s.skip(8));
        Some(read_u64(&buf))
    }
}

/// Why `write` could not encode a value.
#[derive(Debug, Copy, Clone, Eq, PartialEq, Structural)]
pub enum WriteError {
    /// The sink has room for fewer octets than the encoding needs.
    InsufficientSpace,
    /// The value is 2^62 or more and has no encoding.
    OversizedValue,
}

impl WriteError {
    /// A short description of the failure, for messages.
    pub fn message(&self) -> (r: &'static str)
        ensures
            *self == WriteError::InsufficientSpace ==> r@ == "insufficient space to encode value"@,
            *self == WriteError::OversizedValue ==> r@ == "value too large for varint encoding"@,
    {
        match self {
            WriteError::InsufficientSpace => "insufficient space to encode value",
            WriteError::OversizedValue => "value too large for varint encoding",
        }
    }
}

/// Writes the shortest encoding of `x` to `w`. Fails, leaving `w` as it was,
/// with `OversizedValue` where `x` is 2^62 or more, and with
/// `InsufficientSpace` where `w` has room for fewer octets than the encoding.
pub fn write(x: u64, w: &mut bytes::buf::Limit<bytes::BytesMut>) -> (r: Result<(), WriteError>)
    ensures
        match spec_size(x) {
            None => r == Err::<(), WriteError>(WriteError::OversizedValue) && *final(w) == *old(w),
            Some(n) => if room(*old(w)) < n {
                r == Err::<(), WriteError>(WriteError::InsufficientSpace) && *final(w) == *old(w)
            } else {
                &&& r == Ok::<(), WriteError>(())
                &&& written(*final(w)) == written(*old(w)) + encoding(x)
                &&& limit_left(*final(w)) == limit_left(*old(w)) - n
            },
        },
{
    if x <= ONE_OCTET_MAX {
        if remaining_mut(w) < 1 {
            return Err(WriteError::InsufficientSpace);
        }
        put_u8(w, x as u8);
    } else if x <= TWO_OCTETS_MAX {
        if remaining_mut(w) < 2 {
            return Err(WriteError::InsufficientSpace);
        }
        let tagged = 0x4000u16 | x as u16;
        assert(seq![(tagged >> 8u16) as u8, tagged as u8] =~= encoding(x)) by {
            assert((tagged >> 8u16) as u8 == ((x >> 8u64) as u8) | 0x40u8 && tagged as u8
                == x as u8) by (bit_vector)
                requires
                    tagged == 0x4000u16 | x as u16,
                    x <= 16383,
            ;
        }
        put_u16(w, tagged);
    } else if x <= FOUR_OCTETS_MAX {
        if remaining_mut(w) < 4 {
            return Err(WriteError::InsufficientSpace);
        }
        let tagged = 0x8000_0000u32 | x as u32;
        assert(seq![
            (tagged >> 24u32) as u8,
            (tagged >> 16u32) as u8,
            (tagged >> 8u32) as u8,
            tagged as u8,
        ] =~= encoding(x)) by {
            assert((tagged >> 24u32) as u8 == ((x >> 24u64) as u8) | 0x80u8 && (tagged
                >> 16u32) as u8 == (x >> 16u64) as u8 && (tagged >> 8u32) as u8 == (x
                >> 8u64) as u8 && tagged as u8 == x as u8) by (bit_vector)
                requires
                    tagged == 0x8000_0000u32 | x as u32,
                    x <= 1_073_741_823,
            ;
        }
        put_u32(w, tagged);
    } else if x <= EIGHT_OCTETS_MAX {
        if remaining_mut(w) < 8 {
            return Err(WriteError::InsufficientSpace);
        }
        let tagged = 0xc000_0000_0000_0000u64 | x;
        assert(seq![
            (tagged >> 56u64) as u8,
            (tagged >> 48u64) as u8,
            (tagged >> 40u64) as u8,
            (tagged >> 32u64) as u8,
            (tagged >> 24u64) as u8,
            (tagged >> 16u64) as u8,
            (tagged >> 8u64) as u8,
            tagged as u8,
        ] =~= encoding(x)) by {
            assert((tagged >> 56u64) as u8 == ((x >> 56u64) as u8) | 0xc0u8 && (tagged
                >> 48u64) as u8 == (x >> 48u64) as u8 && (tagged >> 40u64) as u8 == (x
                >> 40u64) as u8 && (tagged >> 32u64) as u8 == (x >> 32u64) as u8 && (tagged
                >> 24u64) as u8 == (x >> 24u64) as u8 && (tagged >> 16u64) as u8 == (x
                >> 16u64) as u8 && (tagged >> 8u64) as u8 == (x >> 8u64) as u8 && tagged as u8
                == x as u8) by (bit_vector)
                requires
                    tagged == 0xc000_0000_0000_0000u64 | x,
            ;
        }
        put_u64(w, tagged);
    } else {
        return Err(WriteError::OversizedValue);
    }
    Ok(())
}

} // verus!
