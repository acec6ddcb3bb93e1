//! The wire format as mathematics, and the length classifier.
//!
//! first octet: [ tag:2 | value-high-bits:6 ], then the rest of the value in
//! big-endian order. Tag 00 is one octet (6 usable bits), 01 two (14), 10
//! four (30) and 11 eight (62).

use vstd::prelude::*;

verus! {

pub const ONE_OCTET_MAX: u64 = 63;
pub const TWO_OCTETS_MAX: u64 = 16383;
pub const FOUR_OCTETS_MAX: u64 = 1_073_741_823;
pub const EIGHT_OCTETS_MAX: u64 = 4_611_686_018_427_387_903;

/// Octet count of the shortest encoding of `x`, or `None` where `x` does not
/// fit in 62 bits.
pub open spec fn spec_size(x: u64) -> Option<usize> {
    if x <= ONE_OCTET_MAX {
        Some(1)
    } else if x <= TWO_OCTETS_MAX {
        Some(2)
    } else if x <= FOUR_OCTETS_MAX {
        Some(4)
    } else if x <= EIGHT_OCTETS_MAX {
        Some(8)
    } else {
        None
    }
}

/// Minimal encoded length of `x` in octets: 1, 2, 4 or 8, or `None` where
/// `x` is 2^62 or more.
pub fn size(x: u64) -> (r: Option<usize>)
    ensures
        r == spec_size(x),
{
    if x <= ONE_OCTET_MAX {
        Some(1)
    } else if x <= TWO_OCTETS_MAX {
        Some(2)
    } else if x <= FOUR_OCTETS_MAX {
        Some(4)
    } else if x <= EIGHT_OCTETS_MAX {
        Some(8)
    } else {
        None
    }
}

/// Big-endian value of two octets.
pub open spec fn be16(b0: u8, b1: u8) -> u16 {
    ((b0 as u16) << 8u16) | (b1 as u16)
}

/// Big-endian value of four octets.
pub open spec fn be32(b0: u8, b1: u8, b2: u8, b3: u8) -> u32 {
    ((b0 as u32) << 24u32) | ((b1 as u32) << 16u32) | ((b2 as u32) << 8u32) | (b3 as u32)
}

/// Big-endian value of eight octets.
pub open spec fn be64(b0: u8, b1: u8, b2: u8, b3: u8, b4: u8, b5: u8, b6: u8, b7: u8) -> u64 {
    ((b0 as u64) << 56u64) | ((b1 as u64) << 48u64) | ((b2 as u64) << 40u64) | ((b3 as u64)
        << 32u64) | ((b4 as u64) << 24u64) | ((b5 as u64) << 16u64) | ((b6 as u64) << 8u64) | (
    b7 as u64)
}

/// Total octet count that the tag in the top two bits of `first` announces.
pub open spec fn tag_len(first: u8) -> nat {
    let tag = first >> 6u8;
    if tag == 0 {
        1
    } else if tag == 1 {
        2
    } else if tag == 2 {
        4
    } else {
        8
    }
}

/// The octets that encode `x`: its value over the shortest length class, in
/// big-endian order, with the class tag in the top two bits. Empty where `x`
/// is not representable.
pub open spec fn encoding(x: u64) -> Seq<u8> {
    match spec_size(x) {
        Some(1) => seq![x as u8],
        Some(2) => seq![((x >> 8u64) as u8) | 0x40u8, x as u8],
        Some(4) => seq![
            ((x >> 24u64) as u8) | 0x80u8,
            (x >> 16u64) as u8,
            (x >> 8u64) as u8,
            x as u8,
        ],
        Some(8) => seq![
            ((x >> 56u64) as u8) | 0xc0u8,
            (x >> 48u64) as u8,
            (x >> 40u64) as u8,
            (x >> 32u64) as u8,
            (x >> 24u64) as u8,
            (x >> 16u64) as u8,
            (x >> 8u64) as u8,
            x as u8,
        ],
        _ => seq![],
    }
}

/// The value that the front of `s` encodes, with the number of octets it
/// takes; `None` where `s` is empty or shorter than its first octet's tag
/// announces.
pub open spec fn decoding(s: Seq<u8>) -> Option<(u64, nat)> {
    if s.len() == 0 || s.len() < tag_len(s[0]) {
        None
    } else {
        let high = s[0] & 0x3fu8;
        let n = tag_len(s[0]);
        if n == 1 {
            Some((high as u64, n))
        } else if n == 2 {
            Some((be16(high, s[1]) as u64, n))
        } else if n == 4 {
            Some((be32(high, s[1], s[2], s[3]) as u64, n))
        } else {
            Some((be64(high, s[1], s[2], s[3], s[4], s[5], s[6], s[7]), n))
        }
    }
}

proof fn lemma_bits_one(x: u64)
    requires
        x <= 63,
    ensures
        (x as u8) >> 6u8 == 0,
        (x as u8) & 0x3fu8 == x,
{
    assert((x as u8) >> 6u8 == 0 && (x as u8) & 0x3fu8 == x) by (bit_vector)
        requires
            x <= 63,
    ;
}

proof fn lemma_bits_two(x: u64)
    requires
        64 <= x <= 16383,
    ensures
        (((x >> 8u64) as u8) | 0x40u8) >> 6u8 == 1,
        be16((((x >> 8u64) as u8) | 0x40u8) & 0x3fu8, x as u8) as u64 == x,
{
    assert((((x >> 8u64) as u8) | 0x40u8) >> 6u8 == 1 && be16(
        (((x >> 8u64) as u8) | 0x40u8) & 0x3fu8,
        x as u8,
    ) as u64 == x) by (bit_vector)
        requires
            64 <= x <= 16383,
    ;
}

proof fn lemma_bits_four(x: u64)
    requires
        16384 <= x <= 1_073_741_823,
    ensures
        (((x >> 24u64) as u8) | 0x80u8) >> 6u8 == 2,
        be32(
            (((x >> 24u64) as u8) | 0x80u8) & 0x3fu8,
            (x >> 16u64) as u8,
            (x >> 8u64) as u8,
            x as u8,
        ) as u64 == x,
{
    assert((((x >> 24u64) as u8) | 0x80u8) >> 6u8 == 2 && be32(
        (((x >> 24u64) as u8) | 0x80u8) & 0x3fu8,
        (x >> 16u64) as u8,
        (x >> 8u64) as u8,
        x as u8,
    ) as u64 == x) by (bit_vector)
        requires
            16384 <= x <= 1_073_741_823,
    ;
}

proof fn lemma_bits_eight(x: u64)
    requires
        1_073_741_824 <= x <= 4_611_686_018_427_387_903,
    ensures
        (((x >> 56u64) as u8) | 0xc0u8) >> 6u8 == 3,
        be64(
            (((x >> 56u64) as u8) | 0xc0u8) & 0x3fu8,
            (x >> 48u64) as u8,
            (x >> 40u64) as u8,
            (x >> 32u64) as u8,
            (x >> 24u64) as u8,
            (x >> 16u64) as u8,
            (x >> 8u64) as u8,
            x as u8,
        ) == x,
{
    assert((((x >> 56u64) as u8) | 0xc0u8) >> 6u8 == 3 && be64(
        (((x >> 56u64) as u8) | 0xc0u8) & 0x3fu8,
        (x >> 48u64) as u8,
        (x >> 40u64) as u8,
        (x >> 32u64) as u8,
        (x >> 24u64) as u8,
        (x >> 16u64) as u8,
        (x >> 8u64) as u8,
        x as u8,
    ) == x) by (bit_vector)
        requires
            1_073_741_824 <= x <= 4_611_686_018_427_387_903,
    ;
}

/// A tag is two bits.
pub(crate) proof fn tag_at_most_three(first: u8)
    ensures
        first >> 6u8 <= 3,
{
    assert(first >> 6u8 <= 3) by (bit_vector);
}

/// For a representable `x`, the encoding has `spec_size(x)` octets, its first
/// octet's tag announces that length, and the front of any buffer that
/// starts with it decodes to `x`.
pub proof fn round_trip(x: u64, rest: Seq<u8>)
    requires
        x <= EIGHT_OCTETS_MAX,
    ensures
        spec_size(x) == Some(encoding(x).len() as usize),
        tag_len(encoding(x)[0]) == encoding(x).len(),
        decoding(encoding(x) + rest) == Some((x, encoding(x).len())),
{
    let e = encoding(x);
    let s = e + rest;
    if x <= ONE_OCTET_MAX {
        lemma_bits_one(x);
    } else if x <= TWO_OCTETS_MAX {
        lemma_bits_two(x);
    } else if x <= FOUR_OCTETS_MAX {
        lemma_bits_four(x);
    } else {
        lemma_bits_eight(x);
    }
    assert(forall|i: int| 0 <= i < e.len() ==> s[i] == e[i]);
}

/// Whatever a buffer decodes to is below 2^62, and takes the octets its tag
/// announces.
pub proof fn decoded_in_range(s: Seq<u8>)
    ensures
        decoding(s) matches Some((v, n)) ==> v <= EIGHT_OCTETS_MAX && n == tag_len(s[0]) && n
            <= s.len(),
{
    if s.len() > 0 && s.len() >= tag_len(s[0]) {
        let f = s[0];
        let b0 = f & 0x3fu8;
        assert(b0 <= 0x3f) by (bit_vector)
            requires
                b0 == f & 0x3fu8,
        ;
        if tag_len(s[0]) == 8 {
            let (b1, b2, b3, b4, b5, b6, b7) = (s[1], s[2], s[3], s[4], s[5], s[6], s[7]);
            assert(be64(b0, b1, b2, b3, b4, b5, b6, b7) <= 4_611_686_018_427_387_903)
                by (bit_vector)
                requires
                    b0 <= 0x3f,
            ;
        } else if tag_len(s[0]) == 4 {
            assert(be32(b0, s[1], s[2], s[3]) <= 0xffff_ffffu32);
        }
    }
}

} // verus!
