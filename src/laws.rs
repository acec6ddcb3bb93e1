//! What holds of every value in each length class, and of short buffers.

use vstd::prelude::*;
use crate::wire::{
    decoding,
    encoding,
    round_trip,
    spec_size,
    tag_at_most_three,
    tag_len,
    EIGHT_OCTETS_MAX,
};

verus! {

/// A value of 0 to 63 takes one octet, tagged 00, whose low six bits are the
/// value, and that octet decodes back to it.
pub proof fn one_octet_class(x: u64)
    requires
        x <= 63,
    ensures
        spec_size(x) == Some(1usize),
        encoding(x).len() == 1,
        encoding(x)[0] >> 6u8 == 0,
        encoding(x)[0] & 0x3fu8 == x,
        decoding(encoding(x)) == Some((x, 1nat)),
{
    round_trip(x, seq![]);
    assert(encoding(x) + seq![] =~= encoding(x));
    let b = x as u8;
    assert(b >> 6u8 == 0 && b & 0x3fu8 == x) by (bit_vector)
        requires
            b == x as u8,
            x <= 63,
    ;
}

/// A value of 64 to 16383 takes two octets, tagged 01, and decodes back.
pub proof fn two_octet_class(x: u64)
    requires
        64 <= x <= 16383,
    ensures
        spec_size(x) == Some(2usize),
        encoding(x).len() == 2,
        encoding(x)[0] >> 6u8 == 1,
        decoding(encoding(x)) == Some((x, 2nat)),
{
    round_trip(x, seq![]);
    assert(encoding(x) + seq![] =~= encoding(x));
}

/// A value of 16384 to 2^30 - 1 takes four octets, tagged 10, and decodes
/// back.
pub proof fn four_octet_class(x: u64)
    requires
        16384 <= x <= 1_073_741_823,
    ensures
        spec_size(x) == Some(4usize),
        encoding(x).len() == 4,
        encoding(x)[0] >> 6u8 == 2,
        decoding(encoding(x)) == Some((x, 4nat)),
{
    round_trip(x, seq![]);
    assert(encoding(x) + seq![] =~= encoding(x));
}

/// A value of 2^30 to 2^62 - 1 takes eight octets, tagged 11, and decodes
/// back.
pub proof fn eight_octet_class(x: u64)
    requires
        1_073_741_824 <= x <= EIGHT_OCTETS_MAX,
    ensures
        spec_size(x) == Some(8usize),
        encoding(x).len() == 8,
        encoding(x)[0] >> 6u8 == 3,
        decoding(encoding(x)) == Some((x, 8nat)),
{
    round_trip(x, seq![]);
    tag_at_most_three(encoding(x)[0]);
    assert(encoding(x) + seq![] =~= encoding(x));
}

/// A value of 2^62 or more has no length class and no encoding.
pub proof fn oversized_has_no_class(x: u64)
    requires
        x > EIGHT_OCTETS_MAX,
    ensures
        spec_size(x) is None,
        encoding(x) == Seq::<u8>::empty(),
{
}

/// An empty buffer, or one shorter than its first octet's tag announces,
/// decodes to nothing.
pub proof fn short_buffer_decodes_to_nothing(s: Seq<u8>)
    requires
        s.len() == 0 || s.len() < tag_len(s[0]),
    ensures
        decoding(s) is None,
{
}

} // verus!
