use bytes::buf::Limit;
use bytes::{BufMut, Bytes, BytesMut};
use quic_varint::{read, size, VarInt, VarIntBoundsExceeded, WriteError};

fn sink(limit: usize) -> Limit<BytesMut> {
    BytesMut::new().limit(limit)
}

fn encode(x: u64) -> Result<Vec<u8>, WriteError> {
    let mut w = sink(16);
    quic_varint::codec::write(x, &mut w)?;
    Ok(w.get_ref().to_vec())
}

fn decode(bytes: &[u8]) -> (Option<u64>, usize) {
    let mut r = Bytes::copy_from_slice(bytes);
    let v = read(&mut r);
    (v, r.len())
}

#[test]
fn scenario_one_octet() {
    assert_eq!(encode(37).unwrap(), vec![0x25]);
    assert_eq!(decode(&[0x25]), (Some(37), 0));
}

#[test]
fn scenario_two_octets() {
    assert_eq!(encode(15293).unwrap(), vec![0x7b, 0xbd]);
    assert_eq!(decode(&[0x7b, 0xbd]), (Some(15293), 0));
}

#[test]
fn scenario_four_octets() {
    let e = encode(494878333).unwrap();
    assert_eq!(e, vec![0x9d, 0x7f, 0x3e, 0x7d]);
    assert_eq!(e[0] >> 6, 0b10);
    assert_eq!(decode(&e), (Some(494878333), 0));
}

#[test]
fn scenario_largest_value() {
    let e = encode(4611686018427387903).unwrap();
    assert_eq!(e, vec![0xff; 8]);
    assert_eq!(decode(&e), (Some(4611686018427387903), 0));
}

#[test]
fn scenario_oversized() {
    assert_eq!(encode(4611686018427387904), Err(WriteError::OversizedValue));
    assert_eq!(encode(u64::MAX), Err(WriteError::OversizedValue));
}

#[test]
fn classes_and_tags_at_boundaries() {
    let cases: [(u64, usize, u8); 8] = [
        (0, 1, 0),
        (63, 1, 0),
        (64, 2, 1),
        (16383, 2, 1),
        (16384, 4, 2),
        (1073741823, 4, 2),
        (1073741824, 8, 3),
        (4611686018427387903, 8, 3),
    ];
    for (x, n, tag) in cases {
        assert_eq!(size(x), Some(n));
        let e = encode(x).unwrap();
        assert_eq!(e.len(), n);
        assert_eq!(e[0] >> 6, tag);
        assert_eq!(decode(&e), (Some(x), 0));
    }
}

#[test]
fn one_octet_holds_value_in_low_bits() {
    for x in 0..64u64 {
        let e = encode(x).unwrap();
        assert_eq!(e.len(), 1);
        assert_eq!(u64::from(e[0] & 0x3f), x);
    }
}

#[test]
fn size_of_unrepresentable_is_none() {
    assert_eq!(size(4611686018427387904), None);
    assert_eq!(size(u64::MAX), None);
}

#[test]
fn round_trip_keeps_trailing_bytes() {
    for x in [5u64, 300, 70000, 1u64 << 40] {
        let mut e = encode(x).unwrap();
        let n = e.len();
        e.extend_from_slice(&[0xaa, 0xbb]);
        assert_eq!(decode(&e), (Some(x), 2));
        assert_eq!(&e[n..], &[0xaa, 0xbb]);
    }
}

#[test]
fn insufficient_space_writes_nothing() {
    for (x, n) in [(37u64, 1usize), (15293, 2), (494878333, 4), (1u64 << 40, 8)] {
        for limit in 0..n {
            let mut w = sink(limit);
            assert_eq!(quic_varint::codec::write(x, &mut w), Err(WriteError::InsufficientSpace));
            assert!(w.get_ref().is_empty());
            assert_eq!(Limit::limit(&w), limit);
        }
        let mut w = sink(n);
        assert_eq!(quic_varint::codec::write(x, &mut w), Ok(()));
        assert_eq!(w.get_ref().len(), n);
        assert_eq!(Limit::limit(&w), 0);
    }
}

#[test]
fn oversized_wins_over_space() {
    let mut w = sink(0);
    assert_eq!(quic_varint::codec::write(1u64 << 62, &mut w), Err(WriteError::OversizedValue));
}

#[test]
fn write_appends_after_earlier_content() {
    let mut w = sink(10);
    quic_varint::codec::write(37, &mut w).unwrap();
    quic_varint::codec::write(15293, &mut w).unwrap();
    assert_eq!(w.get_ref().as_ref(), &[0x25, 0x7b, 0xbd]);
    assert_eq!(Limit::limit(&w), 7);
}

#[test]
fn empty_buffer_decodes_to_nothing() {
    assert_eq!(decode(&[]), (None, 0));
}

#[test]
fn short_buffer_decodes_to_nothing() {
    assert_eq!(decode(&[0x7b]), (None, 0));
    assert_eq!(decode(&[0x9d, 0x7f, 0x3e]), (None, 2));
    assert_eq!(decode(&[0xc0, 1, 2, 3, 4, 5, 6]), (None, 6));
}

#[test]
fn non_minimal_encoding_decodes() {
    assert_eq!(decode(&[0x40, 0x25]), (Some(37), 0));
}

#[test]
fn varint_size_and_conversions() {
    assert_eq!(VarInt::from(37u8).size(), 1);
    assert_eq!(VarInt::from(15293u16).size(), 2);
    assert_eq!(VarInt::from(494878333u32).size(), 4);
    let big = VarInt::from_u64(4611686018427387903).unwrap();
    assert_eq!(big.size(), 8);
    assert_eq!(big.into_inner(), 4611686018427387903);
    assert_eq!(VarInt::from(7u8).to_usize(), 7);
    assert_eq!(VarInt::from_usize(64).unwrap().into_inner(), 64);
}

#[test]
fn varint_rejects_out_of_range() {
    assert_eq!(VarInt::from_u64(4611686018427387904), Err(VarIntBoundsExceeded));
    assert_eq!(VarInt::from_u64(u64::MAX), Err(VarIntBoundsExceeded));
}

#[test]
fn varint_addition() {
    let a = VarInt::from_u64(4611686018427387900).unwrap();
    let b = VarInt::from(3u8);
    assert_eq!(a.checked_add(b).unwrap().into_inner(), 4611686018427387903);
    assert_eq!(a.checked_add(VarInt::from(4u8)), Err(VarIntBoundsExceeded));
    assert_eq!(VarInt::from(10u8).add_len(5), 15);
}

#[test]
fn varint_encode_and_decode() {
    let mut w = sink(2);
    let v = VarInt::from(15293u16);
    assert_eq!(v.encode(&mut w), Ok(()));
    assert_eq!(w.get_ref().as_ref(), &[0x7b, 0xbd]);
    assert_eq!(v.encode(&mut w), Err(WriteError::InsufficientSpace));
    let mut r = Bytes::copy_from_slice(&[0x7b, 0xbd]);
    assert_eq!(VarInt::decode(&mut r), Some(v));
    assert_eq!(VarInt::decode(&mut r), None);
}

#[test]
fn varint_into_u64() {
    assert_eq!(u64::from(VarInt::from(494878333u32)), 494878333);
}

#[test]
fn write_error_messages() {
    assert_eq!(WriteError::InsufficientSpace.message(), "insufficient space to encode value");
    assert_eq!(WriteError::OversizedValue.message(), "value too large for varint encoding");
}
