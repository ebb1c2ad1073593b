use vstd::prelude::*;

verus! {

/// The four bytes of `v`, most significant first (`u32::to_be_bytes`).
pub open spec fn be_u32_bytes(v: u32) -> Seq<u8> {
    seq![(v >> 24u32) as u8, (v >> 16u32) as u8, (v >> 8u32) as u8, v as u8]
}

/// The `u32` whose big-endian bytes are `b[0..4]` (`u32::from_be_bytes`).
pub open spec fn be_u32_value(b: Seq<u8>) -> u32 {
    ((b[0] as u32) << 24u32) | ((b[1] as u32) << 16u32) | ((b[2] as u32) << 8u32) | (b[3] as u32)
}

/// The eight bytes of `v`, most significant first (`u64::to_be_bytes`).
pub open spec fn be_u64_bytes(v: u64) -> Seq<u8> {
    seq![
        (v >> 56u64) as u8,
        (v >> 48u64) as u8,
        (v >> 40u64) as u8,
        (v >> 32u64) as u8,
        (v >> 24u64) as u8,
        (v >> 16u64) as u8,
        (v >> 8u64) as u8,
        v as u8,
    ]
}

/// The `u64` whose big-endian bytes are `b[0..8]` (`u64::from_be_bytes`).
pub open spec fn be_u64_value(b: Seq<u8>) -> u64 {
    ((b[0] as u64) << 56u64) | ((b[1] as u64) << 48u64) | ((b[2] as u64) << 40u64) | ((
    b[3] as u64) << 32u64) | ((b[4] as u64) << 24u64) | ((b[5] as u64) << 16u64) | ((b[6] as u64)
        << 8u64) | (b[7] as u64)
}

/// Reading back the big-endian bytes of a `u32` gives the `u32`.
pub proof fn lemma_be_u32_roundtrip(v: u32)
    ensures
        be_u32_value(be_u32_bytes(v)) == v,
{
    let b = be_u32_bytes(v);
    let (b0, b1, b2, b3) = (b[0], b[1], b[2], b[3]);
    assert(b0 == (v >> 24u32) as u8 && b1 == (v >> 16u32) as u8 && b2 == (v >> 8u32) as u8 && b3
        == v as u8);
    assert(((b0 as u32) << 24u32) | ((b1 as u32) << 16u32) | ((b2 as u32) << 8u32) | (b3 as u32)
        == v) by (bit_vector)
        requires
            b0 == (v >> 24u32) as u8,
            b1 == (v >> 16u32) as u8,
            b2 == (v >> 8u32) as u8,
            b3 == v as u8,
    ;
}

/// Reading back the big-endian bytes of a `u64` gives the `u64`.
pub proof fn lemma_be_u64_roundtrip(v: u64)
    ensures
        be_u64_value(be_u64_bytes(v)) == v,
{
    let b = be_u64_bytes(v);
    let (b0, b1, b2, b3, b4, b5, b6, b7) = (b[0], b[1], b[2], b[3], b[4], b[5], b[6], b[7]);
    assert(((b0 as u64) << 56u64) | ((b1 as u64) << 48u64) | ((b2 as u64) << 40u64) | ((
    b3 as u64) << 32u64) | ((b4 as u64) << 24u64) | ((b5 as u64) << 16u64) | ((b6 as u64)
        << 8u64) | (b7 as u64) == v) by (bit_vector)
        requires
            b0 == (v >> 56u64) as u8,
            b1 == (v >> 48u64) as u8,
            b2 == (v >> 40u64) as u8,
            b3 == (v >> 32u64) as u8,
            b4 == (v >> 24u64) as u8,
            b5 == (v >> 16u64) as u8,
            b6 == (v >> 8u64) as u8,
            b7 == v as u8,
    ;
}

/// `u32::to_be_bytes`.
pub fn u32_to_be(v: u32) -> (r: [u8; 4])
    ensures
        r@ == be_u32_bytes(v),
{
    let r = [(v >> 24u32) as u8, (v >> 16u32) as u8, (v >> 8u32) as u8, v as u8];
    assert(r@ =~= be_u32_bytes(v));
    r
}

/// `u32::from_be_bytes`.
pub fn u32_from_be(b: &[u8; 4]) -> (r: u32)
    ensures
        r == be_u32_value(b@),
{
    ((b[0] as u32) << 24u32) | ((b[1] as u32) << 16u32) | ((b[2] as u32) << 8u32) | (b[3] as u32)
}

} // verus!
