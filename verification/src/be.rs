//! Unsigned big-endian integer encodings used on the wire.
use vstd::prelude::*;

verus! {

/// The two bytes of `x`, most significant first.
pub open spec fn be16(x: u16) -> Seq<u8> {
    seq![(x >> 8u16) as u8, x as u8]
}

/// The four bytes of `x`, most significant first.
pub open spec fn be32(x: u32) -> Seq<u8> {
    seq![(x >> 24u32) as u8, (x >> 16u32) as u8, (x >> 8u32) as u8, x as u8]
}

/// The eight bytes of `x`, most significant first.
pub open spec fn be64(x: u64) -> Seq<u8> {
    seq![
        (x >> 56u64) as u8,
        (x >> 48u64) as u8,
        (x >> 40u64) as u8,
        (x >> 32u64) as u8,
        (x >> 24u64) as u8,
        (x >> 16u64) as u8,
        (x >> 8u64) as u8,
        x as u8,
    ]
}

/// The value of two bytes read most significant first.
pub open spec fn from_be16(s: Seq<u8>) -> u16 {
    ((s[0] as u16) << 8u16) | (s[1] as u16)
}

/// The value of four bytes read most significant first.
pub open spec fn from_be32(s: Seq<u8>) -> u32 {
    ((s[0] as u32) << 24u32) | ((s[1] as u32) << 16u32) | ((s[2] as u32) << 8u32) | (s[3] as u32)
}

/// The value of eight bytes read most significant first.
pub open spec fn from_be64(s: Seq<u8>) -> u64 {
    ((s[0] as u64) << 56u64) | ((s[1] as u64) << 48u64) | ((s[2] as u64) << 40u64) | ((
    s[3] as u64) << 32u64) | ((s[4] as u64) << 24u64) | ((s[5] as u64) << 16u64) | ((s[6] as u64)
        << 8u64) | (s[7] as u64)
}

/// Reading back an encoded 16-bit value gives the value.
pub proof fn lemma_be16_value(x: u16)
    ensures
        from_be16(be16(x)) == x,
{
    let b0 = (x >> 8u16) as u8;
    let b1 = x as u8;
    assert(((b0 as u16) << 8u16) | (b1 as u16) == x) by (bit_vector)
        requires
            b0 == (x >> 8u16) as u8,
            b1 == x as u8,
    ;
}

/// Encoding the value read from two bytes gives the bytes back.
pub proof fn lemma_be16_bytes(s: Seq<u8>)
    requires
        s.len() == 2,
    ensures
        be16(from_be16(s)) == s,
{
    let b0 = s[0];
    let b1 = s[1];
    let x = from_be16(s);
    assert((x >> 8u16) as u8 == b0 && x as u8 == b1) by (bit_vector)
        requires
            x == ((b0 as u16) << 8u16) | (b1 as u16),
    ;
    assert(be16(x) =~= s);
}

/// Reading back an encoded 32-bit value gives the value.
pub proof fn lemma_be32_value(x: u32)
    ensures
        from_be32(be32(x)) == x,
{
    let b0 = (x >> 24u32) as u8;
    let b1 = (x >> 16u32) as u8;
    let b2 = (x >> 8u32) as u8;
    let b3 = x as u8;
    assert(((b0 as u32) << 24u32) | ((b1 as u32) << 16u32) | ((b2 as u32) << 8u32) | (b3 as u32)
        == x) by (bit_vector)
        requires
            b0 == (x >> 24u32) as u8,
            b1 == (x >> 16u32) as u8,
            b2 == (x >> 8u32) as u8,
            b3 == x as u8,
    ;
}

/// Encoding the value read from four bytes gives the bytes back.
pub proof fn lemma_be32_bytes(s: Seq<u8>)
    requires
        s.len() == 4,
    ensures
        be32(from_be32(s)) == s,
{
    let b0 = s[0];
    let b1 = s[1];
    let b2 = s[2];
    let b3 = s[3];
    let x = from_be32(s);
    assert((x >> 24u32) as u8 == b0 && (x >> 16u32) as u8 == b1 && (x >> 8u32) as u8 == b2 && x as u8
        == b3) by (bit_vector)
        requires
            x == ((b0 as u32) << 24u32) | ((b1 as u32) << 16u32) | ((b2 as u32) << 8u32) | (
            b3 as u32),
    ;
    assert(be32(x) =~= s);
}

/// Reading back an encoded 64-bit value gives the value.
pub proof fn lemma_be64_value(x: u64)
    ensures
        from_be64(be64(x)) == x,
{
    let b0 = (x >> 56u64) as u8;
    let b1 = (x >> 48u64) as u8;
    let b2 = (x >> 40u64) as u8;
    let b3 = (x >> 32u64) as u8;
    let b4 = (x >> 24u64) as u8;
    let b5 = (x >> 16u64) as u8;
    let b6 = (x >> 8u64) as u8;
    let b7 = x as u8;
    assert(((b0 as u64) << 56u64) | ((b1 as u64) << 48u64) | ((b2 as u64) << 40u64) | ((
    b3 as u64) << 32u64) | ((b4 as u64) << 24u64) | ((b5 as u64) << 16u64) | ((b6 as u64)
        << 8u64) | (b7 as u64) == x) by (bit_vector)
        requires
            b0 == (x >> 56u64) as u8,
            b1 == (x >> 48u64) as u8,
            b2 == (x >> 40u64) as u8,
            b3 == (x >> 32u64) as u8,
            b4 == (x >> 24u64) as u8,
            b5 == (x >> 16u64) as u8,
            b6 == (x >> 8u64) as u8,
            b7 == x as u8,
    ;
}

/// Encoding the value read from eight bytes gives the bytes back.
pub proof fn lemma_be64_bytes(s: Seq<u8>)
    requires
        s.len() == 8,
    ensures
        be64(from_be64(s)) == s,
{
    let b0 = s[0];
    let b1 = s[1];
    let b2 = s[2];
    let b3 = s[3];
    let b4 = s[4];
    let b5 = s[5];
    let b6 = s[6];
    let b7 = s[7];
    let x = from_be64(s);
    assert((x >> 56u64) as u8 == b0 && (x >> 48u64) as u8 == b1 && (x >> 40u64) as u8 == b2 && (x
        >> 32u64) as u8 == b3 && (x >> 24u64) as u8 == b4 && (x >> 16u64) as u8 == b5 && (x
        >> 8u64) as u8 == b6 && x as u8 == b7) by (bit_vector)
        requires
            x == ((b0 as u64) << 56u64) | ((b1 as u64) << 48u64) | ((b2 as u64) << 40u64) | ((
            b3 as u64) << 32u64) | ((b4 as u64) << 24u64) | ((b5 as u64) << 16u64) | ((
            b6 as u64) << 8u64) | (b7 as u64),
    ;
    assert(be64(x) =~= s);
}

} // verus!
