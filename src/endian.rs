//! Big-endian 32-bit words and their four-byte wire form.
use vstd::prelude::*;

verus! {

/// The big-endian value of the first four bytes of `s`.
pub open spec fn be_u32(s: Seq<u8>) -> u32 {
    ((s[0] as u32) << 24u32) | ((s[1] as u32) << 16u32) | ((s[2] as u32) << 8u32) | (s[3] as u32)
}

/// The four bytes of `v`, most significant first.
pub open spec fn be_bytes(v: u32) -> Seq<u8> {
    seq![(v >> 24u32) as u8, (v >> 16u32) as u8, (v >> 8u32) as u8, v as u8]
}

/// Reading back the four bytes of a word gives the word.
pub proof fn lemma_be_round_trip(v: u32)
    ensures
        be_bytes(v).len() == 4,
        be_u32(be_bytes(v)) == v,
{
    let b0 = (v >> 24u32) as u8;
    let b1 = (v >> 16u32) as u8;
    let b2 = (v >> 8u32) as u8;
    let b3 = v as u8;
    assert(((b0 as u32) << 24u32) | ((b1 as u32) << 16u32) | ((b2 as u32) << 8u32) | (b3 as u32)
        == v) by (bit_vector)
        requires
            b0 == (v >> 24u32) as u8,
            b1 == (v >> 16u32) as u8,
            b2 == (v >> 8u32) as u8,
            b3 == v as u8,
    ;
}

/// Two four-byte sequences with the same big-endian value are equal.
pub proof fn lemma_be_u32_injective(s: Seq<u8>, t: Seq<u8>)
    requires
        s.len() == 4,
        t.len() == 4,
        be_u32(s) == be_u32(t),
    ensures
        s == t,
{
    let (a0, a1, a2, a3) = (s[0], s[1], s[2], s[3]);
    let (b0, b1, b2, b3) = (t[0], t[1], t[2], t[3]);
    assert(a0 == b0 && a1 == b1 && a2 == b2 && a3 == b3) by (bit_vector)
        requires
            ((a0 as u32) << 24u32) | ((a1 as u32) << 16u32) | ((a2 as u32) << 8u32) | (a3 as u32)
                == ((b0 as u32) << 24u32) | ((b1 as u32) << 16u32) | ((b2 as u32) << 8u32) | (
            b3 as u32),
    ;
    assert(s =~= t);
}

/// Relies on byteorder's `BigEndian::read_u32`: the first four bytes of the
/// buffer, most significant first (it panics on a shorter buffer).
#[verifier::external_body]
pub(crate) fn read_be_u32(buf: &[u8]) -> (r: u32)
    requires
        buf@.len() >= 4,
    ensures
        r == be_u32(buf@),
{
    <byteorder::BigEndian as byteorder::ByteOrder>::read_u32(buf)
}

/// Relies on byteorder's `BigEndian::write_u32`: the word's four bytes,
/// most significant first.
#[verifier::external_body]
pub(crate) fn write_be_u32(v: u32) -> (r: [u8; 4])
    ensures
        r@ == be_bytes(v),
{
    let mut buf = [0u8; 4];
    <byteorder::BigEndian as byteorder::ByteOrder>::write_u32(&mut buf, v);
    buf
}

} // verus!
