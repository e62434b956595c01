//! The integrity codec: a CRC-32C checksum over a payload, carried as a
//! four-byte big-endian trailer.
use vstd::prelude::*;
use crate::endian::{be_bytes, be_u32, lemma_be_round_trip, lemma_be_u32_injective, read_be_u32};

verus! {

/// The CRC-32C (iSCSI polynomial, reflected) checksum of a byte sequence.
pub uninterp spec fn crc32c_of(data: Seq<u8>) -> u32;

/// Relies on `crc::Crc::<u32>::checksum` with the `CRC_32_ISCSI` algorithm:
/// the checksum depends on the bytes alone.
#[verifier::external_body]
pub(crate) fn crc32c(data: &[u8]) -> (r: u32)
    ensures
        r == crc32c_of(data@),
{
    crc::Crc::<u32>::new(&crc::CRC_32_ISCSI).checksum(data)
}

/// `data` followed by its checksum trailer.
pub open spec fn with_crc(data: Seq<u8>) -> Seq<u8> {
    data + be_bytes(crc32c_of(data))
}

/// The bytes but the last four.
pub open spec fn crc_body(b: Seq<u8>) -> Seq<u8> {
    b.subrange(0, b.len() - 4)
}

/// The last four bytes.
pub open spec fn crc_trailer(b: Seq<u8>) -> Seq<u8> {
    b.subrange(b.len() - 4, b.len() as int)
}

/// `b` ends in a four-byte trailer that is the checksum of what precedes it.
pub open spec fn crc_ok(b: Seq<u8>) -> bool {
    b.len() >= 4 && crc32c_of(crc_body(b)) == be_u32(crc_trailer(b))
}

/// Recomputes the checksum over all bytes but the last four and compares
/// it with the big-endian trailer. Fewer than four bytes never verify.
pub fn csp_crc32_verify(data: &[u8]) -> (r: bool)
    ensures
        r == crc_ok(data@),
{
    let n = data.len();
    if n < 4 {
        return false;
    }
    let mut body: Vec<u8> = Vec::new();
    let mut i: usize = 0;
    while i < n - 4
        invariant
            n == data@.len(),
            n >= 4,
            i <= n - 4,
            body@ == data@.subrange(0, i as int),
        decreases n - 4 - i,
    {
        body.push(data[i]);
        i = i + 1;
    }
    let calc = crc32c(body.as_slice());
    let trailer = [data[n - 4], data[n - 3], data[n - 2], data[n - 1]];
    let sent = read_be_u32(trailer.as_slice());
    assert(trailer@ =~= crc_trailer(data@));
    calc == sent
}

/// A checksum appended to any bytes verifies.
pub proof fn lemma_crc_append_verifies(data: Seq<u8>)
    ensures
        crc_ok(with_crc(data)),
{
    let b = with_crc(data);
    lemma_be_round_trip(crc32c_of(data));
    assert(crc_body(b) =~= data);
    assert(crc_trailer(b) =~= be_bytes(crc32c_of(data)));
}

/// Flipping any single bit of the trailer of checksummed bytes makes them
/// fail to verify.
pub proof fn lemma_crc_trailer_bit_flip(data: Seq<u8>, i: int, bit: u8)
    requires
        data.len() <= i < data.len() + 4,
        bit < 8,
    ensures
        !crc_ok(with_crc(data).update(i, with_crc(data)[i] ^ (1u8 << bit))),
{
    let b = with_crc(data);
    let x = b[i];
    let y = x ^ (1u8 << bit);
    let f = b.update(i, y);
    assert(y != x) by (bit_vector)
        requires
            y == x ^ (1u8 << bit),
            bit < 8,
    ;
    lemma_be_round_trip(crc32c_of(data));
    assert(crc_body(f) =~= data);
    if crc_ok(f) {
        lemma_be_u32_injective(crc_trailer(f), be_bytes(crc32c_of(data)));
        assert(crc_trailer(f)[i - data.len()] == y);
        assert(be_bytes(crc32c_of(data))[i - data.len()] == x);
    }
}

} // verus!
