//! Checksum helpers on plain byte vectors.
use vstd::prelude::*;
use crate::crc32::{crc32c, with_crc};
use crate::endian::be_bytes;

verus! {

/// Masking out each byte of a word and shifting it down gives the word's
/// big-endian bytes.
pub proof fn lemma_masked_bytes(c: u32)
    ensures
        ((c & 0xFF000000u32) >> 24u32) as u8 == be_bytes(c)[0],
        ((c & 0x00FF0000u32) >> 16u32) as u8 == be_bytes(c)[1],
        ((c & 0x0000FF00u32) >> 8u32) as u8 == be_bytes(c)[2],
        (c & 0x000000FFu32) as u8 == be_bytes(c)[3],
{
    assert(((c & 0xFF000000u32) >> 24u32) as u8 == (c >> 24u32) as u8) by (bit_vector);
    assert(((c & 0x00FF0000u32) >> 16u32) as u8 == (c >> 16u32) as u8) by (bit_vector);
    assert(((c & 0x0000FF00u32) >> 8u32) as u8 == (c >> 8u32) as u8) by (bit_vector);
    assert((c & 0x000000FFu32) as u8 == c as u8) by (bit_vector);
}

/// Appends the CRC-32C of `data` to it, most significant byte first.
pub(crate) fn push_crc32(data: &mut Vec<u8>)
    ensures
        final(data)@ == with_crc(old(data)@),
{
    let calc_crc = crc32c(data.as_slice());
    data.push(((calc_crc & 0xFF000000u32) >> 24u32) as u8);
    data.push(((calc_crc & 0x00FF0000u32) >> 16u32) as u8);
    data.push(((calc_crc & 0x0000FF00u32) >> 8u32) as u8);
    data.push((calc_crc & 0x000000FFu32) as u8);
    proof {
        lemma_masked_bytes(calc_crc);
    }
    assert(data@ =~= with_crc(old(data)@));
}

/// Appends the CRC-32C of `data` to it, most significant byte first, and
/// returns `len` grown by the four trailer bytes.
pub fn csp_crc32_append(data: &mut Vec<u8>, len: usize) -> (r: usize)
    requires
        len <= usize::MAX - 4,
    ensures
        final(data)@ == with_crc(old(data)@),
        r == len + 4,
{
    push_crc32(data);
    len + 4
}

/// A fresh vector holding `src[from..to]`.
pub(crate) fn copy_range(src: &[u8], from: usize, to: usize) -> (r: Vec<u8>)
    requires
        from <= to <= src@.len(),
    ensures
        r@ == src@.subrange(from as int, to as int),
{
    let mut r: Vec<u8> = Vec::new();
    let mut i: usize = from;
    while i < to
        invariant
            from <= i <= to <= src@.len(),
            r@ == src@.subrange(from as int, i as int),
        decreases to - i,
    {
        r.push(src[i]);
        i = i + 1;
        assert(r@ =~= src@.subrange(from as int, i as int));
    }
    r
}

} // verus!
