//! The identifier codec: the four-byte addressing header, packed big-endian
//! as priority (2 bits), source (5), destination (5), destination port (6),
//! source port (6) and flags (8), from the most significant bit down.
use vstd::prelude::*;
use crate::endian::{be_bytes, be_u32, lemma_be_round_trip, read_be_u32, write_be_u32};
use crate::types::{Id, Packet, Priorities, priority_bits, priority_of};

verus! {

pub const CSP_ID1_PRIO_OFFSET: u32 = 30;

pub const CSP_ID1_SRC_OFFSET: u32 = 25;

pub const CSP_ID1_DST_OFFSET: u32 = 20;

pub const CSP_ID1_DPORT_OFFSET: u32 = 14;

pub const CSP_ID1_SPORT_OFFSET: u32 = 8;

pub const CSP_ID1_FLAGS_OFFSET: u32 = 0;

/// The header word of an identifier; fields wider than their slot are cut
/// down to it.
pub open spec fn id_word(id: Id) -> u32 {
    ((priority_bits(id.pri) as u32) << 30u32) | (((id.src & 0x1Fu8) as u32) << 25u32) | (((id.dst
        & 0x1Fu8) as u32) << 20u32) | (((id.dport & 0x3Fu8) as u32) << 14u32) | (((id.sport
        & 0x3Fu8) as u32) << 8u32) | (id.flags as u32)
}

/// The identifier a header word holds.
pub open spec fn id_from_word(w: u32) -> Id {
    Id {
        pri: priority_of(((w >> 30u32) & 3u32) as u8),
        src: ((w >> 25u32) & 0x1Fu32) as u8,
        dst: ((w >> 20u32) & 0x1Fu32) as u8,
        dport: ((w >> 14u32) & 0x3Fu32) as u8,
        sport: ((w >> 8u32) & 0x3Fu32) as u8,
        flags: (w & 0xFFu32) as u8,
    }
}

/// The four header bytes of an identifier.
pub open spec fn id_bytes(id: Id) -> Seq<u8> {
    be_bytes(id_word(id))
}

/// The identifier the first four bytes of `b` hold.
pub open spec fn id_from_bytes(b: Seq<u8>) -> Id {
    id_from_word(be_u32(b))
}

/// The identifier with every field cut down to its width on the wire.
pub open spec fn id_masked(id: Id) -> Id {
    Id {
        pri: id.pri,
        src: id.src & 0x1Fu8,
        dst: id.dst & 0x1Fu8,
        dport: id.dport & 0x3Fu8,
        sport: id.sport & 0x3Fu8,
        flags: id.flags,
    }
}

proof fn lemma_priority_round_trip(p: Priorities)
    ensures
        priority_of(priority_bits(p)) == p,
{
}

proof fn lemma_word_fields(pri: u8, src: u8, dst: u8, dport: u8, sport: u8, flags: u8)
    requires
        pri < 4,
    ensures
        ({
            let w = ((pri as u32) << 30u32) | (((src & 0x1Fu8) as u32) << 25u32) | (((dst
                & 0x1Fu8) as u32) << 20u32) | (((dport & 0x3Fu8) as u32) << 14u32) | (((sport
                & 0x3Fu8) as u32) << 8u32) | (flags as u32);
            &&& ((w >> 30u32) & 3u32) as u8 == pri
            &&& ((w >> 25u32) & 0x1Fu32) as u8 == src & 0x1Fu8
            &&& ((w >> 20u32) & 0x1Fu32) as u8 == dst & 0x1Fu8
            &&& ((w >> 14u32) & 0x3Fu32) as u8 == dport & 0x3Fu8
            &&& ((w >> 8u32) & 0x3Fu32) as u8 == sport & 0x3Fu8
            &&& (w & 0xFFu32) as u8 == flags
        }),
{
    let w = ((pri as u32) << 30u32) | (((src & 0x1Fu8) as u32) << 25u32) | (((dst & 0x1Fu8) as u32)
        << 20u32) | (((dport & 0x3Fu8) as u32) << 14u32) | (((sport & 0x3Fu8) as u32) << 8u32) | (
    flags as u32);
    assert(((w >> 30u32) & 3u32) as u8 == pri) by (bit_vector)
        requires
            pri < 4,
            w == ((pri as u32) << 30u32) | (((src & 0x1Fu8) as u32) << 25u32) | (((dst & 0x1Fu8)
                as u32) << 20u32) | (((dport & 0x3Fu8) as u32) << 14u32) | (((sport & 0x3Fu8)
                as u32) << 8u32) | (flags as u32),
    ;
    assert(((w >> 25u32) & 0x1Fu32) as u8 == src & 0x1Fu8) by (bit_vector)
        requires
            w == ((pri as u32) << 30u32) | (((src & 0x1Fu8) as u32) << 25u32) | (((dst & 0x1Fu8)
                as u32) << 20u32) | (((dport & 0x3Fu8) as u32) << 14u32) | (((sport & 0x3Fu8)
                as u32) << 8u32) | (flags as u32),
    ;
    assert(((w >> 20u32) & 0x1Fu32) as u8 == dst & 0x1Fu8) by (bit_vector)
        requires
            w == ((pri as u32) << 30u32) | (((src & 0x1Fu8) as u32) << 25u32) | (((dst & 0x1Fu8)
                as u32) << 20u32) | (((dport & 0x3Fu8) as u32) << 14u32) | (((sport & 0x3Fu8)
                as u32) << 8u32) | (flags as u32),
    ;
    assert(((w >> 14u32) & 0x3Fu32) as u8 == dport & 0x3Fu8) by (bit_vector)
        requires
            w == ((pri as u32) << 30u32) | (((src & 0x1Fu8) as u32) << 25u32) | (((dst & 0x1Fu8)
                as u32) << 20u32) | (((dport & 0x3Fu8) as u32) << 14u32) | (((sport & 0x3Fu8)
                as u32) << 8u32) | (flags as u32),
    ;
    assert(((w >> 8u32) & 0x3Fu32) as u8 == sport & 0x3Fu8) by (bit_vector)
        requires
            w == ((pri as u32) << 30u32) | (((src & 0x1Fu8) as u32) << 25u32) | (((dst & 0x1Fu8)
                as u32) << 20u32) | (((dport & 0x3Fu8) as u32) << 14u32) | (((sport & 0x3Fu8)
                as u32) << 8u32) | (flags as u32),
    ;
    assert((w & 0xFFu32) as u8 == flags) by (bit_vector)
        requires
            w == ((pri as u32) << 30u32) | (((src & 0x1Fu8) as u32) << 25u32) | (((dst & 0x1Fu8)
                as u32) << 20u32) | (((dport & 0x3Fu8) as u32) << 14u32) | (((sport & 0x3Fu8)
                as u32) << 8u32) | (flags as u32),
    ;
}

/// Decoding an encoded header gives the identifier with every field cut
/// down to its width.
pub proof fn lemma_id_decode_encode_masks(id: Id)
    ensures
        id_bytes(id).len() == 4,
        id_from_bytes(id_bytes(id)) == id_masked(id),
{
    lemma_be_round_trip(id_word(id));
    lemma_word_fields(priority_bits(id.pri), id.src, id.dst, id.dport, id.sport, id.flags);
    lemma_priority_round_trip(id.pri);
}

/// Decoding the header of an identifier whose fields fit their widths gives
/// the identifier back.
pub proof fn lemma_id_round_trip(id: Id)
    requires
        id.wf(),
    ensures
        id_bytes(id).len() == 4,
        id_from_bytes(id_bytes(id)) == id,
{
    lemma_id_decode_encode_masks(id);
    let (s, d, dp, sp) = (id.src, id.dst, id.dport, id.sport);
    assert(s & 0x1Fu8 == s && d & 0x1Fu8 == d && dp & 0x3Fu8 == dp && sp & 0x3Fu8 == sp)
        by (bit_vector)
        requires
            s < 32,
            d < 32,
            dp < 64,
            sp < 64,
    ;
}

/// Every decoded identifier has its fields within their widths.
pub proof fn lemma_id_decode_wf(b: Seq<u8>)
    ensures
        id_from_bytes(b).wf(),
{
    let w = be_u32(b);
    assert((((w >> 25u32) & 0x1Fu32) as u8) < 32 && (((w >> 20u32) & 0x1Fu32) as u8) < 32 && (((w
        >> 14u32) & 0x3Fu32) as u8) < 64 && (((w >> 8u32) & 0x3Fu32) as u8) < 64) by (bit_vector);
}

/// The four header bytes of an identifier, most significant first; fields
/// wider than their slot are cut down to it.
pub fn csp_id1_encode(id: &Id) -> (r: [u8; 4])
    ensures
        r@ == id_bytes(*id),
{
    let word: u32 = ((id.pri.bits() as u32) << CSP_ID1_PRIO_OFFSET) | (((id.src & 0x1F) as u32)
        << CSP_ID1_SRC_OFFSET) | (((id.dst & 0x1F) as u32) << CSP_ID1_DST_OFFSET) | (((id.dport
        & 0x3F) as u32) << CSP_ID1_DPORT_OFFSET) | (((id.sport & 0x3F) as u32)
        << CSP_ID1_SPORT_OFFSET) | ((id.flags as u32) << CSP_ID1_FLAGS_OFFSET);
    let f = id.flags;
    assert(((f as u32) << 0u32) == f as u32) by (bit_vector);
    write_be_u32(word)
}

/// Puts the packet's four header bytes in front of its payload.
pub fn csp_id1_prepend(packet: &mut Packet)
    ensures
        final(packet).id == old(packet).id,
        final(packet).data@ == id_bytes(old(packet).id) + old(packet).data@,
{
    let hdr = csp_id1_encode(&packet.id);
    let mut data: Vec<u8> = Vec::new();
    data.push(hdr[0]);
    data.push(hdr[1]);
    data.push(hdr[2]);
    data.push(hdr[3]);
    data.append(&mut packet.data);
    packet.data = data;
    assert(packet.data@ =~= id_bytes(old(packet).id) + old(packet).data@);
}

/// The identifier that four header bytes hold; every field is masked to its
/// width.
pub fn get_packet_id(byte0: u8, byte1: u8, byte2: u8, byte3: u8) -> (r: Id)
    ensures
        r == id_from_bytes(seq![byte0, byte1, byte2, byte3]),
        r.wf(),
{
    let buf = [byte0, byte1, byte2, byte3];
    let word = read_be_u32(buf.as_slice());
    assert(buf@ =~= seq![byte0, byte1, byte2, byte3]);
    proof {
        lemma_id_decode_wf(seq![byte0, byte1, byte2, byte3]);
    }
    Id {
        pri: Priorities::from(((word >> 30u32) & 3u32) as u8),
        src: ((word >> 25u32) & 0x1F) as u8,
        dst: ((word >> 20u32) & 0x1F) as u8,
        dport: ((word >> 14u32) & 0x3F) as u8,
        sport: ((word >> 8u32) & 0x3F) as u8,
        flags: (word & 0xFF) as u8,
    }
}

} // verus!
