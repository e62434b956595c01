use byteorder::{ByteOrder, NetworkEndian};
use csp::id::{csp_id1_encode, csp_id1_prepend, get_packet_id};
use csp::types::{Id, Packet, Priorities};

#[test]
fn csp_id1_prepend_test() {
    let my_csp_id = Id {
        pri: Priorities::PrioNormal,
        flags: 1,
        src: 5,
        dst: 12,
        dport: 23,
        sport: 99,
    };

    let mut pkt = Packet {
        id: my_csp_id,
        data: vec![1; 256],
    };

    csp_id1_prepend(&mut pkt);
    let mut target: [u8; 4] = [0; 4];
    NetworkEndian::write_u32(&mut target, 0x8AC5E301);
    assert_eq!(pkt.data[0..4], target);
    assert_eq!(pkt.data.len(), 260);
    assert_eq!(pkt.data[4..], vec![1u8; 256][..]);
}

#[test]
fn csp_get_packet_id() {
    let a = get_packet_id(0x82, 0x20, 0x5b, 0x00);
    println!("{:?}", a);
    let cmp = Id {
        pri: Priorities::PrioNormal,
        src: 1,
        dst: 2,
        sport: 27,
        dport: 1,
        flags: 0,
    };
    assert_eq!(a, cmp);
}

#[test]
fn header_bit_layout() {
    let id = Id { pri: Priorities::PrioLow, src: 31, dst: 0, dport: 0, sport: 0, flags: 0 };
    assert_eq!(csp_id1_encode(&id), [0xFE, 0x00, 0x00, 0x00]);
    let id = Id { pri: Priorities::PrioCritical, src: 0, dst: 31, dport: 0, sport: 0, flags: 0 };
    assert_eq!(csp_id1_encode(&id), [0x01, 0xF0, 0x00, 0x00]);
    let id = Id { pri: Priorities::PrioCritical, src: 0, dst: 0, dport: 63, sport: 0, flags: 0 };
    assert_eq!(csp_id1_encode(&id), [0x00, 0x0F, 0xC0, 0x00]);
    let id = Id { pri: Priorities::PrioCritical, src: 0, dst: 0, dport: 0, sport: 63, flags: 0xA5 };
    assert_eq!(csp_id1_encode(&id), [0x00, 0x00, 0x3F, 0xA5]);
}

#[test]
fn encode_truncates_wide_fields() {
    let wide = Id { pri: Priorities::PrioHigh, src: 0xFF, dst: 0xE1, dport: 0xC5, sport: 0x7F, flags: 9 };
    let narrow = Id { pri: Priorities::PrioHigh, src: 0x1F, dst: 0x01, dport: 0x05, sport: 0x3F, flags: 9 };
    assert_eq!(csp_id1_encode(&wide), csp_id1_encode(&narrow));
    let b = csp_id1_encode(&wide);
    assert_eq!(get_packet_id(b[0], b[1], b[2], b[3]), narrow);
}

fn round_trip(id: Id) {
    let b = csp_id1_encode(&id);
    assert_eq!(get_packet_id(b[0], b[1], b[2], b[3]), id);
}

#[test]
fn identifier_round_trip_every_field_value() {
    let pris = [Priorities::PrioCritical, Priorities::PrioHigh, Priorities::PrioNormal, Priorities::PrioLow];
    for pri in pris {
        for src in 0..32u8 {
            for dst in 0..32u8 {
                round_trip(Id { pri, src, dst, dport: (src + dst) % 64, sport: 63 - src, flags: src ^ dst });
            }
        }
        for dport in 0..64u8 {
            for sport in 0..64u8 {
                round_trip(Id { pri, src: dport % 32, dst: sport % 32, dport, sport, flags: dport.wrapping_mul(sport) });
            }
        }
        for flags in 0..=255u8 {
            round_trip(Id { pri, src: 17, dst: 9, dport: 41, sport: 22, flags });
        }
    }
}
