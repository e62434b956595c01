use csp::if_kiss::{
    kiss_frame_check, kiss_frame_decode, kiss_process_rx, kiss_process_tx, kiss_tx_frame, CspKissMode,
    KissIntfDataRx, FEND,
};
use csp::types::{csp_crc32_calc, Error, Id, Packet, Priorities};

fn feed(rx: &mut KissIntfDataRx, bytes: &[u8]) -> Vec<Result<Packet, Error>> {
    let mut out = Vec::new();
    for b in bytes {
        if let Some(r) = rx.kiss_rx_byte(*b) {
            out.push(r);
        }
    }
    out
}

#[test]
fn csp_kiss_process_rx_test() {
    let data = vec![0xC0, 0x00, 0xDB, 0xDC, 0xDB, 0xDD];
    let mut kiss_intf_rx = KissIntfDataRx::new();
    let pkt = kiss_process_rx(data, 6, &mut kiss_intf_rx).unwrap();
    println!("len: {} Data: {:#02x?}", pkt.data.len(), pkt.data);
    assert_eq!(pkt.data, vec![0xC0, 0xDB]);
}

#[test]
fn escape_fixture_frames_and_parses_back() {
    let framed = kiss_process_tx(&[0x00, 0xC0, 0xDB], 3);
    assert_eq!(framed, vec![0xC0, 0x00, 0xDB, 0xDC, 0xDB, 0xDD, 0xC0]);
    let mut rx = KissIntfDataRx::new();
    let pkt = kiss_process_rx(framed[..6].to_vec(), 6, &mut rx).unwrap();
    assert_eq!(pkt.data, vec![0xC0, 0xDB]);
}

#[test]
fn tx_skips_first_byte_and_escapes() {
    assert_eq!(kiss_process_tx(&[], 0), vec![0xC0, 0x00, 0xC0]);
    assert_eq!(kiss_process_tx(&[0x55], 1), vec![0xC0, 0x00, 0xC0]);
    assert_eq!(kiss_process_tx(&[9, 1, 2, 3, 4], 3), vec![0xC0, 0x00, 1, 2, 0xC0]);
}

fn sample_id() -> Id {
    Id { pri: Priorities::PrioHigh, flags: 0x5A, src: 7, dst: 30, dport: 33, sport: 12 }
}

#[test]
fn packet_round_trip_through_frame() {
    for len in 1..=248usize {
        let data: Vec<u8> = (0..len).map(|i| [0xC0u8, 0xDB, 0xDC, 0xDD, i as u8][i % 5]).collect();
        let mut pkt = Packet::new().id(sample_id()).data(data.clone());
        let frame = kiss_tx_frame(&mut pkt);
        let mut rx = KissIntfDataRx::new();
        let out = feed(&mut rx, &frame);
        assert_eq!(out.len(), 1);
        let got = out[0].as_ref().unwrap();
        assert_eq!(got.id, sample_id());
        assert_eq!(got.data, data);
        assert_eq!(rx.rx_mode, CspKissMode::KissModeNotStarted);
    }
}

#[test]
fn tx_frame_leaves_header_payload_and_checksum_in_packet() {
    let mut pkt = Packet::new().id(sample_id()).data(vec![1, 2, 3]);
    let frame = kiss_tx_frame(&mut pkt);
    assert_eq!(pkt.data.len(), 4 + 3 + 4);
    assert_eq!(pkt.data[4..7], [1, 2, 3]);
    assert_eq!(frame[0], FEND);
    assert_eq!(frame[1], 0x00);
    assert_eq!(*frame.last().unwrap(), FEND);
}

#[test]
fn short_frame_is_a_framing_error_and_parser_recovers() {
    let mut rx = KissIntfDataRx::new();
    let short = kiss_process_tx(&[0, 1, 2, 3, 4, 5, 6, 7, 8], 9);
    let out = feed(&mut rx, &short);
    assert_eq!(out.len(), 1);
    assert_eq!(out[0].as_ref().unwrap_err(), &Error::CspFramingError);
    assert_eq!(rx.rx_mode, CspKissMode::KissModeNotStarted);

    let mut pkt = Packet::new().id(sample_id()).data(vec![42]);
    let good = kiss_tx_frame(&mut pkt);
    let out = feed(&mut rx, &good);
    assert_eq!(out.len(), 1);
    assert_eq!(out[0].as_ref().unwrap().data, vec![42]);
}

#[test]
fn corrupted_payload_is_a_checksum_error() {
    let mut pkt = Packet::new().id(sample_id()).data(vec![10, 20, 30]);
    let mut frame = kiss_tx_frame(&mut pkt);
    frame[6] ^= 0x01;
    let mut rx = KissIntfDataRx::new();
    let out = feed(&mut rx, &frame);
    assert_eq!(out.len(), 1);
    assert_eq!(out[0].as_ref().unwrap_err(), &Error::CspChecksumError);
}

#[test]
fn garbage_before_a_frame_is_skipped() {
    let mut pkt = Packet::new().id(sample_id()).data(vec![7, 7]);
    let frame = kiss_tx_frame(&mut pkt);
    let mut stream = vec![1, 2, 3, 0xDB, 0xDD];
    stream.extend_from_slice(&frame);
    let mut rx = KissIntfDataRx::new();
    let out = feed(&mut rx, &stream);
    assert_eq!(out.len(), 1);
    assert_eq!(out[0].as_ref().unwrap().data, vec![7, 7]);
}

#[test]
fn oversized_frame_is_skipped_up_to_its_end() {
    let mut rx = KissIntfDataRx::new();
    let mut big = vec![0xC0, 0x00];
    big.extend(std::iter::repeat(0x11).take(300));
    big.push(0xC0);
    let out = feed(&mut rx, &big);
    assert!(out.is_empty());
    assert_eq!(rx.rx_mode, CspKissMode::KissModeNotStarted);
    let mut pkt = Packet::new().id(sample_id()).data(vec![1, 2, 3, 4]);
    let out = feed(&mut rx, &kiss_tx_frame(&mut pkt));
    assert_eq!(out.len(), 1);
    assert_eq!(out[0].as_ref().unwrap().data, vec![1, 2, 3, 4]);
}

#[test]
fn process_rx_stops_at_first_frame() {
    let mut a = Packet::new().id(sample_id()).data(vec![1]);
    let mut b = Packet::new().id(sample_id()).data(vec![2]);
    let mut stream = kiss_tx_frame(&mut a);
    stream.extend(kiss_tx_frame(&mut b));
    let mut rx = KissIntfDataRx::new();
    let n = stream.len();
    let r = kiss_process_rx(stream, n, &mut rx).unwrap();
    assert_eq!(r.data, vec![1]);
}

#[test]
fn frame_check_with_given_checksum() {
    let body = vec![0x82, 0x20, 0x5b, 0x00, 9, 8, 7, 0x12, 0x34, 0x56, 0x78];
    let ok = kiss_frame_check(&body, 0x1234_5678).unwrap();
    assert_eq!(ok.data, vec![9, 8, 7]);
    assert_eq!(ok.id.sport, 27);
    assert_eq!(ok.id.pri, Priorities::PrioNormal);
    assert_eq!(kiss_frame_check(&body, 0x1234_5679).unwrap_err(), Error::CspChecksumError);
    assert_eq!(kiss_frame_check(&body[..8].to_vec(), 0).unwrap_err(), Error::CspFramingError);
}

#[test]
fn frame_decode_computes_the_checksum() {
    let payload = vec![5u8, 6, 7];
    let crc = csp_crc32_calc(&payload);
    let mut body = vec![0x82, 0x20, 0x5b, 0x00];
    body.extend_from_slice(&payload);
    body.extend_from_slice(&crc.to_be_bytes());
    let p = kiss_frame_decode(&body).unwrap();
    assert_eq!(p.data, payload);
    body[5] ^= 0x80;
    assert_eq!(kiss_frame_decode(&body).unwrap_err(), Error::CspChecksumError);
}

#[test]
fn rx_bytes_returns_every_frame_in_order() {
    let mut a = Packet::new().id(sample_id()).data(vec![1]);
    let mut b = Packet::new().id(sample_id()).data(vec![2, 3]);
    let mut stream = kiss_tx_frame(&mut a);
    stream.extend(kiss_process_tx(&[0, 1, 2], 3));
    stream.extend(kiss_tx_frame(&mut b));
    let mut rx = KissIntfDataRx::new();
    let out = rx.kiss_rx_bytes(&stream);
    assert_eq!(out.len(), 3);
    assert_eq!(out[0].as_ref().unwrap().data, vec![1]);
    assert_eq!(out[1].as_ref().unwrap_err(), &Error::CspFramingError);
    assert_eq!(out[2].as_ref().unwrap().data, vec![2, 3]);
    assert_eq!(rx.rx_mode, CspKissMode::KissModeNotStarted);
}

#[test]
fn process_rx_short_frame_then_recovers() {
    let mut rx = KissIntfDataRx::new();
    let short = kiss_process_tx(&[0, 1, 2, 3], 4);
    let n = short.len();
    assert_eq!(kiss_process_rx(short, n, &mut rx).unwrap_err(), Error::CspFramingError);
    assert_eq!(rx.rx_mode, CspKissMode::KissModeNotStarted);
    let mut pkt = Packet::new().id(sample_id()).data(vec![9, 9, 9]);
    let good = kiss_tx_frame(&mut pkt);
    let n = good.len();
    let got = kiss_process_rx(good, n, &mut rx).unwrap();
    assert_eq!(got.id, sample_id());
    assert_eq!(got.data, vec![9, 9, 9]);
}
