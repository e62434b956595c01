use csp::crc32::csp_crc32_verify;
use csp::utils::csp_crc32_append;

#[test]
fn appended_checksum_verifies() {
    for n in 0..40usize {
        let mut data: Vec<u8> = (0..n).map(|i| (i * 37 + 5) as u8).collect();
        let len = csp_crc32_append(&mut data, n);
        assert_eq!(len, n + 4);
        assert_eq!(data.len(), n + 4);
        assert!(csp_crc32_verify(&data));
    }
}

#[test]
fn any_single_bit_flip_fails_verification() {
    let mut data = b"hello, cubesat".to_vec();
    let n = data.len();
    csp_crc32_append(&mut data, n);
    for i in 0..data.len() {
        for bit in 0..8 {
            let mut flipped = data.clone();
            flipped[i] ^= 1 << bit;
            assert!(!csp_crc32_verify(&flipped), "byte {} bit {}", i, bit);
        }
    }
}

#[test]
fn short_input_never_verifies() {
    assert!(!csp_crc32_verify(&[]));
    assert!(!csp_crc32_verify(&[0, 0, 0]));
    assert!(csp_crc32_verify(&[0, 0, 0, 0]));
}

#[test]
fn crc32_append_trailer_value() {
    let mut data = b"123456789".to_vec();
    assert_eq!(csp_crc32_append(&mut data, 9), 13);
    assert_eq!(data[9..], [0xE3, 0x06, 0x92, 0x83]);
}
