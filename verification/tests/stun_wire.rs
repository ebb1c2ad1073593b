use lumina::addr::{Endpoint4, ipv4_from_octets};
use lumina::stun::{build_stun_request, new_stun_request, parse_stun_response, stun_response_in_bounds, StunError};

fn header() -> Vec<u8> {
    let mut b = vec![0x01, 0x01, 0x00, 0x0c, 0x21, 0x12, 0xA4, 0x42];
    b.extend_from_slice(&[7u8; 12]);
    b
}

fn padded(mut v: Vec<u8>) -> Vec<u8> {
    v.resize(1024, 0);
    v
}

#[test]
fn stun_request_layout() {
    let txn = [1u8, 2, 3, 4, 5, 6, 7, 8, 9, 10, 11, 12];
    let req = build_stun_request(&txn);
    assert_eq!(&req[..8], &[0x00, 0x01, 0x00, 0x00, 0x21, 0x12, 0xA4, 0x42]);
    assert_eq!(&req[8..], &txn);
    let r = new_stun_request();
    assert_eq!(&r[..8], &[0x00, 0x01, 0x00, 0x00, 0x21, 0x12, 0xA4, 0x42]);
}

#[test]
fn stun_xor_mapped_address() {
    // 203.0.113.5:54321 XOR-mapped
    let port: u16 = 54321 ^ 0x2112;
    let mut b = header();
    b.extend_from_slice(&[0x00, 0x20, 0x00, 0x08, 0x00, 0x01]);
    b.extend_from_slice(&port.to_be_bytes());
    b.extend_from_slice(&[203 ^ 0x21, 0 ^ 0x12, 113 ^ 0xA4, 5 ^ 0x42]);
    let len = b.len();
    let buf = padded(b);
    assert!(stun_response_in_bounds(&buf, len));
    let addr = parse_stun_response(&buf, len).unwrap();
    assert_eq!(addr, Endpoint4 { ip: ipv4_from_octets(203, 0, 113, 5), port: 54321 });
}

#[test]
fn stun_mapped_address_after_other_attribute() {
    let mut b = header();
    // SOFTWARE attribute of 5 bytes, padded to 8
    b.extend_from_slice(&[0x80, 0x22, 0x00, 0x05, b'h', b'e', b'l', b'l', b'o', 0, 0, 0]);
    b.extend_from_slice(&[0x00, 0x01, 0x00, 0x08, 0x00, 0x01, 0x1f, 0x90, 10, 0, 0, 7]);
    let len = b.len();
    let buf = padded(b);
    let addr = parse_stun_response(&buf, len).unwrap();
    assert_eq!(addr, Endpoint4 { ip: ipv4_from_octets(10, 0, 0, 7), port: 8080 });
}

#[test]
fn stun_ipv6_attribute_is_skipped() {
    let mut b = header();
    b.extend_from_slice(&[0x00, 0x20, 0x00, 0x14, 0x00, 0x02]);
    b.extend_from_slice(&[0u8; 18]);
    let len = b.len();
    let buf = padded(b);
    assert_eq!(parse_stun_response(&buf, len), Err(StunError::NoAddress));
}

#[test]
fn stun_errors() {
    let buf = padded(vec![0; 19]);
    assert_eq!(parse_stun_response(&buf, 19), Err(StunError::TooShort));
    assert_eq!(StunError::TooShort.message(), "STUN response too short");
    let mut b = header();
    b[6] = 0;
    let buf = padded(b);
    assert_eq!(parse_stun_response(&buf, 20), Err(StunError::BadMagicCookie));
    assert_eq!(StunError::BadMagicCookie.message(), "Invalid STUN magic cookie received");
    let buf = padded(header());
    assert_eq!(parse_stun_response(&buf, 20), Err(StunError::NoAddress));
    assert_eq!(StunError::NoAddress.message(), "STUN response did not contain a valid public address");
}

#[test]
fn stun_truncated_attribute_is_not_read() {
    let mut b = header();
    // attribute claims 12 bytes but only 8 follow
    b.extend_from_slice(&[0x00, 0x20, 0x00, 0x0c, 0x00, 0x01, 0, 0, 0, 0, 0, 0]);
    let len = b.len();
    let buf = padded(b);
    assert_eq!(parse_stun_response(&buf, len), Err(StunError::NoAddress));
}

#[test]
fn stun_read_past_buffer_is_detected() {
    let mut b = header();
    b.extend_from_slice(&[0x00, 0x20, 0x00, 0x00]);
    let len = b.len();
    // exactly `len` bytes: the family byte after the attribute header is missing
    assert!(!stun_response_in_bounds(&b, len));
    let buf = padded(b);
    assert!(stun_response_in_bounds(&buf, len));
}

#[test]
fn stun_wrong_cookie_is_refused_before_attributes() {
    let mut b = header();
    b[4] = 0x00;
    b.extend_from_slice(&[0x00, 0x20, 0x00, 0x00]);
    let len = b.len();
    // the attribute would be read past the buffer, but the cookie is checked first
    assert!(stun_response_in_bounds(&b, len));
    assert_eq!(parse_stun_response(&b, len), Err(StunError::BadMagicCookie));
}
