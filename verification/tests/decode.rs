use idl_fetch::errors::IdlError;
use idl_fetch::hashing::idl_discriminator;
use idl_fetch::record::{decode, encode_record, extract_payload};

fn framed(authority: Vec<u8>, payload: &[u8]) -> Vec<u8> {
    encode_record(&authority, &payload.to_vec())
}

#[test]
fn discriminator_matches_sha256_of_preimage() {
    let disc = idl_discriminator();
    let digest = solana_sdk::hash::hash("anchor:idl".as_bytes()).to_bytes();
    assert_eq!(disc.as_slice(), &digest[0..8]);
    // the tag is a digest, not the preimage itself
    assert_ne!(disc.as_slice(), &"anchor:idl".as_bytes()[0..8]);
}

#[test]
fn empty_buffer_too_short() {
    let r = decode(&Vec::new());
    assert!(matches!(r, Err(IdlError::TooShort)));
}

#[test]
fn eight_zero_bytes_too_short() {
    let r = decode(&vec![0u8; 8]);
    assert!(matches!(r, Err(IdlError::TooShort)));
}

#[test]
fn nine_zero_bytes_wrong_discriminator() {
    let r = decode(&vec![0u8; 9]);
    assert!(matches!(r, Err(IdlError::WrongDiscriminator)));
}

#[test]
fn wrong_discriminator_on_otherwise_valid_buffer() {
    let mut buf = framed(vec![0u8; 32], b"{}");
    buf[0] = buf[0].wrapping_add(1);
    let r = decode(&buf);
    assert!(matches!(r, Err(IdlError::WrongDiscriminator)));
}

#[test]
fn correct_discriminator_but_short_header() {
    let mut buf = idl_discriminator();
    buf.extend_from_slice(&[0u8; 5]);
    assert!(matches!(decode(&buf), Err(IdlError::TooShort)));

    let mut buf = idl_discriminator();
    buf.extend_from_slice(&[0u8; 39]);
    assert_eq!(buf.len(), 47);
    assert!(matches!(decode(&buf), Err(IdlError::TooShort)));
}

#[test]
fn declared_length_exceeds_buffer() {
    // header declares 5 payload bytes but only 3 follow
    let mut buf = idl_discriminator();
    buf.extend_from_slice(&[0u8; 32]);
    buf.extend_from_slice(&5u64.to_le_bytes());
    buf.extend_from_slice(b"abc");
    assert!(matches!(decode(&buf), Err(IdlError::Truncated)));

    // header declares 1 payload byte but none follow
    let mut buf = idl_discriminator();
    buf.extend_from_slice(&[0u8; 32]);
    buf.extend_from_slice(&1u64.to_le_bytes());
    assert!(matches!(decode(&buf), Err(IdlError::Truncated)));
}

#[test]
fn empty_payload_is_malformed_document() {
    let mut buf = idl_discriminator();
    buf.extend_from_slice(&[0u8; 32]);
    buf.extend_from_slice(&0u64.to_le_bytes());
    assert_eq!(buf.len(), 48);
    assert!(matches!(decode(&buf), Err(IdlError::MalformedDocument(_))));
}

#[test]
fn empty_object_payload_decodes() {
    let authority: Vec<u8> = (1u8..=32).collect();
    let buf = framed(authority, b"{}");
    let doc = decode(&buf).unwrap();
    assert_eq!(doc, serde_json::Value::Object(serde_json::Map::new()));
}

#[test]
fn bad_json_payload_malformed_document() {
    let buf = framed(vec![0u8; 32], b"{invalid");
    assert!(matches!(decode(&buf), Err(IdlError::MalformedDocument(_))));
}

#[test]
fn invalid_utf8_payload_malformed_document() {
    let buf = framed(vec![0u8; 32], &[0xff, 0xfe, 0x22]);
    assert!(matches!(decode(&buf), Err(IdlError::MalformedDocument(_))));
}

#[test]
fn round_trip_document() {
    let text = "{\"version\":\"0.1.0\",\"name\":\"demo\",\"instructions\":[{\"name\":\"init\"}]}";
    let doc: serde_json::Value = serde_json::from_str(text).unwrap();
    let payload = serde_json::to_vec(&doc).unwrap();
    let buf = framed(vec![7u8; 32], &payload);
    let decoded = decode(&buf).unwrap();
    assert_eq!(decoded, doc);
}

#[test]
fn trailing_bytes_ignored() {
    let doc: serde_json::Value = serde_json::from_str("{\"name\":\"demo\"}").unwrap();
    let payload = serde_json::to_vec(&doc).unwrap();
    let mut buf = framed(vec![9u8; 32], &payload);
    let plain = decode(&buf).unwrap();
    buf.extend_from_slice(&[0xde, 0xad, 0xbe, 0xef, 0x00, 0x7b]);
    let padded = decode(&buf).unwrap();
    assert_eq!(plain, padded);
}

#[test]
fn encode_record_layout_is_exact() {
    let authority: Vec<u8> = (100u8..132).collect();
    let payload = b"{\"a\":1}";
    let buf = framed(authority.clone(), payload);
    assert_eq!(buf.len(), 48 + payload.len());
    assert_eq!(&buf[0..8], idl_discriminator().as_slice());
    assert_eq!(&buf[8..40], authority.as_slice());
    assert_eq!(&buf[40..48], &(payload.len() as u64).to_le_bytes());
    assert_eq!(&buf[48..], payload.as_slice());
}

#[test]
fn extract_payload_returns_declared_window() {
    let buf = framed(vec![3u8; 32], b"[1,2,3]");
    let payload = extract_payload(&buf).unwrap();
    assert_eq!(payload.as_slice(), b"[1,2,3]");
}
