use s3same::base64::{b64_decode, b64_encode, to_u64};
use s3same::errors::ToU64Error;

fn encode_to_string(bytes: &[u8]) -> String {
    String::from_utf8(b64_encode(bytes)).unwrap()
}

#[test]
fn encode_known_vectors() {
    assert_eq!(encode_to_string(b""), "");
    assert_eq!(encode_to_string(&[1, 2, 3]), "AQID");
    assert_eq!(encode_to_string(b"Man"), "TWFu");
    assert_eq!(encode_to_string(b"Ma"), "TWE=");
    assert_eq!(encode_to_string(b"M"), "TQ==");
}

#[test]
fn decode_known_vectors() {
    assert_eq!(b64_decode(b"TWFu"), Some(b"Man".to_vec()));
    assert_eq!(b64_decode(b"TWE="), Some(b"Ma".to_vec()));
    assert_eq!(b64_decode(b"TQ=="), Some(b"M".to_vec()));
    assert_eq!(b64_decode(b""), Some(Vec::new()));
}

#[test]
fn decode_rejects_malformed() {
    assert_eq!(b64_decode(b"TWF"), None);
    assert_eq!(b64_decode(b"TW?u"), None);
    assert_eq!(b64_decode(b"=AAA"), None);
    assert_eq!(b64_decode(b"A==="), None);
    assert_eq!(b64_decode(b"TQ==TWFu"), None);
}

#[test]
fn decode_rejects_nonzero_padding_bits() {
    // 'B' carries a set bit below the padding boundary: not canonical.
    assert_eq!(b64_decode(b"TWB="), None);
    assert_eq!(b64_decode(b"TB=="), None);
}

#[test]
fn to_u64_decodes_eight_bytes() {
    assert_eq!(to_u64("AAAAAAAAAAE="), Ok(1));
    assert_eq!(to_u64(&encode_to_string(&[0xAB; 8])), Ok(0xABABABABABABABAB));
}

#[test]
fn to_u64_round_trips_any_eight_byte_buffer() {
    let buffers: [[u8; 8]; 4] = [
        [0, 0, 0, 0, 0, 0, 0, 0],
        [1, 2, 3, 4, 5, 6, 7, 8],
        [0xFF, 0xFF, 0xFF, 0xFF, 0xFF, 0xFF, 0xFF, 0xFF],
        [0xDE, 0xAD, 0xBE, 0xEF, 0x01, 0x23, 0x45, 0x67],
    ];
    for bytes in buffers {
        let text = encode_to_string(&bytes);
        assert_eq!(to_u64(&text), Ok(u64::from_be_bytes(bytes)));
    }
}

#[test]
fn to_u64_rejects_seven_raw_bytes() {
    // Seven raw bytes: two full blocks and a two-pad block.
    let text = encode_to_string(&[9; 7]);
    assert!(matches!(to_u64(&text), Err(ToU64Error::ConversionError(_))));
}

#[test]
fn to_u64_rejects_nine_raw_bytes() {
    // Nine raw bytes: three full blocks, no padding.
    let text = encode_to_string(&[9; 9]);
    assert!(matches!(to_u64(&text), Err(ToU64Error::ConversionError(_))));
}

#[test]
fn to_u64_rejects_empty_text() {
    assert!(matches!(to_u64(""), Err(ToU64Error::ConversionError(_))));
}

#[test]
fn to_u64_rejects_invalid_base64() {
    assert!(matches!(to_u64("not base64!!"), Err(ToU64Error::DecodeError(_))));
    assert!(matches!(to_u64("AAAAAAAAAAE"), Err(ToU64Error::DecodeError(_))));
}
