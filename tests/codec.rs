use blc::codec::{Config, DecodeError, FORMAT_VERSION, HEADER_LEN};

#[test]
fn round_trip_keeps_every_field() {
    let c = Config::new("secret-token", 1_700_000_000_123);
    let bytes = c.encode();
    let d = Config::decode(&bytes).unwrap();
    assert_eq!(d.token(), "secret-token");
    assert_eq!(d.timestamp(), 1_700_000_000_123);
    assert_eq!(d.version(), FORMAT_VERSION);
    assert_eq!(d.token_len(), 12);
}

#[test]
fn round_trip_negative_timestamp_and_unicode_token() {
    let c = Config::new("tøken✓", -42);
    let d = Config::decode(&c.encode()).unwrap();
    assert_eq!(d.token(), "tøken✓");
    assert_eq!(d.timestamp(), -42);
    assert_eq!(d.token_len(), "tøken✓".len() as u32);
}

#[test]
fn round_trip_empty_token() {
    let c = Config::new("", 0);
    let bytes = c.encode();
    assert_eq!(bytes.len(), HEADER_LEN);
    let d = Config::decode(&bytes).unwrap();
    assert_eq!(d.token(), "");
}

#[test]
fn layout_is_big_endian_and_shifted() {
    let c = Config::new("af", 258);
    let bytes = c.encode();
    let want: Vec<u8> = vec![
        b'A', b'U', b'T', b'H', FORMAT_VERSION,
        0, 0, 0, 0, 0, 0, 1, 2,
        0, 0, 0, 2,
        b'a' - 5, b'f' - 5,
    ];
    assert_eq!(bytes, want);
}

#[test]
fn shift_wraps_below_zero() {
    // A token byte under the shift wraps around on disk: 0x03 is stored as 0xfe.
    let c = Config::new("\u{3}", 0);
    let bytes = c.encode();
    assert_eq!(bytes[HEADER_LEN], 0xfe);
    assert_eq!(Config::decode(&bytes).unwrap().token(), "\u{3}");
}

#[test]
fn decode_short_header_is_truncated() {
    assert!(matches!(Config::decode(&[]), Err(DecodeError::Truncated)));
    assert!(matches!(Config::decode(b"AUTH\0\0\0"), Err(DecodeError::Truncated)));
}

#[test]
fn decode_short_token_is_truncated() {
    let mut bytes = Config::new("abcdef", 1).encode();
    bytes.truncate(bytes.len() - 1);
    assert!(matches!(Config::decode(&bytes), Err(DecodeError::Truncated)));
}

#[test]
fn decode_huge_declared_length_is_truncated() {
    let mut bytes = Config::new("ab", 1).encode();
    bytes[13] = 0xff;
    assert!(matches!(Config::decode(&bytes), Err(DecodeError::Truncated)));
}

#[test]
fn decode_bad_magic() {
    let mut bytes = Config::new("ab", 1).encode();
    bytes[0] = b'X';
    assert_eq!(Config::decode(&bytes).err(), Some(DecodeError::BadMagic));
}

#[test]
fn decode_invalid_text() {
    let mut bytes = Config::new("ab", 1).encode();
    // 0xff + 5 wraps to 0x04, valid; 0xfa + 5 is 0xff, never valid UTF-8.
    bytes[HEADER_LEN] = 0xfa;
    assert_eq!(Config::decode(&bytes).err(), Some(DecodeError::InvalidText));
}

#[test]
fn decode_ignores_trailing_bytes() {
    let mut bytes = Config::new("tok", 7).encode();
    bytes.extend_from_slice(&[1, 2, 3]);
    assert_eq!(Config::decode(&bytes).unwrap().token(), "tok");
}

#[test]
fn new_uses_current_version() {
    let c = Config::new("t", 1_700_000_000_000);
    assert_eq!(c.version(), FORMAT_VERSION);
    assert_eq!(c.token(), "t");
    assert_eq!(c.timestamp(), 1_700_000_000_000);
}

#[test]
fn decode_other_format_version() {
    let mut bytes = Config::new("ab", 1).encode();
    bytes[4] = FORMAT_VERSION.wrapping_add(1);
    assert_eq!(Config::decode(&bytes).err(), Some(DecodeError::UnsupportedVersion));
}
