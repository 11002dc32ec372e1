use uuid::error::{len_matches_any, len_matches_range};
use uuid::hex::{generate_lookup_table, generate_shl4_table, hex_digit, NOT_HEX};
use uuid::{BytesError, Error, Expected, ParseError, Uuid, UuidVariant};

#[test]
fn lookup_table_holds_the_value_of_each_digit() {
    let table = generate_lookup_table();
    for b in 0..=255u8 {
        let expected = match b {
            b'0'..=b'9' => b - b'0',
            b'a'..=b'f' => b - b'a' + 10,
            b'A'..=b'F' => b - b'A' + 10,
            _ => 0xff,
        };
        assert_eq!(table[b as usize], expected);
        assert_eq!(hex_digit(b), expected);
    }
    assert_eq!(table[b'G' as usize], NOT_HEX);
    assert_eq!(table[b'f' as usize], 15);
}

#[test]
fn shift_table_holds_each_byte_shifted() {
    let table = generate_shl4_table();
    for b in 0..=255u8 {
        assert_eq!(table[b as usize], b.wrapping_shl(4));
    }
    assert_eq!(table[0x0a], 0xa0);
    assert_eq!(table[0x1f], 0xf0);
}

#[test]
fn lengths_match_their_criteria() {
    assert!(len_matches_any(36, &[32, 36]));
    assert!(!len_matches_any(35, &[32, 36]));
    assert!(!len_matches_any(35, &[]));
    assert!(len_matches_range(5, 5, 7));
    assert!(len_matches_range(7, 5, 7));
    assert!(!len_matches_range(8, 5, 7));
    assert!(!len_matches_range(4, 5, 7));
    assert!(Expected::Any(vec![1, 5]).admits(5));
    assert!(!Expected::Any(vec![1, 5]).admits(2));
    assert!(Expected::Exact(4).admits(4));
    assert!(!Expected::Exact(4).admits(5));
    assert!(Expected::Range { min: 2, max: 3 }.admits(3));
    assert!(!Expected::Range { min: 2, max: 3 }.admits(4));
}

#[test]
fn errors_are_put_in_words() {
    assert_eq!(
        Uuid::parse_str("F9168C5E-CEB2-4faa-BGBF-329BF39FA1E4").unwrap_err().to_string(),
        "invalid character: expected an optional prefix of `urn:uuid:` followed by 0123456789abcdefABCDEF-, found G at 20"
    );
    assert_eq!(
        Uuid::parse_str("F9168C5E-CEB2F4faaFB6BFF329BF39FA1E4").unwrap_err().to_string(),
        "invalid number of groups: expected one of [1, 5], found 2"
    );
    assert_eq!(
        Uuid::parse_str("01020304-1112-2122-3132-41424344").unwrap_err().to_string(),
        "invalid group length: expected 12, found 8 in group 4"
    );
    assert_eq!(
        Uuid::parse_str("").unwrap_err().to_string(),
        "invalid length: expected one of [32, 36, 38, 45], found 0"
    );
    assert_eq!(Expected::Range { min: 2, max: 1234567890 }.to_string(), "2..1234567890");
    assert_eq!(Expected::Any(vec![]).to_string(), "one of []");
    assert_eq!(Expected::Any(vec![7]).to_string(), "one of [7]");
    assert_eq!(BytesError::new(16, 8).to_string(), "invalid bytes length: expected 16, found 8");
    assert_eq!(
        Error::Bytes(BytesError::new(6, 105)).to_string(),
        "invalid bytes length: expected 6, found 105"
    );
    assert_eq!(
        Error::Parse(ParseError::InvalidLength { expected: Expected::Exact(36), found: 0 })
            .to_string(),
        "invalid length: expected 36, found 0"
    );
    assert_eq!(
        Error::Entropy { code: Some(11) }.to_string(),
        "could not retrieve random bytes for uuid"
    );
    assert_eq!(UuidVariant::NCS.to_string(), "NCS");
    assert_eq!(UuidVariant::RFC4122.to_string(), "RFC4122");
    assert_eq!(UuidVariant::Microsoft.to_string(), "Microsoft");
    assert_eq!(UuidVariant::Future.to_string(), "Future");
}
