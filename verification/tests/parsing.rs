use uuid::adapter::{Braced, Hyphenated, Simple, Urn};
use uuid::diagnose::{diagnose, Fault};
use uuid::parser::{parse_hyphenated, parse_simple};
use uuid::text::try_parse;
use uuid::{Expected, ParseError, Uuid, UuidVariant, UuidVersion};

fn new() -> Uuid {
    Uuid::from_bytes([
        0xF9, 0x16, 0x8C, 0x5E, 0xCE, 0xB2, 0x4F, 0xAA, 0xB6, 0xBF, 0x32, 0x9B, 0xF3, 0x9F, 0xA1,
        0xE4,
    ])
}

fn expected_uuid_lengths() -> Expected {
    Expected::Any(vec![Simple::LENGTH, Hyphenated::LENGTH, Braced::LENGTH, Urn::LENGTH])
}

fn expected_group_counts() -> Expected {
    Expected::Any(vec![1, 5])
}

const EXPECTED_CHARS: &'static str = "0123456789abcdefABCDEF-";

fn invalid_length(found: usize) -> ParseError {
    ParseError::InvalidLength { expected: expected_uuid_lengths(), found }
}

fn invalid_character(found: char, index: usize) -> ParseError {
    ParseError::InvalidCharacter { expected: EXPECTED_CHARS, found, index }
}

fn invalid_groups(found: usize) -> ParseError {
    ParseError::InvalidGroupCount { expected: expected_group_counts(), found }
}

fn invalid_group_length(group: usize, found: usize, expecting: usize) -> ParseError {
    ParseError::InvalidGroupLength { expected: Expected::Exact(expecting), found, group }
}

#[test]
fn lib_test_parse_uuid_v4() {
    // Invalid
    assert_eq!(Uuid::parse_str(""), Err(invalid_length(0)));
    assert_eq!(Uuid::parse_str("!"), Err(invalid_length(1)));
    assert_eq!(Uuid::parse_str("F9168C5E-CEB2-4faa-B6BF-329BF39FA1E45"), Err(invalid_length(37)));
    assert_eq!(Uuid::parse_str("F9168C5E-CEB2-4faa-BBF-329BF39FA1E4"), Err(invalid_length(35)));
    assert_eq!(Uuid::parse_str("F9168C5E-CEB2-4faa-BGBF-329BF39FA1E4"), Err(invalid_character('G', 20)));
    assert_eq!(Uuid::parse_str("F9168C5E-CEB2F4faaFB6BFF329BF39FA1E4"), Err(invalid_groups(2)));
    assert_eq!(Uuid::parse_str("F9168C5E-CEB2-4faaFB6BFF329BF39FA1E4"), Err(invalid_groups(3)));
    assert_eq!(Uuid::parse_str("F9168C5E-CEB2-4faa-B6BFF329BF39FA1E4"), Err(invalid_groups(4)));
    assert_eq!(Uuid::parse_str("F9168C5E-CEB2-4faa"), Err(invalid_length(18)));
    assert_eq!(Uuid::parse_str("F9168C5E-CEB2-4faaXB6BFF329BF39FA1E4"), Err(invalid_character('X', 18)));
    assert_eq!(Uuid::parse_str("F9168C5E-CEB-24fa-eB6BFF32-BF39FA1E4"), Err(invalid_group_length(1, 3, 4)));
    assert_eq!(Uuid::parse_str("01020304-1112-2122-3132-41424344"), Err(invalid_group_length(4, 8, 12)));
    assert_eq!(Uuid::parse_str("67e5504410b1426f9247bb680e5fe0c"), Err(invalid_length(31)));
    assert_eq!(Uuid::parse_str("67e5504410b1426f9247bb680e5fe0c88"), Err(invalid_length(33)));
    assert_eq!(Uuid::parse_str("67e5504410b1426f9247bb680e5fe0cg8"), Err(invalid_length(33)));
    assert_eq!(Uuid::parse_str("67e5504410b1426%9247bb680e5fe0c8"), Err(invalid_character('%', 15)));
    assert_eq!(Uuid::parse_str("231231212212423424324323477343246663"), Err(invalid_length(36)));

    // Valid
    assert!(Uuid::parse_str("00000000000000000000000000000000").is_ok());
    assert!(Uuid::parse_str("67e55044-10b1-426f-9247-bb680e5fe0c8").is_ok());
    assert!(Uuid::parse_str("F9168C5E-CEB2-4faa-B6BF-329BF39FA1E4").is_ok());
    assert!(Uuid::parse_str("67e5504410b1426f9247bb680e5fe0c8").is_ok());
    assert!(Uuid::parse_str("01020304-1112-2122-3132-414243444546").is_ok());
    assert!(Uuid::parse_str("urn:uuid:67e55044-10b1-426f-9247-bb680e5fe0c8").is_ok());

    // Nil
    let nil = Uuid::nil();
    assert_eq!(Uuid::parse_str("00000000000000000000000000000000").unwrap(), nil);
    assert_eq!(Uuid::parse_str("00000000-0000-0000-0000-000000000000").unwrap(), nil);

    // Round-trip
    let uuid_orig = new();
    let orig_str = uuid_orig.to_string();
    let uuid_out = Uuid::parse_str(&orig_str).unwrap();
    assert_eq!(uuid_orig, uuid_out);

    // Test error reporting
    assert_eq!(Uuid::parse_str("67e5504410b1426f9247bb680e5fe0c"), Err(invalid_length(31)));
    assert_eq!(Uuid::parse_str("67e550X410b1426f9247bb680e5fe0cd"), Err(invalid_character('X', 6)));
    assert_eq!(Uuid::parse_str("67e550-4105b1426f9247bb680e5fe0c"), Err(invalid_group_length(0, 6, 8)));
    assert_eq!(Uuid::parse_str("F9168C5E-CEB2-4faa-B6BF1-02BF39FA1E4"), Err(invalid_group_length(3, 5, 4)));
}

#[test]
fn parser_test_parse_uuid_v4() {
    // Invalid
    assert_eq!(
        Uuid::parse_str(""),
        Err(ParseError::InvalidLength { expected: expected_uuid_lengths(), found: 0 })
    );

    assert_eq!(
        Uuid::parse_str("!"),
        Err(ParseError::InvalidLength { expected: expected_uuid_lengths(), found: 1 })
    );

    assert_eq!(
        Uuid::parse_str("F9168C5E-CEB2-4faa-B6BF-329BF39FA1E45"),
        Err(ParseError::InvalidLength { expected: expected_uuid_lengths(), found: 37 })
    );

    assert_eq!(
        Uuid::parse_str("F9168C5E-CEB2-4faa-BBF-329BF39FA1E4"),
        Err(ParseError::InvalidLength { expected: expected_uuid_lengths(), found: 35 })
    );

    assert_eq!(
        Uuid::parse_str("F9168C5E-CEB2-4faa-BGBF-329BF39FA1E4"),
        Err(ParseError::InvalidCharacter { expected: EXPECTED_CHARS, found: 'G', index: 20 })
    );

    assert_eq!(
        Uuid::parse_str("F9168C5E-CEB2F4faaFB6BFF329BF39FA1E4"),
        Err(ParseError::InvalidGroupCount { expected: expected_group_counts(), found: 2 })
    );

    assert_eq!(
        Uuid::parse_str("F9168C5E-CEB2-4faaFB6BFF329BF39FA1E4"),
        Err(ParseError::InvalidGroupCount { expected: expected_group_counts(), found: 3 })
    );

    assert_eq!(
        Uuid::parse_str("F9168C5E-CEB2-4faa-B6BFF329BF39FA1E4"),
        Err(ParseError::InvalidGroupCount { expected: expected_group_counts(), found: 4 })
    );

    assert_eq!(
        Uuid::parse_str("F9168C5E-CEB2-4faa"),
        Err(ParseError::InvalidLength { expected: expected_uuid_lengths(), found: 18 })
    );

    assert_eq!(
        Uuid::parse_str("F9168C5E-CEB2-4faaXB6BFF329BF39FA1E4"),
        Err(ParseError::InvalidCharacter { expected: EXPECTED_CHARS, found: 'X', index: 18 })
    );

    assert_eq!(
        Uuid::parse_str("F9168C5E-CEB-24fa-eB6BFF32-BF39FA1E4"),
        Err(ParseError::InvalidGroupLength { expected: Expected::Exact(4), found: 3, group: 1 })
    );
    // (group, found, expecting)
    //
    assert_eq!(
        Uuid::parse_str("01020304-1112-2122-3132-41424344"),
        Err(ParseError::InvalidGroupLength { expected: Expected::Exact(12), found: 8, group: 4 })
    );

    assert_eq!(
        Uuid::parse_str("67e5504410b1426f9247bb680e5fe0c"),
        Err(ParseError::InvalidLength { expected: expected_uuid_lengths(), found: 31 })
    );

    assert_eq!(
        Uuid::parse_str("67e5504410b1426f9247bb680e5fe0c88"),
        Err(ParseError::InvalidLength { expected: expected_uuid_lengths(), found: 33 })
    );

    assert_eq!(
        Uuid::parse_str("67e5504410b1426f9247bb680e5fe0cg8"),
        Err(ParseError::InvalidLength { expected: expected_uuid_lengths(), found: 33 })
    );

    assert_eq!(
        Uuid::parse_str("67e5504410b1426%9247bb680e5fe0c8"),
        Err(ParseError::InvalidCharacter { expected: EXPECTED_CHARS, found: '%', index: 15 })
    );

    assert_eq!(
        Uuid::parse_str("231231212212423424324323477343246663"),
        Err(ParseError::InvalidLength { expected: expected_uuid_lengths(), found: 36 })
    );

    // Valid
    assert!(Uuid::parse_str("00000000000000000000000000000000").is_ok());
    assert!(Uuid::parse_str("67e55044-10b1-426f-9247-bb680e5fe0c8").is_ok());
    assert!(Uuid::parse_str("F9168C5E-CEB2-4faa-B6BF-329BF39FA1E4").is_ok());
    assert!(Uuid::parse_str("67e5504410b1426f9247bb680e5fe0c8").is_ok());
    assert!(Uuid::parse_str("01020304-1112-2122-3132-414243444546").is_ok());
    assert!(Uuid::parse_str("urn:uuid:67e55044-10b1-426f-9247-bb680e5fe0c8").is_ok());

    // Nil
    let nil = Uuid::nil();
    assert_eq!(Uuid::parse_str("00000000000000000000000000000000").unwrap(), nil);
    assert_eq!(Uuid::parse_str("00000000-0000-0000-0000-000000000000").unwrap(), nil);

    // Round-trip
    let uuid_orig = new();
    let orig_str = uuid_orig.to_string();
    let uuid_out = Uuid::parse_str(&orig_str).unwrap();
    assert_eq!(uuid_orig, uuid_out);

    // Test error reporting
    assert_eq!(
        Uuid::parse_str("67e5504410b1426f9247bb680e5fe0c"),
        Err(ParseError::InvalidLength { expected: expected_uuid_lengths(), found: 31 })
    );
    assert_eq!(
        Uuid::parse_str("67e550X410b1426f9247bb680e5fe0cd"),
        Err(ParseError::InvalidCharacter { expected: EXPECTED_CHARS, found: 'X', index: 6 })
    );
    assert_eq!(
        Uuid::parse_str("67e550-4105b1426f9247bb680e5fe0c"),
        Err(ParseError::InvalidGroupLength { expected: Expected::Exact(8), found: 6, group: 0 })
    );
    assert_eq!(
        Uuid::parse_str("F9168C5E-CEB2-4faa-B6BF1-02BF39FA1E4"),
        Err(ParseError::InvalidGroupLength { expected: Expected::Exact(4), found: 5, group: 3 })
    );
}

#[test]
fn parses_the_version_and_variant_of_a_random_identifier() {
    let uuid = Uuid::parse_str("F9168C5E-CEB2-4faa-B6BF-329BF39FA1E4").unwrap();
    assert_eq!(uuid.get_variant(), UuidVariant::RFC4122);
    assert_eq!(uuid.get_version(), Some(UuidVersion::Random));
    assert_eq!(uuid.get_version_num(), 4);
    assert_eq!(uuid, new());
}

#[test]
fn braced_and_urn_texts_are_accepted() {
    let expected = new();
    assert_eq!(Uuid::parse_str("{F9168C5E-CEB2-4faa-B6BF-329BF39FA1E4}"), Ok(expected));
    assert_eq!(Uuid::parse_str("urn:uuid:F9168C5E-CEB2-4faa-B6BF-329BF39FA1E4"), Ok(expected));
    assert_eq!(try_parse("f9168c5eceb24faab6bf329bf39fa1e4"), Ok(*expected.as_bytes()));
}

#[test]
fn faults_in_wrapped_texts_are_placed_in_the_whole_text() {
    assert_eq!(
        Uuid::parse_str("urn:uuid:F9168C5E-CEB2-4faa-BGBF-329BF39FA1E4"),
        Err(invalid_character('G', 29))
    );
    assert_eq!(
        Uuid::parse_str("{F9168C5E-CEB2-4faa-BGBF-329BF39FA1E4}"),
        Err(invalid_character('G', 21))
    );
    assert_eq!(
        Uuid::parse_str("{F9168C5E-CEB-24fa-eB6BFF32-BF39FA1E4}"),
        Err(invalid_group_length(1, 3, 4))
    );
    // The length of a wrapped spelling without its wrapping is no spelling.
    assert_eq!(
        Uuid::parse_str("[F9168C5E-CEB2-4faa-B6BF-329BF39FA1E4]"),
        Err(invalid_length(38))
    );
    assert_eq!(
        Uuid::parse_str("urn_uuid:F9168C5E-CEB2-4faa-B6BF-329BF39FA1E4"),
        Err(invalid_length(45))
    );
}

#[test]
fn a_character_beyond_ascii_is_reported_whole() {
    // thirty bytes of digits, then a character of two bytes
    assert_eq!(
        Uuid::parse_str("67e5504410b1426f9247bb680e5fe0\u{e9}"),
        Err(invalid_character('\u{e9}', 30))
    );
}

#[test]
fn a_text_with_too_few_hyphens_names_the_open_group() {
    // thirty-two bytes, one hyphen in its place: group 1 is left open with 23 digits
    assert_eq!(
        Uuid::parse_str("01020304-11122122313241424344454"),
        Err(invalid_group_length(1, 23, 4))
    );
}

#[test]
fn the_scan_reports_positions() {
    assert_eq!(diagnose(b"!"), Fault::Length { found: 1 });
    assert_eq!(
        diagnose(b"F9168C5E-CEB2-4faa-BGBF-329BF39FA1E4"),
        Fault::Character { index: 20 }
    );
    assert_eq!(
        diagnose(b"F9168C5E-CEB2F4faaFB6BFF329BF39FA1E4"),
        Fault::GroupCount { found: 2 }
    );
    assert_eq!(
        diagnose(b"F9168C5E-CEB2-4faa-B6BF1-02BF39FA1E4"),
        Fault::GroupLength { group: 3, found: 5, expected: 4 }
    );
}

#[test]
fn the_strict_decoders_accept_only_their_own_spelling() {
    assert_eq!(parse_simple(b"f9168c5eceb24faab6bf329bf39fa1e4"), Ok(*new().as_bytes()));
    assert_eq!(parse_simple(b"F9168C5E-CEB2-4faa-B6BF-329BF39FA1E4"), Err(()));
    assert_eq!(parse_simple(b"f9168c5eceb24faab6bf329bf39fa1eg"), Err(()));
    assert_eq!(parse_hyphenated(b"F9168C5E-CEB2-4faa-B6BF-329BF39FA1E4"), Ok(*new().as_bytes()));
    assert_eq!(parse_hyphenated(b"F9168C5E-CEB2-4faa-B6BF+329BF39FA1E4"), Err(()));
    assert_eq!(parse_hyphenated(b"F9168C5E-CEB2-4faa-B6BF-329BF39FA1E-"), Err(()));
    assert_eq!(parse_hyphenated(b"f9168c5eceb24faab6bf329bf39fa1e4"), Err(()));
}
