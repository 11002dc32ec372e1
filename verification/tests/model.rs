use uuid::ns::{namespace_dns, namespace_oid, namespace_url, namespace_x500};
use uuid::{BytesError, Uuid, UuidVariant, UuidVersion};

fn new() -> Uuid {
    Uuid::from_bytes([
        0xF9, 0x16, 0x8C, 0x5E, 0xCE, 0xB2, 0x4F, 0xAA, 0xB6, 0xBF, 0x32, 0x9B, 0xF3, 0x9F, 0xA1,
        0xE4,
    ])
}

#[test]
fn test_nil() {
    let nil = Uuid::nil();
    let not_nil = new();
    let from_bytes =
        Uuid::from_uuid_bytes([4, 54, 67, 12, 43, 2, 2, 76, 32, 50, 87, 5, 1, 33, 43, 87]);

    assert_eq!(from_bytes.get_version(), None);

    assert!(nil.is_nil());
    assert!(!not_nil.is_nil());

    assert_eq!(nil.get_version(), Some(UuidVersion::Nil));
    assert_eq!(not_nil.get_version(), Some(UuidVersion::Random))
}

#[test]
fn test_predefined_namespaces() {
    assert_eq!(
        namespace_dns().to_hyphenated().to_string(),
        "6ba7b810-9dad-11d1-80b4-00c04fd430c8"
    );
    assert_eq!(
        namespace_url().to_hyphenated().to_string(),
        "6ba7b811-9dad-11d1-80b4-00c04fd430c8"
    );
    assert_eq!(
        namespace_oid().to_hyphenated().to_string(),
        "6ba7b812-9dad-11d1-80b4-00c04fd430c8"
    );
    assert_eq!(
        namespace_x500().to_hyphenated().to_string(),
        "6ba7b814-9dad-11d1-80b4-00c04fd430c8"
    );
}

#[test]
fn test_get_version_v3() {
    let uuid = Uuid::new_v3(&namespace_dns(), "rust-lang.org");

    assert_eq!(uuid.get_version().unwrap(), UuidVersion::Md5);
    assert_eq!(uuid.get_version_num(), 3);
}

#[test]
fn test_get_variant() {
    let uuid1 = new();
    let uuid2 = Uuid::parse_str("550e8400-e29b-41d4-a716-446655440000").unwrap();
    let uuid3 = Uuid::parse_str("67e55044-10b1-426f-9247-bb680e5fe0c8").unwrap();
    let uuid4 = Uuid::parse_str("936DA01F9ABD4d9dC0C702AF85C822A8").unwrap();
    let uuid5 = Uuid::parse_str("F9168C5E-CEB2-4faa-D6BF-329BF39FA1E4").unwrap();
    let uuid6 = Uuid::parse_str("f81d4fae-7dec-11d0-7765-00a0c91e6bf6").unwrap();

    assert_eq!(uuid1.get_variant(), UuidVariant::RFC4122);
    assert_eq!(uuid2.get_variant(), UuidVariant::RFC4122);
    assert_eq!(uuid3.get_variant(), UuidVariant::RFC4122);
    assert_eq!(uuid4.get_variant(), UuidVariant::Microsoft);
    assert_eq!(uuid5.get_variant(), UuidVariant::Microsoft);
    assert_eq!(uuid6.get_variant(), UuidVariant::NCS);
}

#[test]
fn variant_classes_every_byte() {
    for b in 0..=255u8 {
        let mut bytes = [0u8; 16];
        bytes[8] = b;
        let expected = if b < 0x80 {
            UuidVariant::NCS
        } else if b < 0xc0 {
            UuidVariant::RFC4122
        } else if b < 0xe0 {
            UuidVariant::Microsoft
        } else {
            UuidVariant::Future
        };
        assert_eq!(Uuid::from_bytes(bytes).get_variant(), expected);
    }
}

#[test]
fn version_numbers_outside_the_schemes_are_unrecognized() {
    for n in 0..16u8 {
        let mut bytes = [1u8; 16];
        bytes[6] = n << 4;
        let expected = match n {
            1 => Some(UuidVersion::Mac),
            3 => Some(UuidVersion::Md5),
            4 => Some(UuidVersion::Random),
            5 => Some(UuidVersion::Sha1),
            6 => Some(UuidVersion::SortMac),
            7 => Some(UuidVersion::SortRand),
            8 => Some(UuidVersion::Custom),
            _ => None,
        };
        let uuid = Uuid::from_bytes(bytes);
        assert_eq!(uuid.get_version(), expected);
        assert_eq!(uuid.get_version_num(), n as usize);
    }
}

#[test]
fn test_to_simple_string() {
    let uuid1 = new();
    let s = uuid1.to_simple().to_string();

    assert_eq!(s.len(), 32);
    assert!(s.chars().all(|c| c.is_digit(16)));
}

#[test]
fn lib_test_to_hyphenated_string() {
    let uuid1 = new();
    let s = uuid1.to_hyphenated().to_string();

    assert!(s.len() == 36);
    assert!(s.chars().all(|c| c.is_digit(16) || c == '-'));
}

#[test]
fn test_upper_lower_hex() {
    let u = new();

    let check = |buf: String, len: usize, cond: &dyn Fn(char) -> bool| {
        assert!(buf.len() == len);
        assert!(buf.chars().all(cond), "{}", buf);
    };

    check(u.to_hyphenated().encode_upper(), 36, &|c| {
        c.is_uppercase() || c.is_digit(10) || c == '-'
    });
    check(u.to_simple().encode_upper(), 32, &|c| c.is_uppercase() || c.is_digit(10));

    check(u.to_hyphenated().encode_lower(), 36, &|c| {
        c.is_lowercase() || c.is_digit(10) || c == '-'
    });
    check(u.to_simple().encode_lower(), 32, &|c| c.is_lowercase() || c.is_digit(10));
}

#[test]
fn test_to_urn_string() {
    let uuid1 = new();
    let ss = uuid1.to_urn().to_string();
    let s = &ss[9..];

    assert!(ss.starts_with("urn:uuid:"));
    assert_eq!(s.len(), 36);
    assert!(s.chars().all(|c| c.is_digit(16) || c == '-'));
}

#[test]
fn test_to_simple_string_matching() {
    let uuid1 = new();

    let hs = uuid1.to_hyphenated().to_string();
    let ss = uuid1.to_simple().to_string();

    let hsn = hs.chars().filter(|&c| c != '-').collect::<String>();

    assert_eq!(hsn, ss);
}

#[test]
fn test_string_roundtrip() {
    let uuid = new();

    let hs = uuid.to_hyphenated().to_string();
    let uuid_hs = Uuid::parse_str(&hs).unwrap();
    assert_eq!(uuid_hs, uuid);

    let ss = uuid.to_string();
    let uuid_ss = Uuid::parse_str(&ss).unwrap();
    assert_eq!(uuid_ss, uuid);
}

#[test]
fn test_from_fields() {
    let d1: u32 = 0xa1a2a3a4;
    let d2: u16 = 0xb1b2;
    let d3: u16 = 0xc1c2;
    let d4 = [0xd1, 0xd2, 0xd3, 0xd4, 0xd5, 0xd6, 0xd7, 0xd8];

    let u = Uuid::from_fields(d1, d2, d3, &d4).unwrap();

    let expected = "a1a2a3a4b1b2c1c2d1d2d3d4d5d6d7d8";
    let result = u.to_simple().to_string();
    assert_eq!(result, expected);
}

#[test]
fn from_fields_rejects_a_short_last_field() {
    let d4 = [12];
    assert_eq!(Uuid::from_fields(42, 12, 5, &d4), Err(BytesError::new(8, 1)));
    let d4 = [12, 3, 9, 56, 54, 43, 8, 9];
    assert_eq!(
        Uuid::from_fields(42, 12, 5, &d4).unwrap().to_string(),
        "0000002a-000c-0005-0c03-0938362b0809"
    );
}

#[test]
fn test_as_fields() {
    let u = new();
    let (d1, d2, d3, d4) = u.as_fields();

    assert_ne!(d1, 0);
    assert_ne!(d2, 0);
    assert_ne!(d3, 0);
    assert_eq!(d4.len(), 8);
    assert!(!d4.iter().all(|&b| b == 0));
}

#[test]
fn test_fields_roundtrip() {
    let d1_in: u32 = 0xa1a2a3a4;
    let d2_in: u16 = 0xb1b2;
    let d3_in: u16 = 0xc1c2;
    let d4_in = &[0xd1, 0xd2, 0xd3, 0xd4, 0xd5, 0xd6, 0xd7, 0xd8];

    let u = Uuid::from_fields(d1_in, d2_in, d3_in, d4_in).unwrap();
    let (d1_out, d2_out, d3_out, d4_out) = u.as_fields();

    assert_eq!(d1_in, d1_out);
    assert_eq!(d2_in, d2_out);
    assert_eq!(d3_in, d3_out);
    assert_eq!(d4_in, &d4_out);
}

#[test]
fn test_from_bytes() {
    let b = [
        0xa1, 0xa2, 0xa3, 0xa4, 0xb1, 0xb2, 0xc1, 0xc2, 0xd1, 0xd2, 0xd3, 0xd4, 0xd5, 0xd6, 0xd7,
        0xd8,
    ];

    let u = Uuid::from_slice(&b).unwrap();
    let expected = "a1a2a3a4b1b2c1c2d1d2d3d4d5d6d7d8";

    assert_eq!(u.to_simple().to_string(), expected);
}

#[test]
fn from_slice_rejects_other_lengths() {
    let bytes = [4, 54, 67, 12, 43, 2, 98, 76];
    assert_eq!(Uuid::from_slice(&bytes), Err(BytesError::new(16, 8)));
    assert_eq!(BytesError::new(16, 8).expected(), 16);
    assert_eq!(BytesError::new(16, 8).found(), 8);
}

#[test]
fn test_from_uuid_bytes() {
    let b = [
        0xa1, 0xa2, 0xa3, 0xa4, 0xb1, 0xb2, 0xc1, 0xc2, 0xd1, 0xd2, 0xd3, 0xd4, 0xd5, 0xd6, 0xd7,
        0xd8,
    ];

    let u = Uuid::from_uuid_bytes(b);
    let expected = "a1a2a3a4b1b2c1c2d1d2d3d4d5d6d7d8";

    assert_eq!(u.to_simple().to_string(), expected);
}

#[test]
fn test_as_bytes() {
    let u = new();
    let ub = u.as_bytes();

    assert_eq!(ub.len(), 16);
    assert!(!ub.iter().all(|&b| b == 0));
}

#[test]
fn test_bytes_roundtrip() {
    let b_in: [u8; 16] = [
        0xa1, 0xa2, 0xa3, 0xa4, 0xb1, 0xb2, 0xc1, 0xc2, 0xd1, 0xd2, 0xd3, 0xd4, 0xd5, 0xd6, 0xd7,
        0xd8,
    ];

    let u = Uuid::from_bytes(b_in);

    let b_out = u.as_bytes();

    assert_eq!(&b_in, b_out);
}

#[test]
fn test_from_random_bytes() {
    let b = [
        0xa1, 0xa2, 0xa3, 0xa4, 0xb1, 0xb2, 0xc1, 0xc2, 0xd1, 0xd2, 0xd3, 0xd4, 0xd5, 0xd6, 0xd7,
        0xd8,
    ];

    let u = Uuid::from_random_bytes(b);
    let expected = "a1a2a3a4b1b241c291d2d3d4d5d6d7d8";

    assert_eq!(u.to_simple().to_string(), expected);
}

#[test]
fn nil_is_written_as_zeros() {
    assert_eq!(Uuid::nil().to_hyphenated().to_string(), "00000000-0000-0000-0000-000000000000");
    assert_eq!(Uuid::nil().to_simple().to_string(), "00000000000000000000000000000000");
    assert_eq!(
        Uuid::nil().to_urn().to_string(),
        "urn:uuid:00000000-0000-0000-0000-000000000000"
    );
    assert_eq!(
        Uuid::nil().to_braced().to_string(),
        "{00000000-0000-0000-0000-000000000000}"
    );
}

#[test]
fn writing_twice_gives_the_same_text() {
    let u = new();
    assert_eq!(u.to_hyphenated().encode_upper(), u.to_hyphenated().encode_upper());
    assert_eq!(u.to_hyphenated().encode_upper(), "F9168C5E-CEB2-4FAA-B6BF-329BF39FA1E4");
    assert_eq!(u.to_braced_ref().encode_lower(), "{f9168c5e-ceb2-4faa-b6bf-329bf39fa1e4}");
    assert_eq!(u.to_urn_ref().encode_upper(), "urn:uuid:F9168C5E-CEB2-4FAA-B6BF-329BF39FA1E4");
    assert_eq!(u.to_simple_ref().to_string(), "f9168c5e-ceb2-4faa-b6bf-329bf39fa1e4".replace('-', ""));
}

#[test]
fn every_spelling_parses_back() {
    let u = new();
    let texts = [
        u.to_simple().encode_lower(),
        u.to_simple().encode_upper(),
        u.to_hyphenated().encode_lower(),
        u.to_hyphenated().encode_upper(),
        u.to_braced().encode_lower(),
        u.to_braced().encode_upper(),
        u.to_urn().encode_lower(),
        u.to_urn().encode_upper(),
    ];
    for t in texts.iter() {
        assert_eq!(Uuid::parse_str(t), Ok(u));
    }
}
