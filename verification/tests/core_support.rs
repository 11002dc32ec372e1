use uuid::Uuid;

fn new() -> Uuid {
    Uuid::from_bytes([
        0xF9, 0x16, 0x8C, 0x5E, 0xCE, 0xB2, 0x4F, 0xAA, 0xB6, 0xBF, 0x32, 0x9B, 0xF3, 0x9F, 0xA1,
        0xE4,
    ])
}

fn new2() -> Uuid {
    Uuid::from_bytes([
        0xF9, 0x16, 0x8C, 0x5E, 0xCE, 0xB2, 0x4F, 0xAB, 0xB6, 0xBF, 0x32, 0x9B, 0xF3, 0x9F, 0xA1,
        0xE4,
    ])
}

#[test]
fn test_uuid_compare() {
    let uuid1 = new();
    let uuid2 = new2();

    assert_eq!(uuid1, uuid1);
    assert_eq!(uuid2, uuid2);

    assert_ne!(uuid1, uuid2);
    assert_ne!(uuid2, uuid1);
}

#[test]
fn test_uuid_default() {
    let default_uuid = Uuid::default();
    let nil_uuid = Uuid::nil();

    assert_eq!(default_uuid, nil_uuid);
}

#[test]
fn test_uuid_display() {
    let uuid = new();
    let s = uuid.to_string();

    assert_eq!(s, uuid.to_hyphenated().to_string())
}

#[test]
fn test_uuid_to_string() {
    let uuid = new();
    let s = uuid.to_string();

    assert_eq!(s.len(), 36);
    assert!(s.chars().all(|c| c.is_digit(16) || c == '-'))
}

#[test]
fn test_uuid_operator_eq() {
    let uuid1 = new();
    let uuid1_dup = uuid1.clone();
    let uuid2 = new2();

    assert!(uuid1 == uuid1);
    assert!(uuid1 == uuid1_dup);
    assert!(uuid1_dup == uuid1);

    assert!(uuid1 != uuid2);
    assert!(uuid2 != uuid1);
    assert!(uuid1_dup != uuid2);
    assert!(uuid2 != uuid1_dup);
}

#[test]
fn test_iterbytes_impl_for_uuid() {
    let mut set = std::collections::HashSet::new();
    let id1 = new();
    let id2 = new2();
    set.insert(id1.clone());

    assert!(set.contains(&id1));
    assert!(!set.contains(&id2));
}

#[test]
fn test_from_u128() {
    const U128: u128 = 0x3a0724b4_93a0_4d87_ac28_759c6caa13c4;

    let uuid = Uuid::from(U128);

    let uuid2: Uuid = U128.into();

    assert_eq!(uuid, uuid2)
}

#[test]
fn from_u128_puts_the_highest_byte_first() {
    let uuid = Uuid::from_u128(0x3a0724b4_93a0_4d87_ac28_759c6caa13c4);
    assert_eq!(uuid.to_string(), "3a0724b4-93a0-4d87-ac28-759c6caa13c4");
    assert_eq!(uuid.as_u128(), 0x3a0724b4_93a0_4d87_ac28_759c6caa13c4);
    assert_eq!(Uuid::from_u128(0), Uuid::nil());
}

#[test]
fn test_parse_guid() {
    let uuid = Uuid::parse_str("6B29FC40-CA47-1067-B31D-00DD010662DA").unwrap();

    assert_eq!(uuid::UuidVariant::RFC4122, uuid.get_variant());
    assert_eq!(Some(uuid::UuidVersion::Mac), uuid.get_version());
}
