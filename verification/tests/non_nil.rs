use uuid::wide::{Big, Little};
use uuid::{NonNilUuid, NonZeroUuid, NonZeroUuidError, Uuid};

#[test]
fn test_new_with_non_nil() {
    let uuid = Uuid::new_v4().unwrap();
    let nz_uuid = NonZeroUuid::new(uuid);
    assert!(nz_uuid.is_some());
    assert_eq!(nz_uuid.unwrap().get(), uuid);
}

#[test]
fn test_new_with_nil() {
    let nil_uuid = Uuid::nil();
    let nz_uuid = NonZeroUuid::new(nil_uuid);
    assert!(nz_uuid.is_none());
}

#[test]
fn test_try_from() {
    let uuid = Uuid::new_v4().unwrap();
    let nz_uuid = NonZeroUuid::try_from(uuid);
    assert!(nz_uuid.is_ok());

    let nil_uuid = Uuid::nil();
    let nz_nil = NonZeroUuid::try_from(nil_uuid);
    assert!(nz_nil.is_err());
    assert_eq!(nz_nil, Err(NonZeroUuidError));
}

#[test]
fn test_non_nil() {
    let uuid = Uuid::from_u128(0x0123456789abcdef0123456789abcdef);
    let nn_uuid = NonNilUuid::try_from(uuid);

    assert!(nn_uuid.is_ok());
    assert_eq!(nn_uuid.unwrap().get(), uuid);

    let nil_uuid = Uuid::nil();
    let nn_uuid = NonNilUuid::try_from(nil_uuid);
    assert!(nn_uuid.is_err());
    assert!(NonNilUuid::new(nil_uuid).is_none());
}

#[test]
fn byte_orders_of_a_number() {
    let n: u128 = 0x0102030405060708090a0b0c0d0e0f10;
    assert_eq!(Big::from_u128(n).0, [1, 2, 3, 4, 5, 6, 7, 8, 9, 10, 11, 12, 13, 14, 15, 16]);
    assert_eq!(Little::from_u128(n).0, [16, 15, 14, 13, 12, 11, 10, 9, 8, 7, 6, 5, 4, 3, 2, 1]);
    let uuid = Uuid::from_u128(n);
    assert_eq!(Big::from_uuid(uuid).0, *uuid.as_bytes());
    assert_eq!(Little::from_uuid(uuid), Little::from_u128(n));
}
