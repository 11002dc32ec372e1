use chrono::{DateTime, TimeZone, Utc};
use uuid::codec::ticks_to_unix_time;
use uuid::ns::namespace_dns;
use uuid::{BytesError, Context, Error, Expected, ParseError, Timestamp, Uuid};

/// The number of 100 ns ticks between the UUID epoch
/// `1582-10-15 00:00:00` and the Unix epoch `1970-01-01 00:00:00`.
const UUID_TICKS_BETWEEN_EPOCHS: i64 = 0x01B2_1DD2_1381_4000;

fn to_utc(uuid: &Uuid) -> Option<DateTime<Utc>> {
    let (seconds, subsec_nanos) = uuid.to_unix_time()?;
    DateTime::from_timestamp(seconds, subsec_nanos)
}

fn new_v1(ctx: &Context, seconds: u64, nanos: u32, node_id: &[u8]) -> Uuid {
    Uuid::new_v1(Timestamp::from_unix(seconds, nanos), ctx, node_id).unwrap()
}

#[test]
fn test_v1_to_chrono_utc_recent() {
    let ctx = Context::new(1);
    let node_id = &[1, 2, 3, 4, 5, 6];

    // at epoch
    assert_eq!(
        to_utc(&new_v1(&ctx, 0, 0, node_id)),
        Some(Utc.with_ymd_and_hms(1970, 1, 1, 0, 0, 0).unwrap())
    );

    // < 100ns from epoch
    assert_eq!(
        to_utc(&new_v1(&ctx, 0, 99, node_id)),
        Some(Utc.with_ymd_and_hms(1970, 1, 1, 0, 0, 0).unwrap())
    );

    // exactly 100ns from epoch (sanity check to_timestamp)
    assert_eq!(
        new_v1(&ctx, 0, 100, node_id).to_timestamp().unwrap().0 as i64,
        UUID_TICKS_BETWEEN_EPOCHS + 1
    );

    // exactly 100ns from epoch
    assert_eq!(
        to_utc(&new_v1(&ctx, 0, 100, node_id)),
        Some(DateTime::from_timestamp(0, 100).unwrap())
    );

    // 299ns from epoch
    assert_eq!(
        to_utc(&new_v1(&ctx, 0, 299, node_id)),
        Some(DateTime::from_timestamp(0, 200).unwrap())
    );

    // 7sec, 453ns from epoch
    assert_eq!(
        to_utc(&new_v1(&ctx, 7, 453, node_id)),
        Some(DateTime::from_timestamp(7, 400).unwrap())
    );

    // current time
    let utc = Utc::now();
    let v1 = new_v1(&ctx, utc.timestamp() as u64, utc.timestamp_subsec_nanos(), node_id);
    let rt = to_utc(&v1).unwrap();
    assert!(utc.signed_duration_since(rt).num_nanoseconds().unwrap().abs() < 100);
}

#[test]
fn test_v1_to_chrono_utc_pre_1970() {
    // have to manually construct as dates prior to 1970 impossible
    // with existing `new_v1` implementation.
    let long_ago_v1 = |uuid_time: i64| -> Uuid {
        let time_low = (uuid_time & 0xFFFF_FFFF) as u32;
        let time_mid = ((uuid_time >> 32) & 0xFFFF) as u16;
        let time_high_and_version = (((uuid_time >> 48) & 0x0FFF) as u16) | (1 << 12);
        Uuid::from_fields(time_low, time_mid, time_high_and_version, &[0u8; 8]).unwrap()
    };

    // 1sec prior to 1970
    assert_eq!(
        to_utc(&long_ago_v1(-10_000_000 + UUID_TICKS_BETWEEN_EPOCHS)),
        Some(Utc.with_ymd_and_hms(1969, 12, 31, 23, 59, 59).unwrap())
    );

    // 1sec after 1582 epoch
    assert_eq!(
        to_utc(&long_ago_v1(10_000_000)),
        Some(Utc.with_ymd_and_hms(1582, 10, 15, 0, 0, 1).unwrap())
    );

    // independence day
    assert_eq!(
        to_utc(&long_ago_v1(61_132_320_010_000_000)),
        Some(Utc.with_ymd_and_hms(1776, 7, 4, 0, 0, 1).unwrap())
    );
}

#[test]
fn test_non_v1_variants_to_chrono_utc() {
    assert!(to_utc(&Uuid::nil()).is_none());

    assert!(to_utc(&Uuid::new_v3(&Uuid::nil(), "v3 name")).is_none());

    assert!(to_utc(&Uuid::new_v4().unwrap()).is_none());

    assert!(to_utc(&Uuid::new_v5(&Uuid::nil(), "v5 name".as_bytes())).is_none());

    assert!(Uuid::new_v5(&namespace_dns(), b"v5 name").get_timestamp().is_none());
}

#[test]
fn ticks_become_signed_seconds() {
    assert_eq!(ticks_to_unix_time(0x01B2_1DD2_1381_4000), (0, 0));
    assert_eq!(ticks_to_unix_time(0x01B2_1DD2_1381_4000 + 10_000_001), (1, 100));
    assert_eq!(ticks_to_unix_time(0x01B2_1DD2_1381_4000 - 10_000_000), (-1, 0));
    assert_eq!(ticks_to_unix_time(0), (-12_219_292_800, 0));
    assert_eq!(ticks_to_unix_time(0x01B2_1DD2_1381_4000 - 5), (0, 500));
}

#[test]
fn the_clock_is_read() {
    let now = Timestamp::now().unwrap();
    assert!(now.to_unix().0 > 1_600_000_000);
    assert!(now.to_unix_nanos() < 1_000_000_000);
    assert!(now.checked_to_rfc4122().is_some());
    assert!(Uuid::new_v7(now).unwrap().get_timestamp().unwrap().to_unix().0 == now.to_unix().0);
}

#[test]
fn errors_of_parts_become_errors() {
    assert_eq!(Error::from(BytesError::new(6, 5)), Error::Bytes(BytesError::new(6, 5)));
    let rejected = ParseError::InvalidLength { expected: Expected::Exact(36), found: 35 };
    assert_eq!(Error::from(rejected.clone()), Error::Parse(rejected.clone()));
    assert_eq!(rejected.description(), "invalid length");
    assert_eq!(
        Uuid::parse_str("67e5504410b1426%9247bb680e5fe0c8").unwrap_err().description(),
        "invalid character"
    );
    assert_eq!(
        Uuid::parse_str("F9168C5E-CEB2F4faaFB6BFF329BF39FA1E4").unwrap_err().description(),
        "invalid number of groups"
    );
    assert_eq!(
        Uuid::parse_str("67e550-4105b1426f9247bb680e5fe0c").unwrap_err().description(),
        "invalid group length"
    );
}
