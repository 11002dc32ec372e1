use uuid::guid::Guid;
use uuid::Uuid;

#[test]
fn test_from_guid() {
    let guid = Guid {
        data1: 0x4a35229d,
        data2: 0x5527,
        data3: 0x4f30,
        data4: [0x86, 0x47, 0x9d, 0xc5, 0x4e, 0x1e, 0xe1, 0xe8],
    };

    let uuid = Uuid::from_guid(guid);
    assert_eq!("4a35229d-5527-4f30-8647-9dc54e1ee1e8", uuid.to_hyphenated().to_string());
}

#[test]
fn test_guid_roundtrip() {
    let guid_in = Guid {
        data1: 0x4a35229d,
        data2: 0x5527,
        data3: 0x4f30,
        data4: [0x86, 0x47, 0x9d, 0xc5, 0x4e, 0x1e, 0xe1, 0xe8],
    };

    let uuid = Uuid::from_guid(guid_in);
    let guid_out = uuid.to_guid();

    assert_eq!(
        (guid_in.data1, guid_in.data2, guid_in.data3, guid_in.data4),
        (guid_out.data1, guid_out.data2, guid_out.data3, guid_out.data4)
    );
}
