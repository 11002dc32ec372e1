use uuid::codec::decode_rfc4122_timestamp;
use uuid::{ClockSequence, Context, Timestamp, Uuid};

struct Fixed(u16);

impl ClockSequence for Fixed {
    type Output = u16;

    fn next(&self, _: &Timestamp) -> u16 {
        self.0
    }
}

#[test]
fn a_clock_sequence_of_the_callers_is_taken() {
    let ts = Timestamp::from_unix(1_497_624_119, 1234);
    let uuid = Uuid::new_v1(ts, &Fixed(42), &[1, 2, 3, 4, 5, 6]).unwrap();
    assert_eq!(uuid.to_string(), "f3b4958c-52a1-11e7-802a-010203040506");
    let uuid = Uuid::new_v6(ts, &Fixed(42), &[1, 2, 3, 4, 5, 6]).unwrap();
    assert_eq!(uuid.to_string(), "1e752a1f-3b49-658c-802a-010203040506");
    // of a clock sequence beyond fourteen bits the low fourteen are kept
    let uuid = Uuid::new_v1(ts, &Fixed(0xFFFF), &[1, 2, 3, 4, 5, 6]).unwrap();
    assert_eq!(decode_rfc4122_timestamp(&uuid).1, 0x3FFF);
}
