use uuid::generate::node_id_with;
use uuid::rng::{bytes_outcome, u128_outcome, u16_outcome, u64_outcome};
use uuid::{ClockSequence, Context, Error, Timestamp};

#[test]
fn random_bytes_are_read_lowest_first() {
    assert_eq!(u16_outcome(Ok(vec![0x34, 0x12])), Ok(0x1234));
    assert_eq!(
        u64_outcome(Ok(vec![0xef, 0xcd, 0xab, 0x89, 0x67, 0x45, 0x23, 0x01])),
        Ok(0x0123_4567_89ab_cdef)
    );
    assert_eq!(
        u128_outcome(Ok(vec![16, 15, 14, 13, 12, 11, 10, 9, 8, 7, 6, 5, 4, 3, 2, 1])),
        Ok(0x0102030405060708090a0b0c0d0e0f10)
    );
    assert_eq!(
        bytes_outcome(Ok(vec![1, 2, 3, 4, 5, 6, 7, 8, 9, 10, 11, 12, 13, 14, 15, 16])),
        Ok([1, 2, 3, 4, 5, 6, 7, 8, 9, 10, 11, 12, 13, 14, 15, 16])
    );
}

#[test]
fn a_failed_request_is_handed_on() {
    let failure = Error::Entropy { code: Some(5) };
    assert_eq!(u16_outcome(Err(failure.clone())), Err(failure.clone()));
    assert_eq!(u64_outcome(Err(failure.clone())), Err(failure.clone()));
    assert_eq!(u128_outcome(Err(failure.clone())), Err(failure.clone()));
    assert_eq!(bytes_outcome(Err(failure.clone())), Err(failure.clone()));
    assert_eq!(Context::seeded(Err(failure.clone())).err(), Some(failure));
}

#[test]
fn a_seeded_counter_begins_at_its_seed() {
    let ts = Timestamp::from_unix(0, 0);
    let context = Context::seeded(Ok(41)).unwrap();
    assert_eq!(context.next(&ts), 41);
    assert_eq!(context.next(&ts), 42);
}

#[test]
fn the_time_of_a_clock_is_taken_as_given() {
    assert_eq!(Timestamp::from_elapsed(None), None);
    assert_eq!(
        Timestamp::from_elapsed(Some((1_496_854_535, 812_946_000))),
        Some(Timestamp::from_unix(1_496_854_535, 812_946_000))
    );
}

#[test]
fn a_hardware_address_is_the_node_id() {
    assert_eq!(node_id_with(Some([2, 4, 6, 8, 10, 12])), Ok([2, 4, 6, 8, 10, 12]));
    let random = node_id_with(None).unwrap();
    assert_eq!(random[0] & 0x01, 1);
}
