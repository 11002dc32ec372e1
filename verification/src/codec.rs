//! The field layouts of the time-based schemes: packing a tick count, a
//! clock sequence and a node, or a millisecond count and random bytes, into
//! the sixteen bytes, and reading them back.

use vstd::prelude::*;
use crate::binary::{fields_bytes, variant_of, version_of, Uuid, UuidVariant, UuidVersion};
use crate::timestamp::{ticks_of, Timestamp, TICKS_PER_SECOND, UUID_TICKS_BETWEEN_EPOCHS};

verus! {

/// The first two bytes of the last field: the variant bits `10`, the
/// fourteen bits of the clock sequence, the high six first.
pub open spec fn sequence_bytes(counter: u16) -> Seq<u8> {
    seq![((((counter & 0x3F00) >> 8u16) & 0xff) as u8) | 0x80u8, (counter & 0xFF) as u8]
}

/// The three leading fields of a version 1 identifier: the low 32 bits of
/// the tick count, its next 16 bits, and its next 12 bits under the
/// version number.
pub open spec fn v1_fields(ticks: u64) -> (u32, u16, u16) {
    (
        (ticks & 0xFFFF_FFFF) as u32,
        ((ticks >> 32u64) & 0xFFFF) as u16,
        ((((ticks >> 48u64) & 0x0FFF) as u16) | 0x1000u16),
    )
}

/// The sixteen bytes of the version 1 identifier for a tick count, a clock
/// sequence and a node of six bytes.
pub open spec fn v1_bytes(ticks: u64, counter: u16, node: Seq<u8>) -> Seq<u8>
    recommends
        node.len() == 6,
{
    let f = v1_fields(ticks);
    fields_bytes(f.0, f.1, f.2, sequence_bytes(counter) + node)
}

/// The three leading fields of a version 6 identifier: the high 32 of the
/// 60 bits of the tick count, its next 16 bits, and its low 12 bits under
/// the version number.
pub open spec fn v6_fields(ticks: u64) -> (u32, u16, u16) {
    (
        ((ticks >> 28u64) & 0xFFFF_FFFF) as u32,
        ((ticks >> 12u64) & 0xFFFF) as u16,
        (((ticks & 0x0FFF) as u16) | 0x6000u16),
    )
}

/// The sixteen bytes of the version 6 identifier for a tick count, a clock
/// sequence and a node of six bytes.
pub open spec fn v6_bytes(ticks: u64, counter: u16, node: Seq<u8>) -> Seq<u8>
    recommends
        node.len() == 6,
{
    let f = v6_fields(ticks);
    fields_bytes(f.0, f.1, f.2, sequence_bytes(counter) + node)
}

/// The tick count that the bytes of a version 1 identifier hold.
pub open spec fn v1_ticks(b: Seq<u8>) -> u64 {
    (((b[6] & 0x0F) as u64) << 56u64) | ((b[7] as u64) << 48u64) | ((b[4] as u64) << 40u64) | ((
    b[5] as u64) << 32u64) | ((b[0] as u64) << 24u64) | ((b[1] as u64) << 16u64) | ((b[2] as u64)
        << 8u64) | (b[3] as u64)
}

/// The tick count that the bytes of a version 6 identifier hold.
pub open spec fn v6_ticks(b: Seq<u8>) -> u64 {
    ((b[0] as u64) << 52u64) | ((b[1] as u64) << 44u64) | ((b[2] as u64) << 36u64) | ((b[3] as u64)
        << 28u64) | ((b[4] as u64) << 20u64) | ((b[5] as u64) << 12u64) | (((b[6] & 0xF) as u64)
        << 8u64) | (b[7] as u64)
}

/// The clock sequence that the bytes of a version 1 or 6 identifier hold.
pub open spec fn sequence_in(b: Seq<u8>) -> u16 {
    (((b[8] & 0x3F) as u16) << 8u16) | (b[9] as u16)
}

/// The three leading fields of a version 7 identifier: the high 32 of the
/// 48 bits of the millisecond count, its low 16 bits, and twelve random
/// bits under the version number.
pub open spec fn v7_fields(millis: u64, random: Seq<u8>) -> (u32, u16, u16) {
    (
        ((millis >> 16u64) & 0xFFFF_FFFF) as u32,
        (millis & 0xFFFF) as u16,
        ((random[0] as u16) | (((random[1] as u16) << 8u16) & 0x0FFF)) | 0x7000u16,
    )
}

/// The sixteen bytes of the version 7 identifier for a millisecond count
/// and ten random bytes.
pub open spec fn v7_bytes(millis: u64, random: Seq<u8>) -> Seq<u8>
    recommends
        random.len() == 10,
{
    let f = v7_fields(millis, random);
    fields_bytes(f.0, f.1, f.2, seq![(random[2] & 0x3F) | 0x80u8] + random.subrange(3, 10))
}

/// The millisecond count that the bytes of a version 7 identifier hold.
pub open spec fn v7_millis(b: Seq<u8>) -> u64 {
    ((b[0] as u64) << 40u64) | ((b[1] as u64) << 32u64) | ((b[2] as u64) << 24u64) | ((b[3] as u64)
        << 16u64) | ((b[4] as u64) << 8u64) | (b[5] as u64)
}

fn sequence_and_node(counter: u16, node_id: &[u8; 6]) -> (d4: [u8; 8])
    ensures
        d4@ == sequence_bytes(counter) + node_id@,
{
    assert(((counter & 0x3F00) >> 8u16) & 0xff < 256 && counter & 0xFF < 256) by (bit_vector);
    let d4: [u8; 8] = [
        ((((counter & 0x3F00) >> 8) & 0xff) as u8) | 0x80,
        (counter & 0xFF) as u8,
        node_id[0],
        node_id[1],
        node_id[2],
        node_id[3],
        node_id[4],
        node_id[5],
    ];
    assert(d4@ =~= sequence_bytes(counter) + node_id@);
    d4
}

/// Packs a tick count, a clock sequence and a node as a version 1
/// identifier. Of the tick count the low 60 bits are kept, of the clock
/// sequence the low 14.
pub fn encode_rfc4122_timestamp(ticks: u64, counter: u16, node_id: &[u8; 6]) -> (r: Uuid)
    ensures
        r@ == v1_bytes(ticks, counter, node_id@),
{
    assert(ticks & 0xFFFF_FFFF <= 0xFFFF_FFFF && (ticks >> 32u64) & 0xFFFF <= 0xFFFF && (ticks
        >> 48u64) & 0x0FFF <= 0xFFFF) by (bit_vector);
    let time_low: u32 = (ticks & 0xFFFF_FFFF) as u32;
    let time_mid: u16 = ((ticks >> 32) & 0xFFFF) as u16;
    let time_high_and_version: u16 = (((ticks >> 48) & 0x0FFF) as u16) | 0x1000;
    let d4 = sequence_and_node(counter, node_id);
    Uuid::assemble(time_low, time_mid, time_high_and_version, d4.as_slice())
}

/// Reads the tick count and the clock sequence where a version 1
/// identifier holds them.
pub fn decode_rfc4122_timestamp(uuid: &Uuid) -> (r: (u64, u16))
    ensures
        r.0 == v1_ticks(uuid@),
        r.1 == sequence_in(uuid@),
{
    let bytes = uuid.as_bytes();
    let ticks: u64 = (((bytes[6] & 0x0F) as u64) << 56) | ((bytes[7] as u64) << 48) | ((
    bytes[4] as u64) << 40) | ((bytes[5] as u64) << 32) | ((bytes[0] as u64) << 24) | ((
    bytes[1] as u64) << 16) | ((bytes[2] as u64) << 8) | (bytes[3] as u64);
    let counter: u16 = (((bytes[8] & 0x3F) as u16) << 8) | (bytes[9] as u16);
    (ticks, counter)
}

/// Packs a tick count, a clock sequence and a node as a version 6
/// identifier, whose bytes sort by time. Of the tick count the low 60 bits
/// are kept, of the clock sequence the low 14.
pub fn encode_sorted_rfc4122_timestamp(ticks: u64, counter: u16, node_id: &[u8; 6]) -> (r: Uuid)
    ensures
        r@ == v6_bytes(ticks, counter, node_id@),
{
    assert((ticks >> 28u64) & 0xFFFF_FFFF <= 0xFFFF_FFFF && (ticks >> 12u64) & 0xFFFF <= 0xFFFF
        && ticks & 0x0FFF <= 0xFFFF) by (bit_vector);
    let time_high: u32 = ((ticks >> 28) & 0xFFFF_FFFF) as u32;
    let time_mid: u16 = ((ticks >> 12) & 0xFFFF) as u16;
    let time_low_and_version: u16 = ((ticks & 0x0FFF) as u16) | 0x6000;
    let d4 = sequence_and_node(counter, node_id);
    Uuid::assemble(time_high, time_mid, time_low_and_version, d4.as_slice())
}

/// Reads the tick count and the clock sequence where a version 6
/// identifier holds them.
pub fn decode_sorted_rfc4122_timestamp(uuid: &Uuid) -> (r: (u64, u16))
    ensures
        r.0 == v6_ticks(uuid@),
        r.1 == sequence_in(uuid@),
{
    let bytes = uuid.as_bytes();
    let ticks: u64 = ((bytes[0] as u64) << 52) | ((bytes[1] as u64) << 44) | ((bytes[2] as u64)
        << 36) | ((bytes[3] as u64) << 28) | ((bytes[4] as u64) << 20) | ((bytes[5] as u64) << 12)
        | (((bytes[6] & 0xF) as u64) << 8) | (bytes[7] as u64);
    let counter: u16 = (((bytes[8] & 0x3F) as u16) << 8) | (bytes[9] as u16);
    (ticks, counter)
}

/// Packs a count of milliseconds since the Unix epoch and ten random bytes
/// as a version 7 identifier. Of the count the low 48 bits are kept.
pub fn encode_unix_timestamp_millis(millis: u64, random_bytes: &[u8; 10]) -> (r: Uuid)
    ensures
        r@ == v7_bytes(millis, random_bytes@),
{
    assert((millis >> 16u64) & 0xFFFF_FFFF <= 0xFFFF_FFFF && millis & 0xFFFF <= 0xFFFF)
        by (bit_vector);
    let millis_high: u32 = ((millis >> 16) & 0xFFFF_FFFF) as u32;
    let millis_low: u16 = (millis & 0xFFFF) as u16;
    let random_and_version: u16 = ((random_bytes[0] as u16) | (((random_bytes[1] as u16) << 8)
        & 0x0FFF)) | 0x7000;
    let d4: [u8; 8] = [
        (random_bytes[2] & 0x3F) | 0x80,
        random_bytes[3],
        random_bytes[4],
        random_bytes[5],
        random_bytes[6],
        random_bytes[7],
        random_bytes[8],
        random_bytes[9],
    ];
    assert(d4@ =~= seq![(random_bytes@[2] & 0x3F) | 0x80u8] + random_bytes@.subrange(3, 10));
    Uuid::assemble(millis_high, millis_low, random_and_version, d4.as_slice())
}

/// Reads the count of milliseconds where a version 7 identifier holds it.
pub fn decode_unix_timestamp_millis(uuid: &Uuid) -> (r: u64)
    ensures
        r == v7_millis(uuid@),
{
    let bytes = uuid.as_bytes();
    let millis: u64 = ((bytes[0] as u64) << 40) | ((bytes[1] as u64) << 32) | ((bytes[2] as u64)
        << 24) | ((bytes[3] as u64) << 16) | ((bytes[4] as u64) << 8) | (bytes[5] as u64);
    millis
}

/// The time of a tick count of RFC 4122, if it lies at or after the Unix
/// epoch.
pub open spec fn time_of_ticks(ticks: u64) -> Option<Timestamp> {
    if ticks >= UUID_TICKS_BETWEEN_EPOCHS {
        Some(
            Timestamp {
                seconds: ((ticks - UUID_TICKS_BETWEEN_EPOCHS) / (TICKS_PER_SECOND as int)) as u64,
                nanos: (((ticks - UUID_TICKS_BETWEEN_EPOCHS) % (TICKS_PER_SECOND as int))
                    * 100) as u32,
            },
        )
    } else {
        None
    }
}

/// The time of a count of milliseconds since the Unix epoch.
pub open spec fn time_of_millis(millis: u64) -> Timestamp {
    Timestamp { seconds: millis / 1000, nanos: ((millis % 1000) * 1_000_000) as u32 }
}

/// The time that sixteen bytes hold: of version 1 or 6, the time of the
/// tick count, where that lies at or after the Unix epoch; of version 7,
/// the time of the millisecond count; of any other, none.
pub open spec fn time_in(b: Seq<u8>) -> Option<Timestamp> {
    match version_of(b) {
        Some(UuidVersion::Mac) => time_of_ticks(v1_ticks(b)),
        Some(UuidVersion::SortMac) => time_of_ticks(v6_ticks(b)),
        Some(UuidVersion::SortRand) => Some(time_of_millis(v7_millis(b))),
        _ => None,
    }
}

/// The time of a tick count of RFC 4122 as signed seconds from the Unix
/// epoch, with the nanoseconds that lie between that second and the time.
/// Before the epoch the seconds are rounded towards it.
pub open spec fn unix_time_of_ticks(ticks: u64) -> (i64, u32) {
    if ticks >= UUID_TICKS_BETWEEN_EPOCHS {
        let d = ticks - UUID_TICKS_BETWEEN_EPOCHS;
        ((d / (TICKS_PER_SECOND as int)) as i64, ((d % (TICKS_PER_SECOND as int)) * 100) as u32)
    } else {
        let d = UUID_TICKS_BETWEEN_EPOCHS - ticks;
        (
            (-(d / (TICKS_PER_SECOND as int))) as i64,
            ((d % (TICKS_PER_SECOND as int)) * 100) as u32,
        )
    }
}

/// The time of a tick count of RFC 4122 as signed seconds from the Unix
/// epoch and nanoseconds.
pub fn ticks_to_unix_time(ticks: u64) -> (r: (i64, u32))
    ensures
        r == unix_time_of_ticks(ticks),
        r.1 < 1_000_000_000,
{
    if ticks >= UUID_TICKS_BETWEEN_EPOCHS {
        let d: u64 = ticks - UUID_TICKS_BETWEEN_EPOCHS;
        ((d / TICKS_PER_SECOND) as i64, ((d % TICKS_PER_SECOND) as u32) * 100)
    } else {
        let d: u64 = UUID_TICKS_BETWEEN_EPOCHS - ticks;
        (-((d / TICKS_PER_SECOND) as i64), ((d % TICKS_PER_SECOND) as u32) * 100)
    }
}

fn ticks_to_time(ticks: u64) -> (r: Option<Timestamp>)
    ensures
        r == time_of_ticks(ticks),
{
    if ticks >= UUID_TICKS_BETWEEN_EPOCHS {
        Some(Timestamp::from_rfc4122(ticks))
    } else {
        None
    }
}

impl Uuid {
    /// The tick count and the clock sequence of a version 1 identifier;
    /// nothing for an identifier of another version.
    pub fn to_timestamp(&self) -> (r: Option<(u64, u16)>)
        ensures
            r == (if version_of(self@) == Some(UuidVersion::Mac) {
                Some((v1_ticks(self@), sequence_in(self@)))
            } else {
                None
            }),
    {
        match self.get_version() {
            Some(UuidVersion::Mac) => Some(decode_rfc4122_timestamp(self)),
            _ => None,
        }
    }

    /// The time of a version 1 identifier, as signed seconds from the Unix
    /// epoch and nanoseconds; nothing for an identifier of another version.
    pub fn to_unix_time(&self) -> (r: Option<(i64, u32)>)
        ensures
            r == (if version_of(self@) == Some(UuidVersion::Mac) {
                Some(unix_time_of_ticks(v1_ticks(self@)))
            } else {
                None
            }),
    {
        match self.to_timestamp() {
            Some((ticks, _)) => Some(ticks_to_unix_time(ticks)),
            None => None,
        }
    }

    /// The time that a time-based identifier holds.
    pub fn get_timestamp(&self) -> (r: Option<Timestamp>)
        ensures
            r == time_in(self@),
    {
        match self.get_version() {
            Some(UuidVersion::Mac) => ticks_to_time(decode_rfc4122_timestamp(self).0),
            Some(UuidVersion::SortMac) => ticks_to_time(decode_sorted_rfc4122_timestamp(self).0),
            Some(UuidVersion::SortRand) => {
                let millis: u64 = decode_unix_timestamp_millis(self);
                Some(
                    Timestamp {
                        seconds: millis / 1000,
                        nanos: ((millis % 1000) as u32) * 1_000_000,
                    },
                )
            },
            _ => None,
        }
    }
}

proof fn lemma_v1_tick_bits(
    ticks: u64,
    d1: u32,
    d2: u16,
    d3: u16,
    b0: u8,
    b1: u8,
    b2: u8,
    b3: u8,
    b4: u8,
    b5: u8,
    b6: u8,
    b7: u8,
)
    by (bit_vector)
    requires
        d1 == (ticks & 0xFFFF_FFFF) as u32,
        d2 == ((ticks >> 32u64) & 0xFFFF) as u16,
        d3 == ((((ticks >> 48u64) & 0x0FFF) as u16) | 0x1000u16),
        b0 == ((d1 >> 24u32) & 0xff) as u8,
        b1 == ((d1 >> 16u32) & 0xff) as u8,
        b2 == ((d1 >> 8u32) & 0xff) as u8,
        b3 == (d1 & 0xff) as u8,
        b4 == ((d2 >> 8u16) & 0xff) as u8,
        b5 == (d2 & 0xff) as u8,
        b6 == ((d3 >> 8u16) & 0xff) as u8,
        b7 == (d3 & 0xff) as u8,
    ensures
        (((b6 & 0x0F) as u64) << 56u64) | ((b7 as u64) << 48u64) | ((b4 as u64) << 40u64) | ((
        b5 as u64) << 32u64) | ((b0 as u64) << 24u64) | ((b1 as u64) << 16u64) | ((b2 as u64)
            << 8u64) | (b3 as u64) == ticks & 0x0FFF_FFFF_FFFF_FFFF,
        b6 >> 4u8 == 1,
{
}

proof fn lemma_v6_tick_bits(
    ticks: u64,
    d1: u32,
    d2: u16,
    d3: u16,
    b0: u8,
    b1: u8,
    b2: u8,
    b3: u8,
    b4: u8,
    b5: u8,
    b6: u8,
    b7: u8,
)
    by (bit_vector)
    requires
        d1 == ((ticks >> 28u64) & 0xFFFF_FFFF) as u32,
        d2 == ((ticks >> 12u64) & 0xFFFF) as u16,
        d3 == (((ticks & 0x0FFF) as u16) | 0x6000u16),
        b0 == ((d1 >> 24u32) & 0xff) as u8,
        b1 == ((d1 >> 16u32) & 0xff) as u8,
        b2 == ((d1 >> 8u32) & 0xff) as u8,
        b3 == (d1 & 0xff) as u8,
        b4 == ((d2 >> 8u16) & 0xff) as u8,
        b5 == (d2 & 0xff) as u8,
        b6 == ((d3 >> 8u16) & 0xff) as u8,
        b7 == (d3 & 0xff) as u8,
    ensures
        ((b0 as u64) << 52u64) | ((b1 as u64) << 44u64) | ((b2 as u64) << 36u64) | ((b3 as u64)
            << 28u64) | ((b4 as u64) << 20u64) | ((b5 as u64) << 12u64) | (((b6 & 0xF) as u64)
            << 8u64) | (b7 as u64) == ticks & 0x0FFF_FFFF_FFFF_FFFF,
        b6 >> 4u8 == 6,
{
}

proof fn lemma_sequence_bits(counter: u16, b8: u8, b9: u8)
    by (bit_vector)
    requires
        b8 == ((((counter & 0x3F00) >> 8u16) & 0xff) as u8) | 0x80u8,
        b9 == (counter & 0xFF) as u8,
    ensures
        (((b8 & 0x3F) as u16) << 8u16) | (b9 as u16) == counter & 0x3FFF,
        b8 & 0xc0 == 0x80,
        b8 & 0x80 != 0,
{
}

proof fn lemma_v7_bits(
    millis: u64,
    r0: u8,
    r1: u8,
    r2: u8,
    d1: u32,
    d2: u16,
    d3: u16,
    b0: u8,
    b1: u8,
    b2: u8,
    b3: u8,
    b4: u8,
    b5: u8,
    b6: u8,
    b8: u8,
)
    by (bit_vector)
    requires
        d1 == ((millis >> 16u64) & 0xFFFF_FFFF) as u32,
        d2 == (millis & 0xFFFF) as u16,
        d3 == ((r0 as u16) | (((r1 as u16) << 8u16) & 0x0FFF)) | 0x7000u16,
        b0 == ((d1 >> 24u32) & 0xff) as u8,
        b1 == ((d1 >> 16u32) & 0xff) as u8,
        b2 == ((d1 >> 8u32) & 0xff) as u8,
        b3 == (d1 & 0xff) as u8,
        b4 == ((d2 >> 8u16) & 0xff) as u8,
        b5 == (d2 & 0xff) as u8,
        b6 == ((d3 >> 8u16) & 0xff) as u8,
        b8 == (r2 & 0x3F) | 0x80u8,
    ensures
        ((b0 as u64) << 40u64) | ((b1 as u64) << 32u64) | ((b2 as u64) << 24u64) | ((b3 as u64)
            << 16u64) | ((b4 as u64) << 8u64) | (b5 as u64) == millis & 0xFFFF_FFFF_FFFF,
        b6 >> 4u8 == 7,
        b8 & 0xc0 == 0x80,
        b8 & 0x80 != 0,
{
}

/// Version 1, there and back: the bytes packed for a tick count and a
/// clock sequence hold the low 60 bits of the one and the low 14 of the
/// other, so a tick count below 2^60 and a clock sequence below 2^14 are
/// read back unchanged; the bytes name version 1 and the variant of RFC 4122,
/// and end in the node.
pub proof fn lemma_v1_round_trip(ticks: u64, counter: u16, node: Seq<u8>)
    requires
        node.len() == 6,
    ensures
        v1_bytes(ticks, counter, node).len() == 16,
        v1_ticks(v1_bytes(ticks, counter, node)) == ticks & 0x0FFF_FFFF_FFFF_FFFF,
        sequence_in(v1_bytes(ticks, counter, node)) == counter & 0x3FFF,
        ticks < 0x1000_0000_0000_0000 ==> v1_ticks(v1_bytes(ticks, counter, node)) == ticks,
        counter <= 0x3FFF ==> sequence_in(v1_bytes(ticks, counter, node)) == counter,
        version_of(v1_bytes(ticks, counter, node)) == Some(UuidVersion::Mac),
        variant_of(v1_bytes(ticks, counter, node)[8]) == UuidVariant::RFC4122,
        v1_bytes(ticks, counter, node).subrange(10, 16) == node,
{
    let b = v1_bytes(ticks, counter, node);
    let f = v1_fields(ticks);
    lemma_v1_tick_bits(ticks, f.0, f.1, f.2, b[0], b[1], b[2], b[3], b[4], b[5], b[6], b[7]);
    lemma_sequence_bits(counter, b[8], b[9]);
    assert(ticks < 0x1000_0000_0000_0000 ==> ticks & 0x0FFF_FFFF_FFFF_FFFF == ticks)
        by (bit_vector);
    assert(counter <= 0x3FFF ==> counter & 0x3FFF == counter) by (bit_vector);
    assert(b.subrange(10, 16) =~= node);
}

/// Version 6, there and back: as for version 1, with the tick count laid
/// out highest bits first.
pub proof fn lemma_v6_round_trip(ticks: u64, counter: u16, node: Seq<u8>)
    requires
        node.len() == 6,
    ensures
        v6_bytes(ticks, counter, node).len() == 16,
        v6_ticks(v6_bytes(ticks, counter, node)) == ticks & 0x0FFF_FFFF_FFFF_FFFF,
        sequence_in(v6_bytes(ticks, counter, node)) == counter & 0x3FFF,
        ticks < 0x1000_0000_0000_0000 ==> v6_ticks(v6_bytes(ticks, counter, node)) == ticks,
        counter <= 0x3FFF ==> sequence_in(v6_bytes(ticks, counter, node)) == counter,
        version_of(v6_bytes(ticks, counter, node)) == Some(UuidVersion::SortMac),
        variant_of(v6_bytes(ticks, counter, node)[8]) == UuidVariant::RFC4122,
        v6_bytes(ticks, counter, node).subrange(10, 16) == node,
{
    let b = v6_bytes(ticks, counter, node);
    let f = v6_fields(ticks);
    lemma_v6_tick_bits(ticks, f.0, f.1, f.2, b[0], b[1], b[2], b[3], b[4], b[5], b[6], b[7]);
    lemma_sequence_bits(counter, b[8], b[9]);
    assert(ticks < 0x1000_0000_0000_0000 ==> ticks & 0x0FFF_FFFF_FFFF_FFFF == ticks)
        by (bit_vector);
    assert(counter <= 0x3FFF ==> counter & 0x3FFF == counter) by (bit_vector);
    assert(b.subrange(10, 16) =~= node);
}

/// Version 7, there and back: the bytes packed for a millisecond count hold
/// its low 48 bits, so a count below 2^48 is read back unchanged; the bytes
/// name version 7 and the variant of RFC 4122, and end in the last seven
/// random bytes.
pub proof fn lemma_v7_round_trip(millis: u64, random: Seq<u8>)
    requires
        random.len() == 10,
    ensures
        v7_bytes(millis, random).len() == 16,
        v7_millis(v7_bytes(millis, random)) == millis & 0xFFFF_FFFF_FFFF,
        millis < 0x1_0000_0000_0000 ==> v7_millis(v7_bytes(millis, random)) == millis,
        version_of(v7_bytes(millis, random)) == Some(UuidVersion::SortRand),
        variant_of(v7_bytes(millis, random)[8]) == UuidVariant::RFC4122,
        v7_bytes(millis, random).subrange(9, 16) == random.subrange(3, 10),
{
    let b = v7_bytes(millis, random);
    let f = v7_fields(millis, random);
    lemma_v7_bits(
        millis,
        random[0],
        random[1],
        random[2],
        f.0,
        f.1,
        f.2,
        b[0],
        b[1],
        b[2],
        b[3],
        b[4],
        b[5],
        b[6],
        b[8],
    );
    assert(millis < 0x1_0000_0000_0000 ==> millis & 0xFFFF_FFFF_FFFF == millis) by (bit_vector);
    assert(b.subrange(9, 16) =~= random.subrange(3, 10));
}

/// Time, there and back: a version 1 or a version 6 identifier made of a
/// time whose tick count is below 2^60, of a clock sequence and of a node,
/// holds that time to the tick, the nanoseconds below a tick dropped, and
/// holds that clock sequence, where it is below 2^14.
pub proof fn lemma_time_round_trip(seconds: u64, nanos: u32, counter: u16, node: Seq<u8>)
    requires
        nanos < 1_000_000_000,
        ticks_of(seconds, nanos) < 0x1000_0000_0000_0000,
        node.len() == 6,
    ensures
        time_in(v1_bytes(ticks_of(seconds, nanos) as u64, counter, node)) == Some(
            Timestamp { seconds, nanos: (nanos - nanos % 100) as u32 },
        ),
        time_in(v6_bytes(ticks_of(seconds, nanos) as u64, counter, node)) == Some(
            Timestamp { seconds, nanos: (nanos - nanos % 100) as u32 },
        ),
        counter <= 0x3FFF ==> sequence_in(v1_bytes(ticks_of(seconds, nanos) as u64, counter, node))
            == counter && sequence_in(v6_bytes(ticks_of(seconds, nanos) as u64, counter, node))
            == counter,
{
    let ticks = ticks_of(seconds, nanos) as u64;
    lemma_v1_round_trip(ticks, counter, node);
    lemma_v6_round_trip(ticks, counter, node);
    Timestamp::lemma_ticks_round_trip(seconds, nanos);
}

/// Milliseconds, there and back: a version 7 identifier made of a count of
/// milliseconds below 2^48 holds the time of that count.
pub proof fn lemma_millis_round_trip(millis: u64, random: Seq<u8>)
    requires
        millis < 0x1_0000_0000_0000,
        random.len() == 10,
    ensures
        time_in(v7_bytes(millis, random)) == Some(time_of_millis(millis)),
{
    lemma_v7_round_trip(millis, random);
}

} // verus!
