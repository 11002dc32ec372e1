//! Making identifiers: from a name and a namespace, from random bytes, from
//! a time and a node.

use vstd::prelude::*;
use vstd::string::*;
use crate::binary::{stamped, Uuid, UuidVersion};
use crate::codec::{encode_rfc4122_timestamp, encode_sorted_rfc4122_timestamp, encode_unix_timestamp_millis, v1_bytes, v6_bytes, v7_bytes};
use crate::error::{BytesError, Error};
use crate::hash::{hash, md5_digest, md5_of, name_input, sha1_digest};
use crate::rng;
use crate::timestamp::{ticks_of, ClockSequence, Timestamp};

verus! {

/// The bytes of the version 3 identifier of a name in a namespace.
pub open spec fn v3_bytes(namespace: Seq<u8>, name: Seq<u8>) -> Seq<u8> {
    stamped(md5_digest(namespace + name), UuidVersion::Md5)
}

/// The bytes of the version 5 identifier of a name in a namespace.
pub open spec fn v5_bytes(namespace: Seq<u8>, name: Seq<u8>) -> Seq<u8> {
    stamped(sha1_digest(namespace + name).subrange(0, 16), UuidVersion::Sha1)
}

/// The milliseconds since the Unix epoch of a time, no more than 64 bits hold.
pub open spec fn millis_of(seconds: u64, nanos: u32) -> u64 {
    let m = seconds * 1000 + nanos / 1_000_000;
    if m > u64::MAX {
        u64::MAX
    } else {
        m as u64
    }
}

/// The six bytes of a node.
pub fn node_of(node_id: &[u8]) -> (r: Result<[u8; 6], BytesError>)
    ensures
        match r {
            Ok(n) => node_id@.len() == 6 && n@ == node_id@,
            Err(e) => node_id@.len() != 6 && e.expected() == 6 && e.found() == node_id@.len(),
        },
{
    if node_id.len() != 6 {
        return Err(BytesError::new(6, node_id.len()));
    }
    let n: [u8; 6] = [node_id[0], node_id[1], node_id[2], node_id[3], node_id[4], node_id[5]];
    assert(n@ =~= node_id@);
    Ok(n)
}

/// The milliseconds since the Unix epoch of a time.
pub fn unix_millis(ts: &Timestamp) -> (r: u64)
    ensures
        r == millis_of(ts.seconds, ts.nanos),
{
    let sub: u64 = (ts.nanos / 1_000_000) as u64;
    match ts.seconds.checked_mul(1000) {
        None => u64::MAX,
        Some(whole) => whole.saturating_add(sub),
    }
}

/// A node id made of six random bytes: the bytes, with the multicast bit,
/// the lowest of the first byte, set.
pub fn node_id_from_random(random: [u8; 6]) -> (r: [u8; 6])
    ensures
        r@ == random@.update(0, random@[0] | 0x01),
        r@[0] & 0x01 == 1,
{
    let mut out = random;
    let b: u8 = random[0];
    assert((b | 0x01) & 0x01 == 1) by (bit_vector);
    out[0] = b | 0x01;
    assert(out@ =~= random@.update(0, random@[0] | 0x01));
    out
}

/// `mac_address::get_mac_address`: the six bytes of the hardware address of
/// the first network device that has one, if the system names one.
#[verifier::external_body]
fn hardware_address() -> (r: Option<[u8; 6]>) {
    match mac_address::get_mac_address() {
        Ok(Some(mac)) => Some(mac.bytes()),
        _ => None,
    }
}

/// The node id of this machine: its hardware address, or else a random one
/// with the multicast bit set.
///
/// Fails only where there is no hardware address and the system's source
/// of random bytes fails.
pub fn make_node_id() -> (r: Result<[u8; 6], Error>)
    ensures
        r matches Err(e) ==> e is Entropy,
{
    node_id_with(hardware_address())
}

/// The node id of a machine whose hardware address, if it has one, is
/// `hardware`: that address, or else a random node id with the multicast
/// bit set.
///
/// Never fails where there is a hardware address; without one, fails only
/// where the system's source of random bytes fails.
pub fn node_id_with(hardware: Option<[u8; 6]>) -> (r: Result<[u8; 6], Error>)
    ensures
        match hardware {
            Some(mac) => r == Ok::<[u8; 6], Error>(mac),
            None => match r {
                Ok(n) => n@[0] & 0x01 == 1,
                Err(e) => e is Entropy,
            },
        },
{
    match hardware {
        Some(mac) => Ok(mac),
        None => make_random_node_id(),
    }
}

/// A random node id, with the multicast bit set.
pub fn make_random_node_id() -> (r: Result<[u8; 6], Error>)
    ensures
        match r {
            Ok(n) => n@[0] & 0x01 == 1,
            Err(e) => e is Entropy,
        },
{
    match rng::random_bytes(6) {
        Ok(v) => {
            let raw: [u8; 6] = [v[0], v[1], v[2], v[3], v[4], v[5]];
            Ok(node_id_from_random(raw))
        },
        Err(e) => Err(e),
    }
}

impl Uuid {
    /// The version 3 identifier of `name` in `namespace`: the MD5 digest of
    /// the namespace's bytes followed by the name's, stamped.
    pub fn new_v3(namespace: &Uuid, name: &str) -> (r: Uuid)
        ensures
            r@ == v3_bytes(namespace@, name.spec_bytes()),
    {
        let data = name_input(namespace.as_bytes(), name.as_bytes());
        Uuid::from_md5_bytes(md5_of(data.as_slice()))
    }

    /// The version 5 identifier of `name` in `namespace`: the first sixteen
    /// bytes of the SHA-1 digest of the namespace's bytes followed by the
    /// name, stamped.
    pub fn new_v5(namespace: &Uuid, name: &[u8]) -> (r: Uuid)
        ensures
            r@ == v5_bytes(namespace@, name@),
    {
        Uuid::from_sha1_bytes(hash(namespace.as_bytes(), name))
    }

    /// A version 4 identifier of random bytes.
    ///
    /// Fails only where the system's source of random bytes fails.
    pub fn new_v4() -> (r: Result<Uuid, Error>)
        ensures
            match r {
                Ok(u) => exists|b: Seq<u8>|
                    b.len() == 16 && u@ == #[trigger] stamped(b, UuidVersion::Random),
                Err(e) => e is Entropy,
            },
    {
        match rng::bytes() {
            Ok(b) => {
                let u = Uuid::from_random_bytes(b);
                assert(b@.len() == 16 && u@ == stamped(b@, UuidVersion::Random));
                Ok(u)
            },
            Err(e) => Err(e),
        }
    }

    /// The version 1 identifier of a time, a clock sequence and a node.
    ///
    /// Rejects a node that does not hold six bytes.
    pub fn from_v1_parts(ts: Timestamp, counter: u16, node_id: &[u8]) -> (r: Result<
        Uuid,
        BytesError,
    >)
        requires
            ts.has_ticks(),
        ensures
            match r {
                Ok(u) => node_id@.len() == 6 && u@ == v1_bytes(
                    ticks_of(ts.seconds, ts.nanos) as u64,
                    counter,
                    node_id@,
                ),
                Err(e) => node_id@.len() != 6 && e.expected() == 6 && e.found() == node_id@.len(),
            },
    {
        match node_of(node_id) {
            Ok(node) => Ok(encode_rfc4122_timestamp(ts.to_rfc4122(), counter, &node)),
            Err(e) => Err(e),
        }
    }

    /// The version 6 identifier of a time, a clock sequence and a node.
    ///
    /// Rejects a node that does not hold six bytes.
    pub fn from_v6_parts(ts: Timestamp, counter: u16, node_id: &[u8]) -> (r: Result<
        Uuid,
        BytesError,
    >)
        requires
            ts.has_ticks(),
        ensures
            match r {
                Ok(u) => node_id@.len() == 6 && u@ == v6_bytes(
                    ticks_of(ts.seconds, ts.nanos) as u64,
                    counter,
                    node_id@,
                ),
                Err(e) => node_id@.len() != 6 && e.expected() == 6 && e.found() == node_id@.len(),
            },
    {
        match node_of(node_id) {
            Ok(node) => Ok(encode_sorted_rfc4122_timestamp(ts.to_rfc4122(), counter, &node)),
            Err(e) => Err(e),
        }
    }

    /// A version 1 identifier of a time and a node, with the next clock
    /// sequence of `context`, of which the low fourteen bits are kept.
    ///
    /// Rejects a node that does not hold six bytes; the clock sequence is
    /// then not taken.
    pub fn new_v1<C: ClockSequence<Output = u16>>(ts: Timestamp, context: &C, node_id: &[u8]) -> (r:
        Result<Uuid, BytesError>)
        requires
            ts.has_ticks(),
        ensures
            match r {
                Ok(u) => node_id@.len() == 6 && exists|counter: u16|
                    u@ == #[trigger] v1_bytes(
                        ticks_of(ts.seconds, ts.nanos) as u64,
                        counter,
                        node_id@,
                    ),
                Err(e) => node_id@.len() != 6 && e.expected() == 6 && e.found() == node_id@.len(),
            },
    {
        if node_id.len() != 6 {
            return Err(BytesError::new(6, node_id.len()));
        }
        let counter: u16 = context.next(&ts);
        Uuid::from_v1_parts(ts, counter, node_id)
    }

    /// A version 6 identifier of a time and a node, with the next clock
    /// sequence of `context`, of which the low fourteen bits are kept.
    ///
    /// Rejects a node that does not hold six bytes; the clock sequence is
    /// then not taken.
    pub fn new_v6<C: ClockSequence<Output = u16>>(ts: Timestamp, context: &C, node_id: &[u8]) -> (r:
        Result<Uuid, BytesError>)
        requires
            ts.has_ticks(),
        ensures
            match r {
                Ok(u) => node_id@.len() == 6 && exists|counter: u16|
                    u@ == #[trigger] v6_bytes(
                        ticks_of(ts.seconds, ts.nanos) as u64,
                        counter,
                        node_id@,
                    ),
                Err(e) => node_id@.len() != 6 && e.expected() == 6 && e.found() == node_id@.len(),
            },
    {
        if node_id.len() != 6 {
            return Err(BytesError::new(6, node_id.len()));
        }
        let counter: u16 = context.next(&ts);
        Uuid::from_v6_parts(ts, counter, node_id)
    }

    /// The version 7 identifier of a time and ten random bytes.
    pub fn from_v7_parts(ts: Timestamp, random: &[u8; 10]) -> (r: Uuid)
        ensures
            r@ == v7_bytes(millis_of(ts.seconds, ts.nanos), random@),
    {
        encode_unix_timestamp_millis(unix_millis(&ts), random)
    }

    /// A version 7 identifier of a time, with random bytes.
    ///
    /// Fails only where the system's source of random bytes fails.
    pub fn new_v7(ts: Timestamp) -> (r: Result<Uuid, Error>)
        ensures
            match r {
                Ok(u) => exists|random: Seq<u8>|
                    random.len() == 10 && u@ == #[trigger] v7_bytes(
                        millis_of(ts.seconds, ts.nanos),
                        random,
                    ),
                Err(e) => e is Entropy,
            },
    {
        match rng::random_bytes(10) {
            Ok(v) => {
                let random: [u8; 10] = [v[0], v[1], v[2], v[3], v[4], v[5], v[6], v[7], v[8], v[9]];
                let u = Uuid::from_v7_parts(ts, &random);
                assert(random@.len() == 10 && u@ == v7_bytes(
                    millis_of(ts.seconds, ts.nanos),
                    random@,
                ));
                Ok(u)
            },
            Err(e) => Err(e),
        }
    }
}

} // verus!
