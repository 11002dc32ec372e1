//! Points in time as seconds and nanoseconds since the Unix epoch, their
//! count in the 100-nanosecond ticks of RFC 4122, and the clock sequence
//! that tells apart identifiers made within one tick.

use vstd::prelude::*;
use core::sync::atomic::{AtomicU64, Ordering};
use core::time::Duration;
use crate::error::Error;
use crate::rng;

verus! {

/// The number of 100-nanosecond ticks from 1582-10-15 00:00:00, where the
/// count of RFC 4122 begins, to 1970-01-01 00:00:00.
pub const UUID_TICKS_BETWEEN_EPOCHS: u64 = 0x01B2_1DD2_1381_4000;

/// The number of ticks in a second.
pub const TICKS_PER_SECOND: u64 = 10_000_000;

/// The number of values that a clock sequence runs through before it
/// begins again at zero.
pub const SEQUENCE_CYCLE: u16 = 0x3FFF;

/// The ticks, counted from 1582, of a time given from the Unix epoch.
pub open spec fn ticks_of(seconds: u64, nanos: u32) -> int {
    UUID_TICKS_BETWEEN_EPOCHS + seconds * TICKS_PER_SECOND + nanos / 100
}

/// A point in time: whole seconds since the Unix epoch, and the
/// nanoseconds of the second begun.
#[derive(Clone, Copy, Debug, PartialEq, Eq, Structural, Hash)]
pub struct Timestamp {
    pub seconds: u64,
    pub nanos: u32,
}

/// `SystemTime::elapsed` on the Unix epoch: the time that the system's
/// clock has gone since then, if the clock does not stand before it.
#[verifier::external_body]
fn since_unix_epoch() -> (r: Option<Duration>) {
    std::time::SystemTime::UNIX_EPOCH.elapsed().ok()
}

/// `Duration::as_secs`: the whole seconds of the duration.
pub assume_specification[ Duration::as_secs ](d: &Duration) -> (r: u64);

/// `Duration::subsec_nanos`: the nanoseconds of the second begun, less than
/// a thousand million.
pub assume_specification[ Duration::subsec_nanos ](d: &Duration) -> (r: u32)
    ensures
        r < 1_000_000_000,
;

impl Timestamp {
    /// The time of the system's clock, if the clock does not stand before
    /// the Unix epoch.
    pub fn now() -> (r: Option<Timestamp>)
        ensures
            r matches Some(ts) ==> ts.nanos < 1_000_000_000,
    {
        let elapsed: Option<(u64, u32)> = match since_unix_epoch() {
            Some(d) => Some((d.as_secs(), d.subsec_nanos())),
            None => None,
        };
        Timestamp::from_elapsed(elapsed)
    }

    /// The time that a clock gives: that of the seconds and nanoseconds
    /// gone since the Unix epoch, if the clock gave any.
    pub fn from_elapsed(elapsed: Option<(u64, u32)>) -> (r: Option<Timestamp>)
        ensures
            r == (match elapsed {
                Some((seconds, nanos)) => Some(Timestamp { seconds, nanos }),
                None => None::<Timestamp>,
            }),
    {
        match elapsed {
            Some((seconds, nanos)) => Some(Timestamp { seconds, nanos }),
            None => None,
        }
    }

    /// The time of a tick count of RFC 4122 that lies at or after the Unix
    /// epoch.
    pub fn from_rfc4122(ticks: u64) -> (r: Timestamp)
        requires
            ticks >= UUID_TICKS_BETWEEN_EPOCHS,
        ensures
            r.seconds == (ticks - UUID_TICKS_BETWEEN_EPOCHS) / (TICKS_PER_SECOND as int),
            r.nanos == ((ticks - UUID_TICKS_BETWEEN_EPOCHS) % (TICKS_PER_SECOND as int)) * 100,
            r.nanos < 1_000_000_000,
    {
        let (seconds, nanos) = Timestamp::rfc4122_to_unix(ticks);
        Timestamp { seconds, nanos }
    }

    /// The time that lies `seconds` and `nanos` after the Unix epoch.
    pub fn from_unix(seconds: u64, nanos: u32) -> (r: Timestamp)
        ensures
            r.seconds == seconds,
            r.nanos == nanos,
    {
        Timestamp { seconds, nanos }
    }

    /// Whether the tick count of this time fits in 64 bits.
    pub open spec fn has_ticks(&self) -> bool {
        ticks_of(self.seconds, self.nanos) <= u64::MAX
    }

    /// The tick count of RFC 4122 for this time.
    pub fn to_rfc4122(&self) -> (r: u64)
        requires
            self.has_ticks(),
        ensures
            r == ticks_of(self.seconds, self.nanos),
    {
        Timestamp::unix_to_rfc4122_ticks(self.seconds, self.nanos)
    }

    /// The tick count of RFC 4122 for this time, where it fits in 64 bits.
    pub fn checked_to_rfc4122(&self) -> (r: Option<u64>)
        ensures
            match r {
                Some(t) => self.has_ticks() && t == ticks_of(self.seconds, self.nanos),
                None => !self.has_ticks(),
            },
    {
        let sub: u64 = (self.nanos / 100) as u64;
        match self.seconds.checked_mul(TICKS_PER_SECOND) {
            None => None,
            Some(whole) => match whole.checked_add(sub) {
                None => None,
                Some(since) => since.checked_add(UUID_TICKS_BETWEEN_EPOCHS),
            },
        }
    }

    /// The seconds and nanoseconds since the Unix epoch.
    pub fn to_unix(&self) -> (r: (u64, u32))
        ensures
            r.0 == self.seconds,
            r.1 == self.nanos,
    {
        (self.seconds, self.nanos)
    }

    /// The nanoseconds of the second begun.
    pub fn to_unix_nanos(&self) -> (r: u32)
        ensures
            r == self.nanos,
    {
        self.nanos
    }

    /// The tick count, from 1582, of a time given from the Unix epoch.
    pub fn unix_to_rfc4122_ticks(seconds: u64, nanos: u32) -> (r: u64)
        requires
            ticks_of(seconds, nanos) <= u64::MAX,
        ensures
            r == ticks_of(seconds, nanos),
    {
        UUID_TICKS_BETWEEN_EPOCHS + seconds * TICKS_PER_SECOND + (nanos / 100) as u64
    }

    /// The seconds and nanoseconds, from the Unix epoch, of a tick count
    /// from 1582.
    pub fn rfc4122_to_unix(ticks: u64) -> (r: (u64, u32))
        requires
            ticks >= UUID_TICKS_BETWEEN_EPOCHS,
        ensures
            r.0 == (ticks - UUID_TICKS_BETWEEN_EPOCHS) / (TICKS_PER_SECOND as int),
            r.1 == ((ticks - UUID_TICKS_BETWEEN_EPOCHS) % (TICKS_PER_SECOND as int)) * 100,
            r.1 < 1_000_000_000,
    {
        let since: u64 = ticks - UUID_TICKS_BETWEEN_EPOCHS;
        let sub: u64 = since % TICKS_PER_SECOND;
        (since / TICKS_PER_SECOND, (sub as u32) * 100)
    }

    /// Ticks and back: a time with a whole number of ticks, and less than a
    /// second of nanoseconds, is the time of its tick count; any other is
    /// found again to the tick, the nanoseconds below a tick dropped.
    pub proof fn lemma_ticks_round_trip(seconds: u64, nanos: u32)
        requires
            nanos < 1_000_000_000,
            ticks_of(seconds, nanos) <= u64::MAX,
        ensures
            (ticks_of(seconds, nanos) - UUID_TICKS_BETWEEN_EPOCHS) / (TICKS_PER_SECOND as int)
                == seconds,
            ((ticks_of(seconds, nanos) - UUID_TICKS_BETWEEN_EPOCHS) % (TICKS_PER_SECOND as int))
                * 100 == nanos - nanos % 100,
    {
        let sub = nanos as int / 100;
        let since = seconds as int * 10_000_000 + sub;
        assert(0 <= sub < 10_000_000);
        assert(since / 10_000_000 == seconds as int && since % 10_000_000 == sub)
            by (nonlinear_arith)
            requires
                since == seconds as int * 10_000_000 + sub,
                0 <= sub < 10_000_000,
        ;
    }
}

/// The value that a counter read as `raw` gives to the clock sequence: it
/// runs from zero up to, but not onto, `SEQUENCE_CYCLE`, then begins again.
pub open spec fn sequence_value(raw: u64) -> u16 {
    (raw % (SEQUENCE_CYCLE as u64)) as u16
}

/// The clock sequence for a counter read as `raw`. It fits in fourteen bits.
pub fn sequence_of(raw: u64) -> (r: u16)
    ensures
        r == sequence_value(raw),
        r < SEQUENCE_CYCLE,
        r <= 0x3FFF,
{
    (raw % (SEQUENCE_CYCLE as u64)) as u16
}

/// Counter wrap: no value exceeds fourteen bits; below a cycle the value
/// is the counter itself; and a step of the counter steps the value by
/// one, but from the last value of a cycle to zero.
pub proof fn lemma_sequence_wraps(raw: u64)
    ensures
        sequence_value(raw) < SEQUENCE_CYCLE,
        sequence_value(raw) <= 0x3FFF,
        raw < SEQUENCE_CYCLE ==> sequence_value(raw) == raw,
        raw < u64::MAX && sequence_value(raw) == SEQUENCE_CYCLE - 1 ==> sequence_value(
            (raw + 1) as u64,
        ) == 0,
        raw < u64::MAX && sequence_value(raw) < SEQUENCE_CYCLE - 1 ==> sequence_value(
            (raw + 1) as u64,
        ) == sequence_value(raw) + 1,
{
}

/// Uniqueness within a cycle: two different reads of the counter that lie
/// less than a cycle apart, whichever is the later and wherever in its
/// range the counter stands, give different values.
pub proof fn lemma_sequence_distinct(a: u64, b: u64)
    requires
        a != b,
        a < b ==> b - a < SEQUENCE_CYCLE,
        b < a ==> a - b < SEQUENCE_CYCLE,
    ensures
        sequence_value(a) != sequence_value(b),
{
    let m = SEQUENCE_CYCLE as int;
    let qa = a as int / m;
    let qb = b as int / m;
    assert(a == m * qa + a as int % m);
    assert(b == m * qb + b as int % m);
    if a as int % m == b as int % m {
        assert(b - a == m * (qb - qa));
        assert(qb - qa >= 1 || qb - qa <= -1);
    }
}

/// Every run of requests shorter than a cycle gets pairwise different
/// values: the requests take the counter values `first`, `first + 1`, and
/// so on, each request its own.
pub proof fn lemma_sequence_run_distinct(first: u64, i: nat, j: nat)
    requires
        i < j < SEQUENCE_CYCLE,
        first + j <= u64::MAX,
    ensures
        sequence_value((first + i) as u64) != sequence_value((first + j) as u64),
{
    lemma_sequence_distinct((first + i) as u64, (first + j) as u64);
}

/// A source of clock sequences.
pub trait ClockSequence {
    /// The kind of number that the source gives.
    type Output;

    /// A number that differs from the last one given, for use as the clock
    /// sequence of an identifier made at the time `ts`.
    fn next(&self, ts: &Timestamp) -> Self::Output;
}

/// A counter that threads can share: each request takes the next value.
///
/// The counter is 64 bits wide, so that it does not come to the end of its
/// own range within any run of requests, and the values begin again only
/// at the end of a cycle.
#[derive(Debug)]
pub struct Context {
    count: AtomicU64,
}

impl Context {
    /// A counter that begins at `count`.
    pub fn new(count: u16) -> Context {
        Context { count: AtomicU64::new(count as u64) }
    }

    /// A counter that begins at a random value.
    ///
    /// Fails only where the system's source of random bytes fails.
    pub fn new_random() -> (r: Result<Context, Error>)
        ensures
            r matches Err(e) ==> e is Entropy,
    {
        Context::seeded(rng::u16())
    }

    /// A counter that begins at the value that a request for a random
    /// number gave, or the failure of that request.
    pub fn seeded(seed: Result<u16, Error>) -> (r: Result<Context, Error>)
        ensures
            match seed {
                Ok(_) => r is Ok,
                Err(e) => r == Err::<Context, Error>(e),
            },
    {
        match seed {
            Ok(count) => Ok(Context::new(count)),
            Err(e) => Err(e),
        }
    }
}

impl ClockSequence for Context {
    type Output = u16;

    /// Takes the counter's value, steps the counter by one, and gives the
    /// clock sequence of the value taken.
    fn next(&self, ts: &Timestamp) -> (r: u16)
        ensures
            r < SEQUENCE_CYCLE,
    {
        sequence_of(self.count.fetch_add(1, Ordering::AcqRel))
    }
}

} // verus!
