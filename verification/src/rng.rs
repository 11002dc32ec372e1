//! Random bytes from the operating system.

use vstd::prelude::*;
use crate::error;

verus! {

/// `getrandom::fill` on a fresh buffer of `n` bytes: on success the buffer,
/// filled; else the code that `raw_os_error` gives for the crate's error.
/// Nothing is claimed of the bytes.
#[verifier::external_body]
fn os_random(n: usize) -> (r: Result<Vec<u8>, Option<i32>>)
    ensures
        r matches Ok(v) ==> v@.len() == n,
{
    let mut buf = vec![0u8; n];
    match getrandom::fill(&mut buf) {
        Ok(()) => Ok(buf),
        Err(e) => Err(e.raw_os_error()),
    }
}

/// The outcome of a request for `n` random bytes, as this library reports
/// it: the bytes, or the failure of the source with its code.
pub fn random_outcome(n: usize, got: Result<Vec<u8>, Option<i32>>) -> (r: Result<Vec<u8>, error::Error>)
    requires
        got matches Ok(v) ==> v@.len() == n,
    ensures
        match got {
            Ok(v) => r == Ok::<Vec<u8>, error::Error>(v),
            Err(code) => r == Err::<Vec<u8>, error::Error>(error::Error::Entropy { code }),
        },
        r matches Ok(v) ==> v@.len() == n,
{
    match got {
        Ok(v) => Ok(v),
        Err(code) => Err(error::Error::Entropy { code }),
    }
}

/// Asks the operating system for `n` random bytes.
///
/// Fails, with the system's code, only where the system's source fails.
pub fn random_bytes(n: usize) -> (r: Result<Vec<u8>, error::Error>)
    ensures
        match r {
            Ok(v) => v@.len() == n,
            Err(e) => e is Entropy,
        },
{
    random_outcome(n, os_random(n))
}

/// The number that two bytes spell, the lower first.
pub open spec fn le_u16(b: Seq<u8>) -> u16
    recommends
        b.len() == 2,
{
    (b[0] as u16) | ((b[1] as u16) << 8u16)
}

/// The number that eight bytes spell, the lowest first.
pub open spec fn le_u64(b: Seq<u8>) -> u64
    recommends
        b.len() == 8,
{
    (b[0] as u64) | ((b[1] as u64) << 8u64) | ((b[2] as u64) << 16u64) | ((b[3] as u64) << 24u64)
        | ((b[4] as u64) << 32u64) | ((b[5] as u64) << 40u64) | ((b[6] as u64) << 48u64) | ((
    b[7] as u64) << 56u64)
}

/// The number that sixteen bytes spell, the lowest first.
pub open spec fn le_u128(b: Seq<u8>) -> u128
    recommends
        b.len() == 16,
{
    (le_u64(b.subrange(0, 8)) as u128) | ((le_u64(b.subrange(8, 16)) as u128) << 64u128)
}

/// What a request for two random bytes gives as a number: the number that
/// the bytes spell, the lower first, or the failure of the request.
pub fn u16_outcome(got: Result<Vec<u8>, error::Error>) -> (r: Result<u16, error::Error>)
    requires
        got matches Ok(v) ==> v@.len() == 2,
    ensures
        match got {
            Ok(v) => r == Ok::<u16, error::Error>(le_u16(v@)),
            Err(e) => r == Err::<u16, error::Error>(e),
        },
{
    match got {
        Ok(v) => Ok((v[0] as u16) | ((v[1] as u16) << 8)),
        Err(e) => Err(e),
    }
}

fn le_u64_at(v: &Vec<u8>, at: usize) -> (r: u64)
    requires
        at + 8 <= v.len(),
    ensures
        r == le_u64(v@.subrange(at as int, at + 8)),
{
    (v[at] as u64) | ((v[at + 1] as u64) << 8) | ((v[at + 2] as u64) << 16) | ((v[at + 3] as u64)
        << 24) | ((v[at + 4] as u64) << 32) | ((v[at + 5] as u64) << 40) | ((v[at + 6] as u64)
        << 48) | ((v[at + 7] as u64) << 56)
}

/// What a request for eight random bytes gives as a number: the number
/// that the bytes spell, the lowest first, or the failure of the request.
pub fn u64_outcome(got: Result<Vec<u8>, error::Error>) -> (r: Result<u64, error::Error>)
    requires
        got matches Ok(v) ==> v@.len() == 8,
    ensures
        match got {
            Ok(v) => r == Ok::<u64, error::Error>(le_u64(v@)),
            Err(e) => r == Err::<u64, error::Error>(e),
        },
{
    match got {
        Ok(v) => {
            assert(v@.subrange(0, 8) =~= v@);
            Ok(le_u64_at(&v, 0))
        },
        Err(e) => Err(e),
    }
}

/// What a request for sixteen random bytes gives as a number: the number
/// that the bytes spell, the lowest first, or the failure of the request.
pub fn u128_outcome(got: Result<Vec<u8>, error::Error>) -> (r: Result<u128, error::Error>)
    requires
        got matches Ok(v) ==> v@.len() == 16,
    ensures
        match got {
            Ok(v) => r == Ok::<u128, error::Error>(le_u128(v@)),
            Err(e) => r == Err::<u128, error::Error>(e),
        },
{
    match got {
        Ok(v) => {
            let low: u64 = le_u64_at(&v, 0);
            let high: u64 = le_u64_at(&v, 8);
            Ok((low as u128) | ((high as u128) << 64))
        },
        Err(e) => Err(e),
    }
}

/// What a request for sixteen random bytes gives as an array: the bytes, in
/// their order, or the failure of the request.
pub fn bytes_outcome(got: Result<Vec<u8>, error::Error>) -> (r: Result<[u8; 16], error::Error>)
    requires
        got matches Ok(v) ==> v@.len() == 16,
    ensures
        match got {
            Ok(v) => r matches Ok(a) && a@ == v@,
            Err(e) => r == Err::<[u8; 16], error::Error>(e),
        },
{
    match got {
        Ok(v) => {
            let mut out: [u8; 16] = [0u8; 16];
            let mut i: usize = 0;
            while i < 16
                invariant
                    i <= 16,
                    v@.len() == 16,
                    forall|j: int| 0 <= j < i ==> out@[j] == v@[j],
                decreases 16 - i,
            {
                out[i] = v[i];
                i += 1;
            }
            assert(out@ =~= v@);
            Ok(out)
        },
        Err(e) => Err(e),
    }
}

/// A random 16-bit number: the number that two random bytes spell.
///
/// Fails only where the system's source of random bytes fails.
pub fn u16() -> (r: Result<u16, error::Error>)
    ensures
        r matches Err(e) ==> e is Entropy,
{
    u16_outcome(random_bytes(2))
}

/// A random 64-bit number: the number that eight random bytes spell.
///
/// Fails only where the system's source of random bytes fails.
pub fn u64() -> (r: Result<u64, error::Error>)
    ensures
        r matches Err(e) ==> e is Entropy,
{
    u64_outcome(random_bytes(8))
}

/// A random 128-bit number: the number that sixteen random bytes spell.
///
/// Fails only where the system's source of random bytes fails.
pub fn u128() -> (r: Result<u128, error::Error>)
    ensures
        r matches Err(e) ==> e is Entropy,
{
    u128_outcome(random_bytes(16))
}

/// Sixteen random bytes.
///
/// Fails only where the system's source of random bytes fails.
pub fn bytes() -> (r: Result<[u8; 16], error::Error>)
    ensures
        r matches Err(e) ==> e is Entropy,
{
    bytes_outcome(random_bytes(16))
}

} // verus!
