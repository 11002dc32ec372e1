//! An identifier as one number of 128 bits, and in either byte order.

use vstd::prelude::*;
use vstd::std_specs::convert::FromSpecImpl;
use crate::binary::Uuid;

verus! {

/// The sixteen bytes of `n`, the highest first.
pub open spec fn be_bytes_u128(n: u128) -> Seq<u8> {
    seq![
        ((n >> 120u128) & 0xff) as u8,
        ((n >> 112u128) & 0xff) as u8,
        ((n >> 104u128) & 0xff) as u8,
        ((n >> 96u128) & 0xff) as u8,
        ((n >> 88u128) & 0xff) as u8,
        ((n >> 80u128) & 0xff) as u8,
        ((n >> 72u128) & 0xff) as u8,
        ((n >> 64u128) & 0xff) as u8,
        ((n >> 56u128) & 0xff) as u8,
        ((n >> 48u128) & 0xff) as u8,
        ((n >> 40u128) & 0xff) as u8,
        ((n >> 32u128) & 0xff) as u8,
        ((n >> 24u128) & 0xff) as u8,
        ((n >> 16u128) & 0xff) as u8,
        ((n >> 8u128) & 0xff) as u8,
        (n & 0xff) as u8,
    ]
}

/// The number that sixteen bytes spell, the highest first.
pub open spec fn be_u128(b: Seq<u8>) -> u128
    recommends
        b.len() == 16,
{
    ((b[0] as u128) << 120u128) | ((b[1] as u128) << 112u128) | ((b[2] as u128) << 104u128) | ((
    b[3] as u128) << 96u128) | ((b[4] as u128) << 88u128) | ((b[5] as u128) << 80u128) | ((
    b[6] as u128) << 72u128) | ((b[7] as u128) << 64u128) | ((b[8] as u128) << 56u128) | ((
    b[9] as u128) << 48u128) | ((b[10] as u128) << 40u128) | ((b[11] as u128) << 32u128) | ((
    b[12] as u128) << 24u128) | ((b[13] as u128) << 16u128) | ((b[14] as u128) << 8u128) | (
    b[15] as u128)
}

/// `ByteOrder::write_u128` of `byteorder::BigEndian` on a buffer of sixteen
/// bytes: the bytes of `n`, the highest first.
#[verifier::external_body]
fn write_u128_be(n: u128) -> (r: [u8; 16])
    ensures
        r@ == be_bytes_u128(n),
{
    let mut buf = [0u8; 16];
    <byteorder::BigEndian as byteorder::ByteOrder>::write_u128(&mut buf, n);
    buf
}

/// `ByteOrder::write_u128` of `byteorder::LittleEndian` on a buffer of
/// sixteen bytes: the bytes of `n`, the lowest first.
#[verifier::external_body]
fn write_u128_le(n: u128) -> (r: [u8; 16])
    ensures
        r@ == be_bytes_u128(n).reverse(),
{
    let mut buf = [0u8; 16];
    <byteorder::LittleEndian as byteorder::ByteOrder>::write_u128(&mut buf, n);
    buf
}

/// The identifier whose bytes spell `quad`, the highest byte first.
pub open spec fn uuid_of_u128(quad: u128) -> Uuid {
    choose|u: Uuid| u@ == be_bytes_u128(quad)
}

impl Uuid {
    /// The identifier whose bytes spell `quad`, the highest byte first.
    pub fn from_u128(quad: u128) -> (r: Uuid)
        ensures
            r@ == be_bytes_u128(quad),
            r == uuid_of_u128(quad),
    {
        let r = Uuid::from_bytes(write_u128_be(quad));
        proof {
            let c = uuid_of_u128(quad);
            assert(c@ == be_bytes_u128(quad));
            r.lemma_view_decides(c);
        }
        r
    }

    /// The number that the bytes of the identifier spell, the highest first.
    pub fn as_u128(&self) -> (r: u128)
        ensures
            r == be_u128(self@),
    {
        let b = self.as_bytes();
        ((b[0] as u128) << 120) | ((b[1] as u128) << 112) | ((b[2] as u128) << 104) | ((
        b[3] as u128) << 96) | ((b[4] as u128) << 88) | ((b[5] as u128) << 80) | ((b[6] as u128)
            << 72) | ((b[7] as u128) << 64) | ((b[8] as u128) << 56) | ((b[9] as u128) << 48) | ((
        b[10] as u128) << 40) | ((b[11] as u128) << 32) | ((b[12] as u128) << 24) | ((
        b[13] as u128) << 16) | ((b[14] as u128) << 8) | (b[15] as u128)
    }
}

impl From<u128> for Uuid {
    fn from(f: u128) -> (r: Uuid) {
        Uuid::from_u128(f)
    }
}

impl FromSpecImpl<u128> for Uuid {
    open spec fn obeys_from_spec() -> bool {
        true
    }

    open spec fn from_spec(f: u128) -> Uuid {
        uuid_of_u128(f)
    }
}

/// The bytes of an identifier, the first field first.
#[derive(Clone, Copy, Debug, PartialEq, Eq, Hash, PartialOrd, Ord)]
pub struct Big(pub [u8; 16]);

/// The bytes of an identifier, the last byte first.
#[derive(Clone, Copy, Debug, PartialEq, Eq, Hash, PartialOrd, Ord)]
pub struct Little(pub [u8; 16]);

impl Big {
    /// The bytes of `f`, the highest first.
    pub fn from_u128(f: u128) -> (r: Big)
        ensures
            r.0@ == be_bytes_u128(f),
    {
        Big(write_u128_be(f))
    }

    /// The bytes of `f` as they stand.
    pub fn from_uuid(f: Uuid) -> (r: Big)
        ensures
            r.0@ == f@,
    {
        Big(*f.as_bytes())
    }
}

impl Little {
    /// The bytes of `f`, the lowest first.
    pub fn from_u128(f: u128) -> (r: Little)
        ensures
            r.0@ == be_bytes_u128(f).reverse(),
    {
        Little(write_u128_le(f))
    }

    /// The bytes of `f`, the last first.
    pub fn from_uuid(f: Uuid) -> (r: Little)
        ensures
            r.0@ == f@.reverse(),
    {
        let b = f.as_bytes();
        let mut out: [u8; 16] = [0u8; 16];
        let mut i: usize = 0;
        while i < 16
            invariant
                i <= 16,
                b@.len() == 16,
                forall|j: int| 0 <= j < i ==> out@[j] == b@[15 - j],
            decreases 16 - i,
        {
            out[i] = b[15 - i];
            i += 1;
        }
        assert(out@ =~= f@.reverse());
        Little(out)
    }
}

proof fn lemma_u128_bits(
    n: u128,
    b0: u8,
    b1: u8,
    b2: u8,
    b3: u8,
    b4: u8,
    b5: u8,
    b6: u8,
    b7: u8,
    b8: u8,
    b9: u8,
    b10: u8,
    b11: u8,
    b12: u8,
    b13: u8,
    b14: u8,
    b15: u8,
)
    by (bit_vector)
    requires
        b0 == ((n >> 120u128) & 0xff) as u8,
        b1 == ((n >> 112u128) & 0xff) as u8,
        b2 == ((n >> 104u128) & 0xff) as u8,
        b3 == ((n >> 96u128) & 0xff) as u8,
        b4 == ((n >> 88u128) & 0xff) as u8,
        b5 == ((n >> 80u128) & 0xff) as u8,
        b6 == ((n >> 72u128) & 0xff) as u8,
        b7 == ((n >> 64u128) & 0xff) as u8,
        b8 == ((n >> 56u128) & 0xff) as u8,
        b9 == ((n >> 48u128) & 0xff) as u8,
        b10 == ((n >> 40u128) & 0xff) as u8,
        b11 == ((n >> 32u128) & 0xff) as u8,
        b12 == ((n >> 24u128) & 0xff) as u8,
        b13 == ((n >> 16u128) & 0xff) as u8,
        b14 == ((n >> 8u128) & 0xff) as u8,
        b15 == (n & 0xff) as u8,
    ensures
        ((b0 as u128) << 120u128) | ((b1 as u128) << 112u128) | ((b2 as u128) << 104u128) | ((
        b3 as u128) << 96u128) | ((b4 as u128) << 88u128) | ((b5 as u128) << 80u128) | ((
        b6 as u128) << 72u128) | ((b7 as u128) << 64u128) | ((b8 as u128) << 56u128) | ((
        b9 as u128) << 48u128) | ((b10 as u128) << 40u128) | ((b11 as u128) << 32u128) | ((
        b12 as u128) << 24u128) | ((b13 as u128) << 16u128) | ((b14 as u128) << 8u128) | (
        b15 as u128) == n,
{
}

/// A number, written as bytes and read again, is that number; and only
/// zero is written as the nil identifier.
pub proof fn lemma_u128_round_trip(n: u128)
    ensures
        be_bytes_u128(n).len() == 16,
        be_u128(be_bytes_u128(n)) == n,
        be_bytes_u128(n) == crate::binary::nil_bytes() <==> n == 0,
{
    let b = be_bytes_u128(n);
    lemma_u128_bits(
        n,
        b[0],
        b[1],
        b[2],
        b[3],
        b[4],
        b[5],
        b[6],
        b[7],
        b[8],
        b[9],
        b[10],
        b[11],
        b[12],
        b[13],
        b[14],
        b[15],
    );
    let z = crate::binary::nil_bytes();
    if n == 0 {
        assert(((0u128 >> 120u128) & 0xff) as u8 == 0 && ((0u128 >> 112u128) & 0xff) as u8 == 0 && ((
        0u128 >> 104u128) & 0xff) as u8 == 0 && ((0u128 >> 96u128) & 0xff) as u8 == 0 && ((0u128
            >> 88u128) & 0xff) as u8 == 0 && ((0u128 >> 80u128) & 0xff) as u8 == 0 && ((0u128
            >> 72u128) & 0xff) as u8 == 0 && ((0u128 >> 64u128) & 0xff) as u8 == 0 && ((0u128
            >> 56u128) & 0xff) as u8 == 0 && ((0u128 >> 48u128) & 0xff) as u8 == 0 && ((0u128
            >> 40u128) & 0xff) as u8 == 0 && ((0u128 >> 32u128) & 0xff) as u8 == 0 && ((0u128
            >> 24u128) & 0xff) as u8 == 0 && ((0u128 >> 16u128) & 0xff) as u8 == 0 && ((0u128
            >> 8u128) & 0xff) as u8 == 0 && (0u128 & 0xff) as u8 == 0) by (bit_vector);
        assert(b =~= z);
    }
    if b == z {
        assert(forall|i: int| 0 <= i < 16 ==> b[i] == z[i]);
        assert(b[0] == 0 && b[1] == 0 && b[2] == 0 && b[3] == 0 && b[4] == 0 && b[5] == 0 && b[6]
            == 0 && b[7] == 0 && b[8] == 0 && b[9] == 0 && b[10] == 0 && b[11] == 0 && b[12] == 0
            && b[13] == 0 && b[14] == 0 && b[15] == 0);
        assert(be_u128(b) == 0) by {
            assert(((0u8 as u128) << 120u128) | ((0u8 as u128) << 112u128) | ((0u8 as u128)
                << 104u128) | ((0u8 as u128) << 96u128) | ((0u8 as u128) << 88u128) | ((
            0u8 as u128) << 80u128) | ((0u8 as u128) << 72u128) | ((0u8 as u128) << 64u128) | ((
            0u8 as u128) << 56u128) | ((0u8 as u128) << 48u128) | ((0u8 as u128) << 40u128) | ((
            0u8 as u128) << 32u128) | ((0u8 as u128) << 24u128) | ((0u8 as u128) << 16u128) | ((
            0u8 as u128) << 8u128) | (0u8 as u128) == 0) by (bit_vector);
        }
    }
}

proof fn lemma_byte_bits(
    n: u128,
    b0: u8,
    b1: u8,
    b2: u8,
    b3: u8,
    b4: u8,
    b5: u8,
    b6: u8,
    b7: u8,
    b8: u8,
    b9: u8,
    b10: u8,
    b11: u8,
    b12: u8,
    b13: u8,
    b14: u8,
    b15: u8,
)
    by (bit_vector)
    requires
        n == ((b0 as u128) << 120u128) | ((b1 as u128) << 112u128) | ((b2 as u128) << 104u128) | ((
        b3 as u128) << 96u128) | ((b4 as u128) << 88u128) | ((b5 as u128) << 80u128) | ((
        b6 as u128) << 72u128) | ((b7 as u128) << 64u128) | ((b8 as u128) << 56u128) | ((
        b9 as u128) << 48u128) | ((b10 as u128) << 40u128) | ((b11 as u128) << 32u128) | ((
        b12 as u128) << 24u128) | ((b13 as u128) << 16u128) | ((b14 as u128) << 8u128) | (
        b15 as u128),
    ensures
        b0 == ((n >> 120u128) & 0xff) as u8,
        b1 == ((n >> 112u128) & 0xff) as u8,
        b2 == ((n >> 104u128) & 0xff) as u8,
        b3 == ((n >> 96u128) & 0xff) as u8,
        b4 == ((n >> 88u128) & 0xff) as u8,
        b5 == ((n >> 80u128) & 0xff) as u8,
        b6 == ((n >> 72u128) & 0xff) as u8,
        b7 == ((n >> 64u128) & 0xff) as u8,
        b8 == ((n >> 56u128) & 0xff) as u8,
        b9 == ((n >> 48u128) & 0xff) as u8,
        b10 == ((n >> 40u128) & 0xff) as u8,
        b11 == ((n >> 32u128) & 0xff) as u8,
        b12 == ((n >> 24u128) & 0xff) as u8,
        b13 == ((n >> 16u128) & 0xff) as u8,
        b14 == ((n >> 8u128) & 0xff) as u8,
        b15 == (n & 0xff) as u8,
{
}

/// Sixteen bytes, read as a number and written again, are those bytes.
pub proof fn lemma_bytes_round_trip(b: Seq<u8>)
    requires
        b.len() == 16,
    ensures
        be_bytes_u128(be_u128(b)) == b,
{
    lemma_byte_bits(
        be_u128(b),
        b[0],
        b[1],
        b[2],
        b[3],
        b[4],
        b[5],
        b[6],
        b[7],
        b[8],
        b[9],
        b[10],
        b[11],
        b[12],
        b[13],
        b[14],
        b[15],
    );
    assert(be_bytes_u128(be_u128(b)) =~= b);
}

} // verus!
