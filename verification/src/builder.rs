//! Assembling an identifier step by step.

use vstd::prelude::*;
use crate::binary::{fields_bytes, nil_bytes, variant_byte, version_byte, Uuid, UuidVariant, UuidVersion};
use crate::error::BytesError;

verus! {

/// The sixteen bytes `b` with each of the first three fields turned end
/// for end: the order in which a little-endian machine holds them.
pub open spec fn fields_swapped(b: Seq<u8>) -> Seq<u8>
    recommends
        b.len() == 16,
{
    seq![b[3], b[2], b[1], b[0], b[5], b[4], b[7], b[6]] + b.subrange(8, 16)
}

impl Uuid {
    /// Takes sixteen bytes whose first three fields stand lowest byte first.
    pub fn from_bytes_le(b: [u8; 16]) -> (r: Uuid)
        ensures
            r@ == fields_swapped(b@),
    {
        let bytes: [u8; 16] = [
            b[3],
            b[2],
            b[1],
            b[0],
            b[5],
            b[4],
            b[7],
            b[6],
            b[8],
            b[9],
            b[10],
            b[11],
            b[12],
            b[13],
            b[14],
            b[15],
        ];
        assert(bytes@ =~= fields_swapped(b@));
        Uuid::from_bytes(bytes)
    }

    /// The sixteen bytes with the first three fields lowest byte first.
    pub fn to_bytes_le(&self) -> (r: [u8; 16])
        ensures
            r@ == fields_swapped(self@),
    {
        let b = self.as_bytes();
        let bytes: [u8; 16] = [
            b[3],
            b[2],
            b[1],
            b[0],
            b[5],
            b[4],
            b[7],
            b[6],
            b[8],
            b[9],
            b[10],
            b[11],
            b[12],
            b[13],
            b[14],
            b[15],
        ];
        assert(bytes@ =~= fields_swapped(self@));
        bytes
    }
}

/// Turning the fields end for end twice gives the bytes back.
pub proof fn lemma_fields_swapped_twice(b: Seq<u8>)
    requires
        b.len() == 16,
    ensures
        fields_swapped(fields_swapped(b)) == b,
{
    assert(fields_swapped(fields_swapped(b)) =~= b);
}

/// An identifier under construction.
#[derive(Debug)]
pub struct UuidBuilder {
    uuid: Uuid,
}

impl View for UuidBuilder {
    type V = Seq<u8>;

    closed spec fn view(&self) -> Seq<u8> {
        self.uuid@
    }
}

impl UuidBuilder {
    /// Begins with sixteen bytes, the first field first.
    pub fn from_bytes_be(b: [u8; 16]) -> (r: UuidBuilder)
        ensures
            r@ == b@,
    {
        UuidBuilder { uuid: Uuid::from_bytes_be(b) }
    }

    /// Begins with sixteen bytes whose first three fields stand lowest
    /// byte first.
    pub fn from_bytes_le(b: [u8; 16]) -> (r: UuidBuilder)
        ensures
            r@ == fields_swapped(b@),
    {
        UuidBuilder { uuid: Uuid::from_bytes_le(b) }
    }

    /// Begins with a slice of sixteen bytes.
    ///
    /// A slice of another length is rejected, with the length found.
    pub fn from_slice(b: &[u8]) -> (r: Result<UuidBuilder, BytesError>)
        ensures
            match r {
                Ok(u) => b@.len() == 16 && u@ == b@,
                Err(e) => b@.len() != 16 && e.expected() == 16 && e.found() == b@.len(),
            },
    {
        match Uuid::from_slice(b) {
            Ok(uuid) => Ok(UuidBuilder { uuid }),
            Err(e) => Err(e),
        }
    }

    /// Begins with the four fields.
    ///
    /// A last field that does not hold eight bytes is rejected, with the
    /// length found.
    pub fn from_fields(d1: u32, d2: u16, d3: u16, d4: &[u8]) -> (r: Result<UuidBuilder, BytesError>)
        ensures
            match r {
                Ok(u) => d4@.len() == 8 && u@ == fields_bytes(d1, d2, d3, d4@),
                Err(e) => d4@.len() != 8 && e.expected() == 8 && e.found() == d4@.len(),
            },
    {
        match Uuid::from_fields(d1, d2, d3, d4) {
            Ok(uuid) => Ok(UuidBuilder { uuid }),
            Err(e) => Err(e),
        }
    }

    /// Begins with the nil identifier.
    pub fn nil() -> (r: UuidBuilder)
        ensures
            r@ == nil_bytes(),
    {
        UuidBuilder { uuid: Uuid::nil() }
    }

    /// Rewrites the high bits of byte 8 to the pattern of `v`.
    pub fn set_variant(&mut self, v: UuidVariant) -> (r: &mut UuidBuilder)
        ensures
            r@ == old(self)@.update(8, variant_byte(old(self)@[8], v)),
            *final(self) == *final(r),
    {
        self.uuid.set_variant(v);
        self
    }

    /// Rewrites the high half of byte 6 to the number of `v`.
    pub fn set_version(&mut self, v: UuidVersion) -> (r: &mut UuidBuilder)
        ensures
            r@ == old(self)@.update(6, version_byte(old(self)@[6], v)),
            *final(self) == *final(r),
    {
        self.uuid.set_version(v);
        self
    }

    /// The identifier as it stands.
    pub fn build(&self) -> (r: Uuid)
        ensures
            r@ == self@,
    {
        self.uuid
    }
}

} // verus!
