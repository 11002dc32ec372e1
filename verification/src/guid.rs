//! The identifier as the four fields of a Windows GUID.

use vstd::prelude::*;
use crate::binary::{be_u16, be_u32, fields_bytes, lemma_fields_round_trip, Uuid};

verus! {

/// The four fields of a Windows GUID, as numbers and bytes and in no
/// particular byte order of their own.
#[derive(Clone, Copy, Debug, PartialEq, Eq, Hash)]
pub struct Guid {
    pub data1: u32,
    pub data2: u16,
    pub data3: u16,
    pub data4: [u8; 8],
}

impl Uuid {
    /// The identifier whose fields are those of `guid`, passed unchanged.
    pub fn from_guid(guid: Guid) -> (r: Uuid)
        ensures
            r@ == fields_bytes(guid.data1, guid.data2, guid.data3, guid.data4@),
    {
        Uuid::assemble(guid.data1, guid.data2, guid.data3, guid.data4.as_slice())
    }

    /// The GUID whose fields are those of the identifier, passed unchanged.
    pub fn to_guid(&self) -> (r: Guid)
        ensures
            r.data1 == be_u32(self@.subrange(0, 4)),
            r.data2 == be_u16(self@.subrange(4, 6)),
            r.data3 == be_u16(self@.subrange(6, 8)),
            r.data4@ == self@.subrange(8, 16),
    {
        let (data1, data2, data3, data4) = self.as_fields();
        Guid { data1, data2, data3, data4 }
    }
}

/// A GUID made into an identifier and back is that GUID.
pub proof fn lemma_guid_round_trip(guid: Guid, uuid: Uuid, back: Guid)
    requires
        uuid@ == fields_bytes(guid.data1, guid.data2, guid.data3, guid.data4@),
        back.data1 == be_u32(uuid@.subrange(0, 4)),
        back.data2 == be_u16(uuid@.subrange(4, 6)),
        back.data3 == be_u16(uuid@.subrange(6, 8)),
        back.data4@ == uuid@.subrange(8, 16),
    ensures
        back == guid,
{
    lemma_fields_round_trip(guid.data1, guid.data2, guid.data3, guid.data4@);
    assert(back.data4 =~= guid.data4);
}

} // verus!
