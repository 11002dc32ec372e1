//! The 16-byte identifier value and its field and bit accessors.

use vstd::prelude::*;
use vstd::std_specs::cmp::PartialEqSpecImpl;
use crate::error::BytesError;

verus! {

/// The layout family of an identifier, held in the high bits of byte 8.
#[derive(Clone, Copy, Debug, PartialEq, Eq, Structural, Hash)]
pub enum UuidVariant {
    /// Reserved by the NCS for backward compatibility (top bit `0`).
    NCS,
    /// The layout of RFC 4122 (top bits `10`).
    RFC4122,
    /// Reserved by Microsoft for backward compatibility (top bits `110`).
    Microsoft,
    /// Reserved for future expansion (top bits `111`).
    Future,
}

/// The variant that a value of byte 8 stands for.
pub open spec fn variant_of(b: u8) -> UuidVariant {
    if b & 0x80 == 0x00 {
        UuidVariant::NCS
    } else if b & 0xc0 == 0x80 {
        UuidVariant::RFC4122
    } else if b & 0xe0 == 0xc0 {
        UuidVariant::Microsoft
    } else {
        UuidVariant::Future
    }
}

/// Byte 8 with its high bits rewritten to the pattern of the variant `v`,
/// the other bits kept.
pub open spec fn variant_byte(b: u8, v: UuidVariant) -> u8 {
    match v {
        UuidVariant::NCS => b & 0x7f,
        UuidVariant::RFC4122 => (b & 0x3f) | 0x80,
        UuidVariant::Microsoft => (b & 0x1f) | 0xc0,
        UuidVariant::Future => b | 0xe0,
    }
}

/// The generation scheme of an identifier, held in the high half of byte 6.
#[derive(Clone, Copy, Debug, PartialEq, Eq, Structural, Hash)]
pub enum UuidVersion {
    /// Number 0: the nil identifier alone.
    Nil,
    /// Number 1: time and node.
    Mac,
    /// Number 3: MD5 hash of a name.
    Md5,
    /// Number 4: random.
    Random,
    /// Number 5: SHA-1 hash of a name.
    Sha1,
    /// Number 6: time and node, sortable.
    SortMac,
    /// Number 7: Unix time and random, sortable.
    SortRand,
    /// Number 8: custom.
    Custom,
}

impl UuidVersion {
    /// The number that stands for the scheme in the identifier.
    pub open spec fn spec_number(self) -> u8 {
        match self {
            UuidVersion::Nil => 0,
            UuidVersion::Mac => 1,
            UuidVersion::Md5 => 3,
            UuidVersion::Random => 4,
            UuidVersion::Sha1 => 5,
            UuidVersion::SortMac => 6,
            UuidVersion::SortRand => 7,
            UuidVersion::Custom => 8,
        }
    }

    /// The number that stands for the scheme in the identifier.
    #[verifier::when_used_as_spec(spec_number)]
    pub fn number(self) -> (r: u8)
        ensures
            r == self.spec_number(),
    {
        match self {
            UuidVersion::Nil => 0,
            UuidVersion::Mac => 1,
            UuidVersion::Md5 => 3,
            UuidVersion::Random => 4,
            UuidVersion::Sha1 => 5,
            UuidVersion::SortMac => 6,
            UuidVersion::SortRand => 7,
            UuidVersion::Custom => 8,
        }
    }
}

/// Byte 6 with its high half rewritten to the number of `v`, the low half kept.
pub open spec fn version_byte(b: u8, v: UuidVersion) -> u8 {
    (b & 0x0f) | (v.number() << 4u8)
}

/// Sixteen bytes with the variant bits set to RFC 4122 and the version
/// number set to that of `v`; every other bit kept.
pub open spec fn stamped(b: Seq<u8>, v: UuidVersion) -> Seq<u8>
    recommends
        b.len() == 16,
{
    b.update(6, version_byte(b[6], v)).update(8, variant_byte(b[8], UuidVariant::RFC4122))
}

/// What is written is read: a byte rewritten for a variant is classed as
/// that variant, and keeps its low five bits.
pub proof fn lemma_variant_written(b: u8, v: UuidVariant)
    ensures
        variant_of(variant_byte(b, v)) == v,
        variant_byte(b, v) & 0x1f == b & 0x1f,
{
    assert((b & 0x7f) & 0x80 == 0 && (b & 0x7f) & 0x1f == b & 0x1f) by (bit_vector);
    assert(((b & 0x3f) | 0x80) & 0xc0 == 0x80 && ((b & 0x3f) | 0x80) & 0x80 != 0 && ((b & 0x3f)
        | 0x80) & 0x1f == b & 0x1f) by (bit_vector);
    assert(((b & 0x1f) | 0xc0) & 0xe0 == 0xc0 && ((b & 0x1f) | 0xc0) & 0x80 != 0 && ((b & 0x1f)
        | 0xc0) & 0xc0 != 0x80 && ((b & 0x1f) | 0xc0) & 0x1f == b & 0x1f) by (bit_vector);
    assert((b | 0xe0) & 0xe0 == 0xe0 && (b | 0xe0) & 0x80 != 0 && (b | 0xe0) & 0xc0 != 0x80 && (b
        | 0xe0) & 0x1f == b & 0x1f) by (bit_vector);
}

/// Every byte belongs to exactly one variant, by its high bits.
pub proof fn lemma_variant_exhaustive(b: u8)
    ensures
        variant_of(b) == UuidVariant::NCS <==> b < 0x80,
        variant_of(b) == UuidVariant::RFC4122 <==> 0x80 <= b < 0xc0,
        variant_of(b) == UuidVariant::Microsoft <==> 0xc0 <= b < 0xe0,
        variant_of(b) == UuidVariant::Future <==> 0xe0 <= b,
{
    assert(b & 0x80 == 0 <==> b < 0x80) by (bit_vector);
    assert(b & 0xc0 == 0x80 <==> 0x80 <= b < 0xc0) by (bit_vector);
    assert(b & 0xe0 == 0xc0 <==> 0xc0 <= b < 0xe0) by (bit_vector);
}

/// What is written is read: a byte rewritten for a version holds that
/// version's number in its high half, and keeps its low half.
pub proof fn lemma_version_written(b: u8, v: UuidVersion)
    ensures
        version_byte(b, v) >> 4u8 == v.number(),
        version_byte(b, v) & 0x0f == b & 0x0f,
{
    let n = v.number();
    assert(n <= 8 ==> ((b & 0x0f) | (n << 4u8)) >> 4u8 == n && ((b & 0x0f) | (n << 4u8)) & 0x0f == b
        & 0x0f) by (bit_vector);
}

/// Stamped bytes name the version stamped, unless that is the nil version,
/// and the variant of RFC 4122; the other fourteen bytes are untouched.
pub proof fn lemma_stamped(b: Seq<u8>, v: UuidVersion)
    requires
        b.len() == 16,
    ensures
        stamped(b, v).len() == 16,
        v != UuidVersion::Nil ==> version_of(stamped(b, v)) == Some(v),
        variant_of(stamped(b, v)[8]) == UuidVariant::RFC4122,
        forall|i: int| 0 <= i < 16 && i != 6 && i != 8 ==> stamped(b, v)[i] == b[i],
{
    lemma_version_written(b[6], v);
    lemma_variant_written(b[8], UuidVariant::RFC4122);
}

/// The sixteen zero bytes.
pub open spec fn nil_bytes() -> Seq<u8> {
    Seq::new(16, |i: int| 0u8)
}

/// The scheme that sixteen bytes name: by the high half of byte 6, where
/// that is the number of a scheme; number 0 only on the nil identifier.
pub open spec fn version_of(b: Seq<u8>) -> Option<UuidVersion> {
    let n = b[6] >> 4u8;
    if n == 0 {
        if b == nil_bytes() {
            Some(UuidVersion::Nil)
        } else {
            None
        }
    } else if n == 1 {
        Some(UuidVersion::Mac)
    } else if n == 3 {
        Some(UuidVersion::Md5)
    } else if n == 4 {
        Some(UuidVersion::Random)
    } else if n == 5 {
        Some(UuidVersion::Sha1)
    } else if n == 6 {
        Some(UuidVersion::SortMac)
    } else if n == 7 {
        Some(UuidVersion::SortRand)
    } else if n == 8 {
        Some(UuidVersion::Custom)
    } else {
        None
    }
}

/// The four bytes of `x`, the highest first.
pub open spec fn be_bytes_u32(x: u32) -> Seq<u8> {
    seq![
        ((x >> 24u32) & 0xff) as u8,
        ((x >> 16u32) & 0xff) as u8,
        ((x >> 8u32) & 0xff) as u8,
        (x & 0xff) as u8,
    ]
}

/// The two bytes of `x`, the higher first.
pub open spec fn be_bytes_u16(x: u16) -> Seq<u8> {
    seq![((x >> 8u16) & 0xff) as u8, (x & 0xff) as u8]
}

/// The number that four bytes spell, the highest first.
pub open spec fn be_u32(b: Seq<u8>) -> u32
    recommends
        b.len() == 4,
{
    ((b[0] as u32) << 24u32) | ((b[1] as u32) << 16u32) | ((b[2] as u32) << 8u32) | (b[3] as u32)
}

/// The number that two bytes spell, the higher first.
pub open spec fn be_u16(b: Seq<u8>) -> u16
    recommends
        b.len() == 2,
{
    ((b[0] as u16) << 8u16) | (b[1] as u16)
}

/// The sixteen bytes of an identifier with the four fields given.
pub open spec fn fields_bytes(d1: u32, d2: u16, d3: u16, d4: Seq<u8>) -> Seq<u8>
    recommends
        d4.len() == 8,
{
    be_bytes_u32(d1) + be_bytes_u16(d2) + be_bytes_u16(d3) + d4
}

/// Fields, there and back: the number that the bytes of a number spell is
/// that number.
pub proof fn lemma_be_round_trip(x: u32, y: u16)
    ensures
        be_bytes_u32(x).len() == 4,
        be_bytes_u16(y).len() == 2,
        be_u32(be_bytes_u32(x)) == x,
        be_u16(be_bytes_u16(y)) == y,
{
    assert((((((x >> 24u32) & 0xff) as u8) as u32) << 24u32) | (((((x >> 16u32) & 0xff) as u8) as u32)
        << 16u32) | (((((x >> 8u32) & 0xff) as u8) as u32) << 8u32) | (((x & 0xff) as u8) as u32)
        == x) by (bit_vector);
    assert((((((y >> 8u16) & 0xff) as u8) as u16) << 8u16) | (((y & 0xff) as u8) as u16) == y)
        by (bit_vector);
}

/// Fields, there and back: the four fields read from the bytes assembled
/// of four fields are those fields.
pub proof fn lemma_fields_round_trip(d1: u32, d2: u16, d3: u16, d4: Seq<u8>)
    requires
        d4.len() == 8,
    ensures
        fields_bytes(d1, d2, d3, d4).len() == 16,
        be_u32(fields_bytes(d1, d2, d3, d4).subrange(0, 4)) == d1,
        be_u16(fields_bytes(d1, d2, d3, d4).subrange(4, 6)) == d2,
        be_u16(fields_bytes(d1, d2, d3, d4).subrange(6, 8)) == d3,
        fields_bytes(d1, d2, d3, d4).subrange(8, 16) == d4,
{
    let b = fields_bytes(d1, d2, d3, d4);
    lemma_be_round_trip(d1, d2);
    lemma_be_round_trip(d1, d3);
    assert(b.subrange(0, 4) =~= be_bytes_u32(d1));
    assert(b.subrange(4, 6) =~= be_bytes_u16(d2));
    assert(b.subrange(6, 8) =~= be_bytes_u16(d3));
    assert(b.subrange(8, 16) =~= d4);
}

/// A universally unique identifier: sixteen bytes, fields in big-endian order.
#[derive(Clone, Copy, Debug, Eq, Hash, PartialOrd, Ord)]
pub struct Uuid {
    bytes: [u8; 16],
}

impl PartialEq for Uuid {
    fn eq(&self, other: &Uuid) -> (r: bool) {
        let mut i: usize = 0;
        while i < 16
            invariant
                i <= 16,
                forall|j: int| 0 <= j < i ==> self.bytes@[j] == other.bytes@[j],
            decreases 16 - i,
        {
            if self.bytes[i] != other.bytes[i] {
                return false;
            }
            i += 1;
        }
        assert(self.bytes@ =~= other.bytes@);
        true
    }
}

impl PartialEqSpecImpl for Uuid {
    open spec fn obeys_eq_spec() -> bool {
        true
    }

    open spec fn eq_spec(&self, other: &Uuid) -> bool {
        self@ == other@
    }
}

impl View for Uuid {
    type V = Seq<u8>;

    closed spec fn view(&self) -> Seq<u8> {
        self.bytes@
    }
}

impl Uuid {
    /// Every identifier holds exactly sixteen bytes.
    pub broadcast proof fn lemma_len(self)
        ensures
            #[trigger] self@.len() == 16,
    {
    }

    /// The identifier whose bytes are all zero.
    pub fn nil() -> (r: Uuid)
        ensures
            r@ == nil_bytes(),
    {
        let r = Uuid { bytes: [0u8; 16] };
        assert(r@ =~= nil_bytes());
        r
    }

    /// Takes sixteen bytes as an identifier, unchanged.
    pub fn from_uuid_bytes(bytes: [u8; 16]) -> (r: Uuid)
        ensures
            r@ == bytes@,
    {
        Uuid { bytes }
    }

    /// The sixteen bytes of the identifier.
    pub fn as_bytes(&self) -> (r: &[u8; 16])
        ensures
            r@ == self@,
    {
        &self.bytes
    }

    /// The variant that the high bits of byte 8 stand for.
    pub fn get_variant(&self) -> (r: UuidVariant)
        ensures
            r == variant_of(self@[8]),
    {
        let b: u8 = self.bytes[8];
        if b & 0x80 == 0x00 {
            UuidVariant::NCS
        } else if b & 0xc0 == 0x80 {
            UuidVariant::RFC4122
        } else if b & 0xe0 == 0xc0 {
            UuidVariant::Microsoft
        } else {
            UuidVariant::Future
        }
    }

    /// Takes sixteen bytes as an identifier, unchanged.
    pub fn from_bytes(bytes: [u8; 16]) -> (r: Uuid)
        ensures
            r@ == bytes@,
    {
        Uuid { bytes }
    }

    /// Takes sixteen bytes, the first field first, as an identifier.
    pub fn from_bytes_be(bytes: [u8; 16]) -> (r: Uuid)
        ensures
            r@ == bytes@,
    {
        Uuid { bytes }
    }

    /// The sixteen bytes of the identifier, the first field first.
    pub fn as_bytes_be(&self) -> (r: &[u8; 16])
        ensures
            r@ == self@,
    {
        &self.bytes
    }

    /// Takes a slice of sixteen bytes as an identifier.
    ///
    /// A slice of another length is rejected, with the length found.
    pub fn from_slice(b: &[u8]) -> (r: Result<Uuid, BytesError>)
        ensures
            match r {
                Ok(u) => b@.len() == 16 && u@ == b@,
                Err(e) => b@.len() != 16 && e.expected() == 16 && e.found() == b@.len(),
            },
    {
        let len = b.len();
        if len != 16 {
            return Err(BytesError::new(16, len));
        }
        let mut bytes: [u8; 16] = [0u8; 16];
        let mut i: usize = 0;
        while i < 16
            invariant
                i <= 16,
                b@.len() == 16,
                forall|j: int| 0 <= j < i ==> bytes@[j] == b@[j],
            decreases 16 - i,
        {
            bytes[i] = b[i];
            i += 1;
        }
        assert(bytes@ =~= b@);
        Ok(Uuid { bytes })
    }

    /// Assembles an identifier from its four fields, each highest byte first.
    ///
    /// A last field that does not hold eight bytes is rejected, with the
    /// length found.
    pub fn from_fields(d1: u32, d2: u16, d3: u16, d4: &[u8]) -> (r: Result<Uuid, BytesError>)
        ensures
            match r {
                Ok(u) => d4@.len() == 8 && u@ == fields_bytes(d1, d2, d3, d4@),
                Err(e) => d4@.len() != 8 && e.expected() == 8 && e.found() == d4@.len(),
            },
    {
        if d4.len() != 8 {
            return Err(BytesError::new(8, d4.len()));
        }
        Ok(Uuid::assemble(d1, d2, d3, d4))
    }

    /// Assembles an identifier from its four fields, the last of eight bytes.
    pub(crate) fn assemble(d1: u32, d2: u16, d3: u16, d4: &[u8]) -> (r: Uuid)
        requires
            d4@.len() == 8,
        ensures
            r@ == fields_bytes(d1, d2, d3, d4@),
    {
        let a = u32_to_be(d1);
        let b = u16_to_be(d2);
        let c = u16_to_be(d3);
        let bytes: [u8; 16] = [
            a[0],
            a[1],
            a[2],
            a[3],
            b[0],
            b[1],
            c[0],
            c[1],
            d4[0],
            d4[1],
            d4[2],
            d4[3],
            d4[4],
            d4[5],
            d4[6],
            d4[7],
        ];
        assert(bytes@ =~= fields_bytes(d1, d2, d3, d4@));
        Uuid { bytes }
    }

    /// The four fields of the identifier: bytes 0 to 3, 4 to 5 and 6 to 7 as
    /// numbers, highest byte first, and bytes 8 to 15 unchanged.
    pub fn as_fields(&self) -> (r: (u32, u16, u16, [u8; 8]))
        ensures
            r.0 == be_u32(self@.subrange(0, 4)),
            r.1 == be_u16(self@.subrange(4, 6)),
            r.2 == be_u16(self@.subrange(6, 8)),
            r.3@ == self@.subrange(8, 16),
    {
        let b = &self.bytes;
        let d1: u32 = ((b[0] as u32) << 24) | ((b[1] as u32) << 16) | ((b[2] as u32) << 8) | (
        b[3] as u32);
        let d2: u16 = ((b[4] as u16) << 8) | (b[5] as u16);
        let d3: u16 = ((b[6] as u16) << 8) | (b[7] as u16);
        let d4: [u8; 8] = [b[8], b[9], b[10], b[11], b[12], b[13], b[14], b[15]];
        assert(d4@ =~= self@.subrange(8, 16));
        (d1, d2, d3, d4)
    }

    /// Whether every byte is zero.
    pub fn is_nil(&self) -> (r: bool)
        ensures
            r == (self@ == nil_bytes()),
    {
        let mut i: usize = 0;
        while i < 16
            invariant
                i <= 16,
                forall|j: int| 0 <= j < i ==> self.bytes@[j] == 0,
            decreases 16 - i,
        {
            if self.bytes[i] != 0 {
                assert(nil_bytes()[i as int] == 0);
                return false;
            }
            i += 1;
        }
        assert(self@ =~= nil_bytes());
        true
    }

    /// Rewrites the high bits of byte 8 to the pattern of `v`.
    pub fn set_variant(&mut self, v: UuidVariant)
        ensures
            final(self)@ == old(self)@.update(8, variant_byte(old(self)@[8], v)),
    {
        let b: u8 = self.bytes[8];
        self.bytes[8] = match v {
            UuidVariant::NCS => b & 0x7f,
            UuidVariant::RFC4122 => (b & 0x3f) | 0x80,
            UuidVariant::Microsoft => (b & 0x1f) | 0xc0,
            UuidVariant::Future => b | 0xe0,
        };
        assert(self@ =~= old(self)@.update(8, variant_byte(old(self)@[8], v)));
    }

    /// Rewrites the high half of byte 6 to the number of `v`, and keeps the
    /// low half.
    pub fn set_version(&mut self, v: UuidVersion)
        ensures
            final(self)@ == old(self)@.update(6, version_byte(old(self)@[6], v)),
    {
        let b: u8 = self.bytes[6];
        let n: u8 = v.number();
        assert(n <= 8);
        self.bytes[6] = (b & 0x0f) | (n << 4);
        assert(self@ =~= old(self)@.update(6, version_byte(old(self)@[6], v)));
    }

    /// The number in the high half of byte 6.
    pub fn get_version_num(&self) -> (r: usize)
        ensures
            r == self@[6] >> 4u8,
            r < 16,
    {
        let b: u8 = self.bytes[6];
        assert(b >> 4u8 < 16) by (bit_vector);
        (b >> 4) as usize
    }

    /// The scheme that the identifier names, if its number is that of one.
    pub fn get_version(&self) -> (r: Option<UuidVersion>)
        ensures
            r == version_of(self@),
    {
        let v: u8 = self.bytes[6] >> 4;
        match v {
            0 => if self.is_nil() {
                Some(UuidVersion::Nil)
            } else {
                None
            },
            1 => Some(UuidVersion::Mac),
            3 => Some(UuidVersion::Md5),
            4 => Some(UuidVersion::Random),
            5 => Some(UuidVersion::Sha1),
            6 => Some(UuidVersion::SortMac),
            7 => Some(UuidVersion::SortRand),
            8 => Some(UuidVersion::Custom),
            _ => None,
        }
    }

    /// An identifier with the sixteen bytes given, but for the variant,
    /// set to RFC 4122, and the version, set to `v`.
    pub fn from_versioned_bytes(b: [u8; 16], v: UuidVersion) -> (r: Uuid)
        ensures
            r@ == stamped(b@, v),
    {
        let mut uuid = Uuid { bytes: b };
        uuid.set_variant(UuidVariant::RFC4122);
        uuid.set_version(v);
        assert(uuid@ =~= stamped(b@, v));
        uuid
    }

    /// A version 4 identifier from sixteen random bytes.
    pub fn from_random_bytes(b: [u8; 16]) -> (r: Uuid)
        ensures
            r@ == stamped(b@, UuidVersion::Random),
    {
        Uuid::from_versioned_bytes(b, UuidVersion::Random)
    }

    /// A version 3 identifier from the sixteen bytes of an MD5 digest.
    pub fn from_md5_bytes(b: [u8; 16]) -> (r: Uuid)
        ensures
            r@ == stamped(b@, UuidVersion::Md5),
    {
        Uuid::from_versioned_bytes(b, UuidVersion::Md5)
    }

    /// A version 5 identifier from the first sixteen bytes of a SHA-1 digest.
    pub fn from_sha1_bytes(b: [u8; 16]) -> (r: Uuid)
        ensures
            r@ == stamped(b@, UuidVersion::Sha1),
    {
        Uuid::from_versioned_bytes(b, UuidVersion::Sha1)
    }

    /// A version 8 identifier from sixteen bytes of the caller's choice.
    pub fn new_v8(buf: [u8; 16]) -> (r: Uuid)
        ensures
            r@ == stamped(buf@, UuidVersion::Custom),
    {
        Uuid::from_versioned_bytes(buf, UuidVersion::Custom)
    }

    /// Bytes, there and back: the array taken from an identifier made of an
    /// array is that array.
    pub proof fn lemma_bytes_round_trip(b: [u8; 16], u: Uuid, out: [u8; 16])
        requires
            u@ == b@,
            out@ == u@,
        ensures
            out == b,
    {
        assert(out@ =~= b@);
        assert(out =~= b);
    }

    /// Two identifiers with the same bytes are the same identifier.
    pub proof fn lemma_view_decides(self, other: Uuid)
        requires
            self@ == other@,
        ensures
            self == other,
    {
        assert(self.bytes@ =~= other.bytes@);
        assert(self.bytes =~= other.bytes);
    }
}

impl Default for Uuid {
    fn default() -> (r: Uuid)
        ensures
            r@ == nil_bytes(),
    {
        Uuid::nil()
    }
}

/// The four bytes of `x`, the highest first.
pub fn u32_to_be(x: u32) -> (r: [u8; 4])
    ensures
        r@ == be_bytes_u32(x),
{
    assert((x >> 24u32) & 0xff < 256 && (x >> 16u32) & 0xff < 256 && (x >> 8u32) & 0xff < 256 && x
        & 0xff < 256) by (bit_vector);
    let r: [u8; 4] = [
        ((x >> 24) & 0xff) as u8,
        ((x >> 16) & 0xff) as u8,
        ((x >> 8) & 0xff) as u8,
        (x & 0xff) as u8,
    ];
    assert(r@ =~= be_bytes_u32(x));
    r
}

/// The two bytes of `x`, the higher first.
pub fn u16_to_be(x: u16) -> (r: [u8; 2])
    ensures
        r@ == be_bytes_u16(x),
{
    assert((x >> 8u16) & 0xff < 256 && x & 0xff < 256) by (bit_vector);
    let r: [u8; 2] = [((x >> 8) & 0xff) as u8, (x & 0xff) as u8];
    assert(r@ =~= be_bytes_u16(x));
    r
}

} // verus!
