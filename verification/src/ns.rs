//! The namespaces that RFC 4122 names for name-based identifiers.

use vstd::prelude::*;
use crate::binary::Uuid;

verus! {

/// The bytes of the namespace whose fourth byte is `tag`.
pub open spec fn namespace_bytes(tag: u8) -> Seq<u8> {
    seq![
        0x6bu8,
        0xa7u8,
        0xb8u8,
        tag,
        0x9du8,
        0xadu8,
        0x11u8,
        0xd1u8,
        0x80u8,
        0xb4u8,
        0x00u8,
        0xc0u8,
        0x4fu8,
        0xd4u8,
        0x30u8,
        0xc8u8,
    ]
}

fn namespace(tag: u8) -> (r: Uuid)
    ensures
        r@ == namespace_bytes(tag),
{
    let bytes: [u8; 16] = [
        0x6b,
        0xa7,
        0xb8,
        tag,
        0x9d,
        0xad,
        0x11,
        0xd1,
        0x80,
        0xb4,
        0x00,
        0xc0,
        0x4f,
        0xd4,
        0x30,
        0xc8,
    ];
    assert(bytes@ =~= namespace_bytes(tag));
    Uuid::from_bytes(bytes)
}

/// The namespace of fully qualified domain names: `6ba7b810-9dad-11d1-80b4-00c04fd430c8`.
pub fn namespace_dns() -> (r: Uuid)
    ensures
        r@ == namespace_bytes(0x10),
{
    namespace(0x10)
}

/// The namespace of URLs: `6ba7b811-9dad-11d1-80b4-00c04fd430c8`.
pub fn namespace_url() -> (r: Uuid)
    ensures
        r@ == namespace_bytes(0x11),
{
    namespace(0x11)
}

/// The namespace of ISO object identifiers: `6ba7b812-9dad-11d1-80b4-00c04fd430c8`.
pub fn namespace_oid() -> (r: Uuid)
    ensures
        r@ == namespace_bytes(0x12),
{
    namespace(0x12)
}

/// The namespace of X.500 distinguished names: `6ba7b814-9dad-11d1-80b4-00c04fd430c8`.
pub fn namespace_x500() -> (r: Uuid)
    ensures
        r@ == namespace_bytes(0x14),
{
    namespace(0x14)
}

} // verus!
