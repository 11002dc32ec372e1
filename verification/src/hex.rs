//! Hexadecimal digits: their values, and the two lookup tables that decode a
//! pair of digits into a byte.

use vstd::prelude::*;

verus! {

/// The value that a table holds for a byte that is no hexadecimal digit.
pub const NOT_HEX: u8 = 0xff;

/// Whether `b` is one of `0-9`, `a-f`, `A-F`.
pub open spec fn is_hex(b: u8) -> bool {
    (0x30 <= b <= 0x39) || (0x61 <= b <= 0x66) || (0x41 <= b <= 0x46)
}

/// The value, 0 to 15, of the hexadecimal digit `b`; `NOT_HEX` for any other byte.
pub open spec fn hex_value(b: u8) -> u8 {
    if 0x30 <= b <= 0x39 {
        (b - 0x30) as u8
    } else if 0x61 <= b <= 0x66 {
        (b - 0x61 + 10) as u8
    } else if 0x41 <= b <= 0x46 {
        (b - 0x41 + 10) as u8
    } else {
        NOT_HEX
    }
}

/// The byte that the two hexadecimal digits `hi`, `lo` spell.
pub open spec fn pair_value(hi: u8, lo: u8) -> u8
    recommends
        is_hex(hi),
        is_hex(lo),
{
    (hex_value(hi) * 16 + hex_value(lo)) as u8
}

/// A byte is a hexadecimal digit exactly when its value is below sixteen.
pub proof fn lemma_hex_value_range(b: u8)
    ensures
        is_hex(b) <==> hex_value(b) < 16,
        !is_hex(b) <==> hex_value(b) == NOT_HEX,
{
}

/// The value of one byte, computed without a table.
pub fn hex_digit(b: u8) -> (r: u8)
    ensures
        r == hex_value(b),
{
    if 0x30 <= b && b <= 0x39 {
        b - 0x30
    } else if 0x61 <= b && b <= 0x66 {
        b - 0x61 + 10
    } else if 0x41 <= b && b <= 0x46 {
        b - 0x41 + 10
    } else {
        NOT_HEX
    }
}

/// The table of digit values: entry `b` is the value of the byte `b`, or
/// `NOT_HEX` where `b` is no hexadecimal digit.
pub fn generate_lookup_table() -> (table: [u8; 256])
    ensures
        forall|b: u8| #[trigger] table@[b as int] == hex_value(b),
{
    let mut buf = [0u8; 256];
    let mut i: u8 = 0;
    loop
        invariant
            forall|b: u8| b < i ==> #[trigger] buf@[b as int] == hex_value(b),
        decreases 255 - i,
    {
        buf[i as usize] = hex_digit(i);
        if i == 255 {
            return buf;
        }
        i += 1;
    }
}

/// The table of high nibbles: entry `b` is `b` shifted left by four bits,
/// the bits that leave the byte dropped.
pub fn generate_shl4_table() -> (table: [u8; 256])
    ensures
        forall|b: u8| #[trigger] table@[b as int] == (b << 4u8),
{
    let mut buf = [0u8; 256];
    let mut i: u8 = 0;
    loop
        invariant
            forall|b: u8| b < i ==> #[trigger] buf@[b as int] == (b << 4u8),
        decreases 255 - i,
    {
        buf[i as usize] = i << 4u8;
        if i == 255 {
            return buf;
        }
        i += 1;
    }
}

/// Joining a shifted high digit with a low digit is the pair's value.
pub proof fn lemma_join_nibbles(h: u8, l: u8)
    requires
        h < 16,
        l < 16,
    ensures
        ((h << 4u8) | l) == h * 16 + l,
{
    assert(((h << 4u8) | l) == h * 16 + l) by (bit_vector)
        requires
            h < 16,
            l < 16,
    ;
}

/// Two table values are both digits exactly when their union is not `NOT_HEX`.
pub proof fn lemma_sentinel_union(a: u8, b: u8)
    requires
        a < 16 || a == NOT_HEX,
        b < 16 || b == NOT_HEX,
    ensures
        (a | b) == NOT_HEX <==> (a == NOT_HEX || b == NOT_HEX),
{
    assert((a < 16 || a == 0xffu8) && (b < 16 || b == 0xffu8) ==> ((a | b) == 0xffu8 <==> (a
        == 0xffu8 || b == 0xffu8))) by (bit_vector);
}

} // verus!
