//! The four textual spellings of an identifier, and the decoder that accepts
//! exactly them.

use vstd::prelude::*;
use crate::hex::{generate_lookup_table, generate_shl4_table, hex_value, is_hex, lemma_hex_value_range, lemma_join_nibbles, lemma_sentinel_union, pair_value, NOT_HEX};

verus! {

/// The byte `-`, which parts the groups of digits.
pub const HYPHEN: u8 = 0x2d;

/// The length of the simple spelling: thirty-two digits.
pub const SIMPLE_LENGTH: usize = 32;

/// The length of the hyphenated spelling: the digits in five groups.
pub const HYPHENATED_LENGTH: usize = 36;

/// The length of the braced spelling: the hyphenated one between `{` and `}`.
pub const BRACED_LENGTH: usize = 38;

/// The length of the URN spelling: the hyphenated one after `urn:uuid:`.
pub const URN_LENGTH: usize = 45;

/// The nine bytes `urn:uuid:`.
pub open spec fn urn_prefix() -> Seq<u8> {
    seq![0x75u8, 0x72u8, 0x6eu8, 0x3au8, 0x75u8, 0x75u8, 0x69u8, 0x64u8, 0x3au8]
}

/// Where, in a hyphenated text, the two digits of byte `j` begin.
pub open spec fn digit_pos(j: int) -> int {
    2 * j + (if j >= 4 { 1int } else { 0 }) + (if j >= 6 { 1int } else { 0 }) + (if j >= 8 {
        1int
    } else {
        0
    }) + (if j >= 10 { 1int } else { 0 })
}

/// `s` is thirty-two hexadecimal digits.
pub open spec fn is_simple(s: Seq<u8>) -> bool {
    &&& s.len() == 32
    &&& forall|i: int| 0 <= i < 32 ==> is_hex(#[trigger] s[i])
}

/// `s` is thirty-two hexadecimal digits in groups of 8, 4, 4, 4 and 12,
/// with a hyphen between two groups.
pub open spec fn is_hyphenated(s: Seq<u8>) -> bool {
    &&& s.len() == 36
    &&& s[8] == HYPHEN
    &&& s[13] == HYPHEN
    &&& s[18] == HYPHEN
    &&& s[23] == HYPHEN
    &&& forall|j: int|
        0 <= j < 16 ==> is_hex(#[trigger] s[digit_pos(j)]) && is_hex(s[digit_pos(j) + 1])
}

/// The sixteen bytes that a simple text spells.
pub open spec fn decode_simple(s: Seq<u8>) -> Seq<u8>
    recommends
        is_simple(s),
{
    Seq::new(16, |j: int| pair_value(s[2 * j], s[2 * j + 1]))
}

/// The sixteen bytes that a hyphenated text spells.
pub open spec fn decode_hyphenated(s: Seq<u8>) -> Seq<u8>
    recommends
        is_hyphenated(s),
{
    Seq::new(16, |j: int| pair_value(s[digit_pos(j)], s[digit_pos(j) + 1]))
}

/// How many bytes of wrapping come before the digits of `t`: none in a text
/// of 32 or 36 bytes, the brace of a braced text, the prefix of a URN. `None`
/// where the length and wrapping of `t` are those of no spelling.
pub open spec fn body_offset(t: Seq<u8>) -> Option<int> {
    if t.len() == 32 || t.len() == 36 {
        Some(0int)
    } else if t.len() == 38 && t[0] == 0x7bu8 && t[37] == 0x7du8 {
        Some(1int)
    } else if t.len() == 45 && t.subrange(0, 9) == urn_prefix() {
        Some(9int)
    } else {
        None
    }
}

/// The part of `t` between its wrapping.
pub open spec fn body(t: Seq<u8>) -> Seq<u8>
    recommends
        body_offset(t) is Some,
{
    let off = body_offset(t).unwrap();
    t.subrange(off, off + (if t.len() == 32 { 32int } else { 36int }))
}

/// The identifier that the text `t` spells, if it is one of the four
/// spellings: simple, hyphenated, braced or URN.
pub open spec fn accepted(t: Seq<u8>) -> Option<Seq<u8>> {
    if body_offset(t) is None {
        None
    } else if t.len() == 32 {
        if is_simple(t) {
            Some(decode_simple(t))
        } else {
            None
        }
    } else if is_hyphenated(body(t)) {
        Some(decode_hyphenated(body(t)))
    } else {
        None
    }
}

/// Decodes thirty-two hexadecimal digits.
///
/// Succeeds exactly on the simple spelling.
pub fn parse_simple(s: &[u8]) -> (r: Result<[u8; 16], ()>)
    ensures
        r is Ok <==> is_simple(s@),
        r matches Ok(b) ==> b@ == decode_simple(s@),
{
    if s.len() != 32 {
        return Err(());
    }
    let hex = generate_lookup_table();
    let shl4 = generate_shl4_table();
    let mut buf: [u8; 16] = [0u8; 16];
    let mut i: usize = 0;
    while i < 16
        invariant
            i <= 16,
            s@.len() == 32,
            forall|b: u8| #[trigger] hex@[b as int] == hex_value(b),
            forall|b: u8| #[trigger] shl4@[b as int] == (b << 4u8),
            forall|k: int| 0 <= k < 2 * i ==> is_hex(#[trigger] s@[k]),
            forall|j: int| 0 <= j < i ==> #[trigger] buf@[j] == pair_value(s@[2 * j], s@[2 * j + 1]),
        decreases 16 - i,
    {
        let c1: u8 = s[i * 2];
        let c2: u8 = s[i * 2 + 1];
        let h1: u8 = hex[c1 as usize];
        let h2: u8 = hex[c2 as usize];
        proof {
            lemma_hex_value_range(c1);
            lemma_hex_value_range(c2);
            lemma_sentinel_union(h1, h2);
        }
        if h1 | h2 == NOT_HEX {
            assert(!is_hex(s@[2 * i]) || !is_hex(s@[2 * i + 1]));
            return Err(());
        }
        proof {
            lemma_join_nibbles(h1, h2);
        }
        buf[i] = shl4[h1 as usize] | h2;
        i += 1;
    }
    assert(buf@ =~= decode_simple(s@));
    Ok(buf)
}

/// Decodes thirty-two hexadecimal digits in five groups parted by hyphens.
///
/// Succeeds exactly on the hyphenated spelling.
pub fn parse_hyphenated(s: &[u8]) -> (r: Result<[u8; 16], ()>)
    ensures
        r is Ok <==> is_hyphenated(s@),
        r matches Ok(b) ==> b@ == decode_hyphenated(s@),
{
    if s.len() != 36 {
        return Err(());
    }
    if s[8] != HYPHEN || s[13] != HYPHEN || s[18] != HYPHEN || s[23] != HYPHEN {
        return Err(());
    }
    let positions: [u8; 8] = [0, 4, 9, 14, 19, 24, 28, 32];
    let hex = generate_lookup_table();
    let shl4 = generate_shl4_table();
    let mut buf: [u8; 16] = [0u8; 16];
    let mut j: usize = 0;
    while j < 8
        invariant
            j <= 8,
            s@.len() == 36,
            positions@ =~= seq![0u8, 4u8, 9u8, 14u8, 19u8, 24u8, 28u8, 32u8],
            forall|b: u8| #[trigger] hex@[b as int] == hex_value(b),
            forall|b: u8| #[trigger] shl4@[b as int] == (b << 4u8),
            forall|k: int|
                0 <= k < 2 * j ==> is_hex(#[trigger] s@[digit_pos(k)]) && is_hex(
                    s@[digit_pos(k) + 1],
                ),
            forall|k: int|
                0 <= k < 2 * j ==> #[trigger] buf@[k] == pair_value(
                    s@[digit_pos(k)],
                    s@[digit_pos(k) + 1],
                ),
        decreases 8 - j,
    {
        let i: usize = positions[j] as usize;
        assert(i == digit_pos(2 * j as int));
        assert(i + 2 == digit_pos(2 * j + 1));
        let c1: u8 = s[i];
        let c2: u8 = s[i + 1];
        let c3: u8 = s[i + 2];
        let c4: u8 = s[i + 3];
        let h1: u8 = hex[c1 as usize];
        let h2: u8 = hex[c2 as usize];
        let h3: u8 = hex[c3 as usize];
        let h4: u8 = hex[c4 as usize];
        proof {
            lemma_hex_value_range(c1);
            lemma_hex_value_range(c2);
            lemma_hex_value_range(c3);
            lemma_hex_value_range(c4);
            lemma_sentinel_union(h1, h2);
            lemma_sentinel_union(h3, h4);
        }
        if (h1 | h2) == NOT_HEX || (h3 | h4) == NOT_HEX {
            assert(!(is_hex(s@[digit_pos(2 * j as int)]) && is_hex(s@[digit_pos(2 * j as int) + 1]))
                || !(is_hex(s@[digit_pos(2 * j + 1)]) && is_hex(s@[digit_pos(2 * j + 1) + 1])));
            return Err(());
        }
        proof {
            lemma_join_nibbles(h1, h2);
            lemma_join_nibbles(h3, h4);
            assert(is_hex(c1) && is_hex(c2) && is_hex(c3) && is_hex(c4));
            assert(is_hex(s@[digit_pos(2 * j as int)]));
            assert(is_hex(s@[digit_pos(2 * j as int) + 1]));
            assert(is_hex(s@[digit_pos(2 * j + 1)]));
            assert(is_hex(s@[digit_pos(2 * j + 1) + 1]));
        }
        buf[j * 2] = shl4[h1 as usize] | h2;
        buf[j * 2 + 1] = shl4[h3 as usize] | h4;
        j += 1;
    }
    assert(buf@ =~= decode_hyphenated(s@));
    Ok(buf)
}

} // verus!
