//! Rendering an identifier as text: the four spellings, in lower or upper case.

use vstd::prelude::*;
use vstd::utf8::{encode_utf8, is_ascii_chars, is_ascii_chars_encode_utf8};
use crate::binary::Uuid;
use crate::hex::{hex_value, is_hex, pair_value};
use crate::parser::{accepted, body, decode_hyphenated, decode_simple, digit_pos, is_hyphenated, is_simple, urn_prefix, HYPHEN};
use crate::error::ParseErrorView;
use crate::text::parse_outcome;

verus! {

/// One of the four ways to write an identifier.
#[derive(Clone, Copy, Debug, PartialEq, Eq, Structural, Hash)]
pub enum Spelling {
    /// Thirty-two digits.
    Simple,
    /// The digits in groups of 8, 4, 4, 4 and 12, parted by hyphens.
    Hyphenated,
    /// The hyphenated spelling between `{` and `}`.
    Braced,
    /// The hyphenated spelling after `urn:uuid:`.
    Urn,
}

/// The digit, as an ASCII byte, of a value below sixteen.
pub open spec fn hex_char(n: u8, upper: bool) -> u8
    recommends
        n < 16,
{
    if n < 10 {
        (0x30 + n) as u8
    } else if upper {
        (0x41 + n - 10) as u8
    } else {
        (0x61 + n - 10) as u8
    }
}

/// The digits of `bytes`, two for each byte, the high half first.
pub open spec fn digits(bytes: Seq<u8>, upper: bool) -> Seq<u8> {
    Seq::new(
        2 * bytes.len(),
        |i: int|
            if i % 2 == 0 {
                hex_char(bytes[i / 2] / 16, upper)
            } else {
                hex_char(bytes[i / 2] % 16, upper)
            },
    )
}

/// The hyphenated spelling of the sixteen bytes `b`.
pub open spec fn hyphenated_text(b: Seq<u8>, upper: bool) -> Seq<u8>
    recommends
        b.len() == 16,
{
    digits(b.subrange(0, 4), upper) + seq![HYPHEN] + digits(b.subrange(4, 6), upper) + seq![HYPHEN]
        + digits(b.subrange(6, 8), upper) + seq![HYPHEN] + digits(b.subrange(8, 10), upper)
        + seq![HYPHEN] + digits(b.subrange(10, 16), upper)
}

/// The text that spells the sixteen bytes `b`.
pub open spec fn spelled(b: Seq<u8>, spelling: Spelling, upper: bool) -> Seq<u8>
    recommends
        b.len() == 16,
{
    match spelling {
        Spelling::Simple => digits(b, upper),
        Spelling::Hyphenated => hyphenated_text(b, upper),
        Spelling::Braced => seq![0x7bu8] + hyphenated_text(b, upper) + seq![0x7du8],
        Spelling::Urn => urn_prefix() + hyphenated_text(b, upper),
    }
}

/// The number of bytes in a spelling.
pub open spec fn spelled_len(spelling: Spelling) -> nat {
    match spelling {
        Spelling::Simple => 32,
        Spelling::Hyphenated => 36,
        Spelling::Braced => 38,
        Spelling::Urn => 45,
    }
}

/// Where the two digits of byte `j` begin in a text with or without hyphens.
pub open spec fn slot(j: int, hyphens: bool) -> int {
    if hyphens {
        digit_pos(j)
    } else {
        2 * j
    }
}

fn digit_of(n: u8, upper: bool) -> (r: u8)
    requires
        n < 16,
    ensures
        r == hex_char(n, upper),
{
    let upper_digits: [u8; 16] = [
        0x30,
        0x31,
        0x32,
        0x33,
        0x34,
        0x35,
        0x36,
        0x37,
        0x38,
        0x39,
        0x41,
        0x42,
        0x43,
        0x44,
        0x45,
        0x46,
    ];
    let lower_digits: [u8; 16] = [
        0x30,
        0x31,
        0x32,
        0x33,
        0x34,
        0x35,
        0x36,
        0x37,
        0x38,
        0x39,
        0x61,
        0x62,
        0x63,
        0x64,
        0x65,
        0x66,
    ];
    if upper {
        upper_digits[n as usize]
    } else {
        lower_digits[n as usize]
    }
}

/// Writes the digits of an identifier, with or without the hyphens between
/// its groups, in upper or lower case.
pub fn format(uuid: &Uuid, hyphens: bool, upper: bool) -> (r: Vec<u8>)
    ensures
        r@ == spelled(
            uuid@,
            if hyphens {
                Spelling::Hyphenated
            } else {
                Spelling::Simple
            },
            upper,
        ),
{
    let bytes = uuid.as_bytes();
    let mut buffer: [u8; 36] = [HYPHEN; 36];
    let mut idx: usize = 0;
    let mut k: usize = 0;
    while k < 16
        invariant
            k <= 16,
            bytes@ == uuid@,
            bytes@.len() == 16,
            idx == slot(k as int, hyphens),
            forall|j: int|
                0 <= j < k ==> buffer@[#[trigger] slot(j, hyphens)] == hex_char(
                    bytes@[j] / 16,
                    upper,
                ) && buffer@[slot(j, hyphens) + 1] == hex_char(bytes@[j] % 16, upper),
            hyphens ==> buffer@[8] == HYPHEN && buffer@[13] == HYPHEN && buffer@[18] == HYPHEN
                && buffer@[23] == HYPHEN,
        decreases 16 - k,
    {
        let b: u8 = bytes[k];
        assert(b >> 4u8 == b / 16) by (bit_vector);
        assert(b & 0b1111u8 == b % 16) by (bit_vector);
        buffer[idx] = digit_of(b >> 4, upper);
        buffer[idx + 1] = digit_of(b & 0b1111, upper);
        if hyphens && (idx == 6 || idx == 11 || idx == 16 || idx == 21) {
            idx += 3;
        } else {
            idx += 2;
        }
        k += 1;
    }
    let len: usize = if hyphens {
        36
    } else {
        32
    };
    let mut out: Vec<u8> = Vec::with_capacity(len);
    let mut i: usize = 0;
    while i < len
        invariant
            i <= len,
            len <= 36,
            out@ == buffer@.subrange(0, i as int),
        decreases len - i,
    {
        out.push(buffer[i]);
        assert(out@ =~= buffer@.subrange(0, i + 1));
        i += 1;
    }
    proof {
        if hyphens {
            let t = hyphenated_text(uuid@, upper);
            lemma_hyphenated_positions(uuid@, upper);
            assert forall|i: int| 0 <= i < 36 implies out@[i] == t[i] by {
                if i == 8 || i == 13 || i == 18 || i == 23 {
                } else {
                    let j = if i < 8 {
                        i / 2
                    } else if i < 13 {
                        (i - 1) / 2
                    } else if i < 18 {
                        (i - 2) / 2
                    } else if i < 23 {
                        (i - 3) / 2
                    } else {
                        (i - 4) / 2
                    };
                    assert(slot(j, true) == digit_pos(j));
                    assert(i == digit_pos(j) || i == digit_pos(j) + 1);
                }
            }
            assert(out@ =~= t);
        } else {
            let t = digits(uuid@, upper);
            assert forall|i: int| 0 <= i < 32 implies out@[i] == t[i] by {
                let j = i / 2;
                assert(slot(j, false) == 2 * j);
            }
            assert(out@ =~= t);
        }
    }
    out
}

/// The hyphenated spelling has thirty-six bytes: hyphens at 8, 13, 18 and
/// 23, and the two digits of byte `j` where `digit_pos` puts them.
pub proof fn lemma_hyphenated_positions(b: Seq<u8>, upper: bool)
    requires
        b.len() == 16,
    ensures
        hyphenated_text(b, upper).len() == 36,
        hyphenated_text(b, upper)[8] == HYPHEN,
        hyphenated_text(b, upper)[13] == HYPHEN,
        hyphenated_text(b, upper)[18] == HYPHEN,
        hyphenated_text(b, upper)[23] == HYPHEN,
        forall|j: int|
            0 <= j < 16 ==> #[trigger] hyphenated_text(b, upper)[digit_pos(j)]
                == hex_char(b[j] / 16, upper) && hyphenated_text(b, upper)[digit_pos(
                j,
            ) + 1] == hex_char(b[j] % 16, upper),
{
    let t = hyphenated_text(b, upper);
    assert(t.len() == 36);
    assert forall|j: int| 0 <= j < 16 implies #[trigger] t[digit_pos(j)]
        == hex_char(b[j] / 16, upper) && t[digit_pos(j) + 1] == hex_char(
        b[j] % 16,
        upper,
    ) by {
        if j < 4 {
            assert(b.subrange(0, 4)[j] == b[j]);
        } else if j < 6 {
            assert(b.subrange(4, 6)[j - 4] == b[j]);
        } else if j < 8 {
            assert(b.subrange(6, 8)[j - 6] == b[j]);
        } else if j < 10 {
            assert(b.subrange(8, 10)[j - 8] == b[j]);
        } else {
            assert(b.subrange(10, 16)[j - 10] == b[j]);
        }
    }
}

/// The characters that stand for the ASCII bytes `b`.
pub open spec fn ascii_chars(b: Seq<u8>) -> Seq<char> {
    Seq::new(b.len(), |i: int| b[i] as char)
}

/// The text, as characters, that spells the sixteen bytes `b`.
pub open spec fn text_of(b: Seq<u8>, spelling: Spelling, upper: bool) -> Seq<char>
    recommends
        b.len() == 16,
{
    ascii_chars(spelled(b, spelling, upper))
}

/// `String::push` appends one character to the string.
pub assume_specification[ String::push ](s: &mut String, c: char)
    ensures
        final(s)@ == old(s)@.push(c),
;

/// The string whose characters are the ASCII bytes of `bytes`.
pub fn ascii_string(bytes: &[u8]) -> (r: String)
    requires
        forall|i: int| 0 <= i < bytes@.len() ==> #[trigger] bytes@[i] < 0x80,
    ensures
        r@ == ascii_chars(bytes@),
{
    let mut out = String::new();
    let mut i: usize = 0;
    while i < bytes.len()
        invariant
            i <= bytes@.len(),
            out@ == ascii_chars(bytes@.subrange(0, i as int)),
            forall|k: int| 0 <= k < bytes@.len() ==> #[trigger] bytes@[k] < 0x80,
        decreases bytes@.len() - i,
    {
        let b: u8 = bytes[i];
        out.push(b as char);
        assert(out@ =~= ascii_chars(bytes@.subrange(0, i + 1)));
        i += 1;
    }
    assert(bytes@.subrange(0, bytes@.len() as int) =~= bytes@);
    out
}

/// A digit written by `hex_char` is a hexadecimal digit with the value written.
pub proof fn lemma_hex_char(n: u8, upper: bool)
    requires
        n < 16,
    ensures
        is_hex(hex_char(n, upper)),
        hex_value(hex_char(n, upper)) == n,
        hex_char(n, upper) < 0x80,
{
}

/// Every byte of a spelling is ASCII, and a spelling has the length of its kind.
pub proof fn lemma_spelled_ascii(b: Seq<u8>, spelling: Spelling, upper: bool)
    requires
        b.len() == 16,
    ensures
        spelled(b, spelling, upper).len() == spelled_len(spelling),
        forall|i: int|
            0 <= i < spelled(b, spelling, upper).len() ==> #[trigger] spelled(
                b,
                spelling,
                upper,
            )[i] < 0x80,
{
    let h = hyphenated_text(b, upper);
    assert forall|i: int| 0 <= i < 32 implies #[trigger] digits(b, upper)[i] < 0x80 by {
        lemma_hex_char(b[i / 2] / 16, upper);
        lemma_hex_char(b[i / 2] % 16, upper);
    }
    lemma_hyphenated_positions(b, upper);
    assert forall|i: int| 0 <= i < 36 implies #[trigger] h[i] < 0x80 by {
        if i == 8 || i == 13 || i == 18 || i == 23 {
        } else {
            let j = if i < 8 {
                i / 2
            } else if i < 13 {
                (i - 1) / 2
            } else if i < 18 {
                (i - 2) / 2
            } else if i < 23 {
                (i - 3) / 2
            } else {
                (i - 4) / 2
            };
            assert(i == digit_pos(j) || i == digit_pos(j) + 1);
            lemma_hex_char(b[j] / 16, upper);
            lemma_hex_char(b[j] % 16, upper);
        }
    }
    let t = spelled(b, spelling, upper);
    assert forall|i: int| 0 <= i < t.len() implies #[trigger] t[i] < 0x80 by {
        match spelling {
            Spelling::Simple => {},
            Spelling::Hyphenated => {},
            Spelling::Braced => {
                if 1 <= i < 37 {
                    assert(t[i] == h[i - 1]);
                }
            },
            Spelling::Urn => {
                if i >= 9 {
                    assert(t[i] == h[i - 9]);
                }
            },
        }
    }
}

/// The hyphenated spelling is in the hyphenated form and spells its bytes.
pub proof fn lemma_hyphenated_is_accepted(b: Seq<u8>, upper: bool)
    requires
        b.len() == 16,
    ensures
        is_hyphenated(hyphenated_text(b, upper)),
        decode_hyphenated(hyphenated_text(b, upper)) == b,
{
    let h = hyphenated_text(b, upper);
    lemma_hyphenated_positions(b, upper);
    assert forall|j: int| 0 <= j < 16 implies is_hex(#[trigger] h[digit_pos(j)]) && is_hex(
        h[digit_pos(j) + 1],
    ) && pair_value(h[digit_pos(j)], h[digit_pos(j) + 1]) == b[j] by {
        lemma_hex_char(b[j] / 16, upper);
        lemma_hex_char(b[j] % 16, upper);
    }
    assert(decode_hyphenated(h) =~= b);
}

/// The simple spelling is in the simple form and spells its bytes.
pub proof fn lemma_simple_is_accepted(b: Seq<u8>, upper: bool)
    requires
        b.len() == 16,
    ensures
        is_simple(digits(b, upper)),
        decode_simple(digits(b, upper)) == b,
{
    let t = digits(b, upper);
    assert forall|i: int| 0 <= i < 32 implies is_hex(#[trigger] t[i]) by {
        lemma_hex_char(b[i / 2] / 16, upper);
        lemma_hex_char(b[i / 2] % 16, upper);
    }
    assert forall|j: int| 0 <= j < 16 implies pair_value(t[2 * j], t[2 * j + 1]) == b[j] by {
        lemma_hex_char(b[j] / 16, upper);
        lemma_hex_char(b[j] % 16, upper);
    }
    assert(decode_simple(t) =~= b);
}

/// Round trip, on bytes: each spelling of an identifier, in either case, is
/// accepted and spells that identifier.
pub proof fn lemma_spelled_is_accepted(b: Seq<u8>, spelling: Spelling, upper: bool)
    requires
        b.len() == 16,
    ensures
        accepted(spelled(b, spelling, upper)) == Some(b),
{
    let t = spelled(b, spelling, upper);
    let h = hyphenated_text(b, upper);
    lemma_hyphenated_is_accepted(b, upper);
    lemma_simple_is_accepted(b, upper);
    match spelling {
        Spelling::Simple => {},
        Spelling::Hyphenated => {
            assert(body(t) =~= h);
        },
        Spelling::Braced => {
            assert(t[0] == 0x7bu8);
            assert(t[37] == 0x7du8);
            assert(body(t) =~= h);
        },
        Spelling::Urn => {
            assert(t.subrange(0, 9) =~= urn_prefix());
            assert(body(t) =~= h);
        },
    }
}

/// A spelling, read as text, has the spelling as its bytes.
pub proof fn lemma_text_bytes(b: Seq<u8>, spelling: Spelling, upper: bool)
    requires
        b.len() == 16,
    ensures
        encode_utf8(text_of(b, spelling, upper)) == spelled(b, spelling, upper),
{
    let t = spelled(b, spelling, upper);
    let chars = text_of(b, spelling, upper);
    lemma_spelled_ascii(b, spelling, upper);
    assert(is_ascii_chars(chars)) by {
        assert forall|i: int| 0 <= i < chars.len() implies '\0' <= #[trigger] chars[i]
            <= '\u{7f}' by {
            assert(t[i] < 0x80);
        }
    }
    is_ascii_chars_encode_utf8(chars);
    assert forall|i: int| 0 <= i < t.len() implies encode_utf8(chars)[i] == t[i] by {
        assert(chars[i] as u8 == encode_utf8(chars)[i]);
        assert(t[i] < 0x80);
        assert(chars[i] == t[i] as char);
    }
    assert(encode_utf8(chars) =~= t);
}

/// Round trip: parsing any spelling of an identifier, in either case, gives
/// that identifier back.
pub proof fn lemma_round_trip(b: Seq<u8>, spelling: Spelling, upper: bool)
    requires
        b.len() == 16,
    ensures
        parse_outcome(text_of(b, spelling, upper)) == Ok::<Seq<u8>, ParseErrorView>(b),
{
    lemma_text_bytes(b, spelling, upper);
    lemma_spelled_is_accepted(b, spelling, upper);
}

/// Determinism: what is written of an identifier is decided by its bytes,
/// the spelling and the case.
pub proof fn lemma_writing_determined(
    a: Uuid,
    b: Uuid,
    spelling: Spelling,
    upper: bool,
    ta: Seq<char>,
    tb: Seq<char>,
)
    requires
        a@ == b@,
        ta == text_of(a@, spelling, upper),
        tb == text_of(b@, spelling, upper),
    ensures
        ta == tb,
        ta.len() == spelled_len(spelling),
{
    a.lemma_len();
    lemma_spelled_ascii(a@, spelling, upper);
}

/// Writes an identifier in the given spelling and case.
pub fn encode(uuid: &Uuid, spelling: Spelling, upper: bool) -> (r: String)
    ensures
        r@ == text_of(uuid@, spelling, upper),
        r@.len() == spelled_len(spelling),
{
    proof {
        uuid.lemma_len();
        lemma_spelled_ascii(uuid@, spelling, upper);
    }
    let bytes: Vec<u8> = match spelling {
        Spelling::Simple => format(uuid, false, upper),
        Spelling::Hyphenated => format(uuid, true, upper),
        Spelling::Braced => {
            let mut v: Vec<u8> = vec![0x7bu8];
            let mut inner = format(uuid, true, upper);
            v.append(&mut inner);
            v.push(0x7du8);
            v
        },
        Spelling::Urn => {
            let mut v: Vec<u8> = vec![0x75u8, 0x72u8, 0x6eu8, 0x3au8, 0x75u8, 0x75u8, 0x69u8, 0x64u8, 0x3au8];
            let mut inner = format(uuid, true, upper);
            v.append(&mut inner);
            v
        },
    };
    assert(bytes@ =~= spelled(uuid@, spelling, upper));
    ascii_string(bytes.as_slice())
}

/// An identifier, to be written in the hyphenated spelling.
#[derive(Clone, Copy, Debug, PartialEq, Eq, Hash, PartialOrd, Ord)]
pub struct Hyphenated(Uuid);

impl Hyphenated {
    /// The length of the text that this adapter writes.
    pub const LENGTH: usize = 36;

    /// Wraps an identifier.
    pub fn from_uuid(uuid: Uuid) -> (r: Self)
        ensures
            r.uuid() == uuid,
    {
        Hyphenated(uuid)
    }

    /// The identifier that is written.
    pub closed spec fn uuid(&self) -> Uuid {
        self.0
    }

    /// The identifier that is written.
    pub fn get(&self) -> (r: Uuid)
        ensures
            r == self.uuid(),
    {
        self.0
    }

    /// The text in lower case.
    pub fn encode_lower(&self) -> (r: String)
        ensures
            r@ == text_of(self.uuid()@, Spelling::Hyphenated, false),
            r@.len() == 36,
    {
        encode(&self.0, Spelling::Hyphenated, false)
    }

    /// The text in upper case.
    pub fn encode_upper(&self) -> (r: String)
        ensures
            r@ == text_of(self.uuid()@, Spelling::Hyphenated, true),
            r@.len() == 36,
    {
        encode(&self.0, Spelling::Hyphenated, true)
    }

    /// The text in lower case.
    pub fn to_string(&self) -> (r: String)
        ensures
            r@ == text_of(self.uuid()@, Spelling::Hyphenated, false),
            r@.len() == 36,
    {
        self.encode_lower()
    }
}

/// A borrowed identifier, to be written in the hyphenated spelling.
#[derive(Clone, Copy, Debug, PartialEq, Eq, Hash, PartialOrd, Ord)]
pub struct HyphenatedRef<'a>(&'a Uuid);

impl<'a> HyphenatedRef<'a> {
    /// The length of the text that this adapter writes.
    pub const LENGTH: usize = 36;

    /// Wraps a borrowed identifier.
    pub fn from_uuid_ref(uuid: &'a Uuid) -> (r: Self)
        ensures
            r.uuid() == uuid,
    {
        HyphenatedRef(uuid)
    }

    /// The identifier that is written.
    pub closed spec fn uuid(&self) -> Uuid {
        *self.0
    }

    /// The identifier that is written.
    pub fn get(&self) -> (r: Uuid)
        ensures
            r == self.uuid(),
    {
        *self.0
    }

    /// The text in lower case.
    pub fn encode_lower(&self) -> (r: String)
        ensures
            r@ == text_of(self.uuid()@, Spelling::Hyphenated, false),
            r@.len() == 36,
    {
        encode(self.0, Spelling::Hyphenated, false)
    }

    /// The text in upper case.
    pub fn encode_upper(&self) -> (r: String)
        ensures
            r@ == text_of(self.uuid()@, Spelling::Hyphenated, true),
            r@.len() == 36,
    {
        encode(self.0, Spelling::Hyphenated, true)
    }

    /// The text in lower case.
    pub fn to_string(&self) -> (r: String)
        ensures
            r@ == text_of(self.uuid()@, Spelling::Hyphenated, false),
            r@.len() == 36,
    {
        self.encode_lower()
    }
}

/// An identifier, to be written in the simple spelling.
#[derive(Clone, Copy, Debug, PartialEq, Eq, Hash, PartialOrd, Ord)]
pub struct Simple(Uuid);

impl Simple {
    /// The length of the text that this adapter writes.
    pub const LENGTH: usize = 32;

    /// Wraps an identifier.
    pub fn from_uuid(uuid: Uuid) -> (r: Self)
        ensures
            r.uuid() == uuid,
    {
        Simple(uuid)
    }

    /// The identifier that is written.
    pub closed spec fn uuid(&self) -> Uuid {
        self.0
    }

    /// The identifier that is written.
    pub fn get(&self) -> (r: Uuid)
        ensures
            r == self.uuid(),
    {
        self.0
    }

    /// The text in lower case.
    pub fn encode_lower(&self) -> (r: String)
        ensures
            r@ == text_of(self.uuid()@, Spelling::Simple, false),
            r@.len() == 32,
    {
        encode(&self.0, Spelling::Simple, false)
    }

    /// The text in upper case.
    pub fn encode_upper(&self) -> (r: String)
        ensures
            r@ == text_of(self.uuid()@, Spelling::Simple, true),
            r@.len() == 32,
    {
        encode(&self.0, Spelling::Simple, true)
    }

    /// The text in lower case.
    pub fn to_string(&self) -> (r: String)
        ensures
            r@ == text_of(self.uuid()@, Spelling::Simple, false),
            r@.len() == 32,
    {
        self.encode_lower()
    }
}

/// A borrowed identifier, to be written in the simple spelling.
#[derive(Clone, Copy, Debug, PartialEq, Eq, Hash, PartialOrd, Ord)]
pub struct SimpleRef<'a>(&'a Uuid);

impl<'a> SimpleRef<'a> {
    /// The length of the text that this adapter writes.
    pub const LENGTH: usize = 32;

    /// Wraps a borrowed identifier.
    pub fn from_uuid_ref(uuid: &'a Uuid) -> (r: Self)
        ensures
            r.uuid() == uuid,
    {
        SimpleRef(uuid)
    }

    /// The identifier that is written.
    pub closed spec fn uuid(&self) -> Uuid {
        *self.0
    }

    /// The identifier that is written.
    pub fn get(&self) -> (r: Uuid)
        ensures
            r == self.uuid(),
    {
        *self.0
    }

    /// The text in lower case.
    pub fn encode_lower(&self) -> (r: String)
        ensures
            r@ == text_of(self.uuid()@, Spelling::Simple, false),
            r@.len() == 32,
    {
        encode(self.0, Spelling::Simple, false)
    }

    /// The text in upper case.
    pub fn encode_upper(&self) -> (r: String)
        ensures
            r@ == text_of(self.uuid()@, Spelling::Simple, true),
            r@.len() == 32,
    {
        encode(self.0, Spelling::Simple, true)
    }

    /// The text in lower case.
    pub fn to_string(&self) -> (r: String)
        ensures
            r@ == text_of(self.uuid()@, Spelling::Simple, false),
            r@.len() == 32,
    {
        self.encode_lower()
    }
}

/// An identifier, to be written as a URN.
#[derive(Clone, Copy, Debug, PartialEq, Eq, Hash, PartialOrd, Ord)]
pub struct Urn(Uuid);

impl Urn {
    /// The length of the text that this adapter writes.
    pub const LENGTH: usize = 45;

    /// Wraps an identifier.
    pub fn from_uuid(uuid: Uuid) -> (r: Self)
        ensures
            r.uuid() == uuid,
    {
        Urn(uuid)
    }

    /// The identifier that is written.
    pub closed spec fn uuid(&self) -> Uuid {
        self.0
    }

    /// The identifier that is written.
    pub fn get(&self) -> (r: Uuid)
        ensures
            r == self.uuid(),
    {
        self.0
    }

    /// The text in lower case.
    pub fn encode_lower(&self) -> (r: String)
        ensures
            r@ == text_of(self.uuid()@, Spelling::Urn, false),
            r@.len() == 45,
    {
        encode(&self.0, Spelling::Urn, false)
    }

    /// The text in upper case.
    pub fn encode_upper(&self) -> (r: String)
        ensures
            r@ == text_of(self.uuid()@, Spelling::Urn, true),
            r@.len() == 45,
    {
        encode(&self.0, Spelling::Urn, true)
    }

    /// The text in lower case.
    pub fn to_string(&self) -> (r: String)
        ensures
            r@ == text_of(self.uuid()@, Spelling::Urn, false),
            r@.len() == 45,
    {
        self.encode_lower()
    }
}

/// A borrowed identifier, to be written as a URN.
#[derive(Clone, Copy, Debug, PartialEq, Eq, Hash, PartialOrd, Ord)]
pub struct UrnRef<'a>(&'a Uuid);

impl<'a> UrnRef<'a> {
    /// The length of the text that this adapter writes.
    pub const LENGTH: usize = 45;

    /// Wraps a borrowed identifier.
    pub fn from_uuid_ref(uuid: &'a Uuid) -> (r: Self)
        ensures
            r.uuid() == uuid,
    {
        UrnRef(uuid)
    }

    /// The identifier that is written.
    pub closed spec fn uuid(&self) -> Uuid {
        *self.0
    }

    /// The identifier that is written.
    pub fn get(&self) -> (r: Uuid)
        ensures
            r == self.uuid(),
    {
        *self.0
    }

    /// The text in lower case.
    pub fn encode_lower(&self) -> (r: String)
        ensures
            r@ == text_of(self.uuid()@, Spelling::Urn, false),
            r@.len() == 45,
    {
        encode(self.0, Spelling::Urn, false)
    }

    /// The text in upper case.
    pub fn encode_upper(&self) -> (r: String)
        ensures
            r@ == text_of(self.uuid()@, Spelling::Urn, true),
            r@.len() == 45,
    {
        encode(self.0, Spelling::Urn, true)
    }

    /// The text in lower case.
    pub fn to_string(&self) -> (r: String)
        ensures
            r@ == text_of(self.uuid()@, Spelling::Urn, false),
            r@.len() == 45,
    {
        self.encode_lower()
    }
}

/// An identifier, to be written in the braced spelling.
#[derive(Clone, Copy, Debug, PartialEq, Eq, Hash, PartialOrd, Ord)]
pub struct Braced(Uuid);

impl Braced {
    /// The length of the text that this adapter writes.
    pub const LENGTH: usize = 38;

    /// Wraps an identifier.
    pub fn from_uuid(uuid: Uuid) -> (r: Self)
        ensures
            r.uuid() == uuid,
    {
        Braced(uuid)
    }

    /// The identifier that is written.
    pub closed spec fn uuid(&self) -> Uuid {
        self.0
    }

    /// The identifier that is written.
    pub fn get(&self) -> (r: Uuid)
        ensures
            r == self.uuid(),
    {
        self.0
    }

    /// The text in lower case.
    pub fn encode_lower(&self) -> (r: String)
        ensures
            r@ == text_of(self.uuid()@, Spelling::Braced, false),
            r@.len() == 38,
    {
        encode(&self.0, Spelling::Braced, false)
    }

    /// The text in upper case.
    pub fn encode_upper(&self) -> (r: String)
        ensures
            r@ == text_of(self.uuid()@, Spelling::Braced, true),
            r@.len() == 38,
    {
        encode(&self.0, Spelling::Braced, true)
    }

    /// The text in lower case.
    pub fn to_string(&self) -> (r: String)
        ensures
            r@ == text_of(self.uuid()@, Spelling::Braced, false),
            r@.len() == 38,
    {
        self.encode_lower()
    }
}

/// A borrowed identifier, to be written in the braced spelling.
#[derive(Clone, Copy, Debug, PartialEq, Eq, Hash, PartialOrd, Ord)]
pub struct BracedRef<'a>(&'a Uuid);

impl<'a> BracedRef<'a> {
    /// The length of the text that this adapter writes.
    pub const LENGTH: usize = 38;

    /// Wraps a borrowed identifier.
    pub fn from_uuid_ref(uuid: &'a Uuid) -> (r: Self)
        ensures
            r.uuid() == uuid,
    {
        BracedRef(uuid)
    }

    /// The identifier that is written.
    pub closed spec fn uuid(&self) -> Uuid {
        *self.0
    }

    /// The identifier that is written.
    pub fn get(&self) -> (r: Uuid)
        ensures
            r == self.uuid(),
    {
        *self.0
    }

    /// The text in lower case.
    pub fn encode_lower(&self) -> (r: String)
        ensures
            r@ == text_of(self.uuid()@, Spelling::Braced, false),
            r@.len() == 38,
    {
        encode(self.0, Spelling::Braced, false)
    }

    /// The text in upper case.
    pub fn encode_upper(&self) -> (r: String)
        ensures
            r@ == text_of(self.uuid()@, Spelling::Braced, true),
            r@.len() == 38,
    {
        encode(self.0, Spelling::Braced, true)
    }

    /// The text in lower case.
    pub fn to_string(&self) -> (r: String)
        ensures
            r@ == text_of(self.uuid()@, Spelling::Braced, false),
            r@.len() == 38,
    {
        self.encode_lower()
    }
}

impl Uuid {
    /// An adapter that writes this identifier in the hyphenated spelling.
    pub fn to_hyphenated(self) -> (r: Hyphenated)
        ensures
            r.uuid() == self,
    {
        Hyphenated::from_uuid(self)
    }

    /// An adapter that writes this identifier, borrowed, in the hyphenated spelling.
    pub fn to_hyphenated_ref(&self) -> (r: HyphenatedRef<'_>)
        ensures
            r.uuid() == *self,
    {
        HyphenatedRef::from_uuid_ref(self)
    }

    /// An adapter that writes this identifier in the simple spelling.
    pub fn to_simple(self) -> (r: Simple)
        ensures
            r.uuid() == self,
    {
        Simple::from_uuid(self)
    }

    /// An adapter that writes this identifier, borrowed, in the simple spelling.
    pub fn to_simple_ref(&self) -> (r: SimpleRef<'_>)
        ensures
            r.uuid() == *self,
    {
        SimpleRef::from_uuid_ref(self)
    }

    /// An adapter that writes this identifier in the URN spelling.
    pub fn to_urn(self) -> (r: Urn)
        ensures
            r.uuid() == self,
    {
        Urn::from_uuid(self)
    }

    /// An adapter that writes this identifier, borrowed, in the URN spelling.
    pub fn to_urn_ref(&self) -> (r: UrnRef<'_>)
        ensures
            r.uuid() == *self,
    {
        UrnRef::from_uuid_ref(self)
    }

    /// An adapter that writes this identifier in the braced spelling.
    pub fn to_braced(self) -> (r: Braced)
        ensures
            r.uuid() == self,
    {
        Braced::from_uuid(self)
    }

    /// An adapter that writes this identifier, borrowed, in the braced spelling.
    pub fn to_braced_ref(&self) -> (r: BracedRef<'_>)
        ensures
            r.uuid() == *self,
    {
        BracedRef::from_uuid_ref(self)
    }

    /// The hyphenated spelling in lower case.
    pub fn to_string(&self) -> (r: String)
        ensures
            r@ == text_of(self@, Spelling::Hyphenated, false),
            r@.len() == 36,
    {
        encode(self, Spelling::Hyphenated, false)
    }
}

} // verus!
