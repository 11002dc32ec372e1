//! Parsing a text: the decoder on the text's bytes, and the diagnosis of a
//! rejected text as a [`ParseError`].

use vstd::prelude::*;
use vstd::slice::slice_subrange;
use vstd::string::*;
use vstd::utf8::*;
use crate::binary::Uuid;
use crate::diagnose::{diagnose, diagnosis, wrapping_of, Fault};
use crate::error::{Expected, ExpectedView, ParseError, ParseErrorView};
use crate::parser::{accepted, body, body_offset, parse_hyphenated, parse_simple};

verus! {

/// The characters that a text may hold: the hexadecimal digits and the hyphen.
pub const EXPECTED_CHARS: &'static str = "0123456789abcdefABCDEF-";

/// The lengths of the four spellings.
pub open spec fn expected_lengths() -> Seq<usize> {
    seq![32usize, 36usize, 38usize, 45usize]
}

/// The numbers of groups that a text may have: one without hyphens, five with.
pub open spec fn expected_group_counts() -> Seq<usize> {
    seq![1usize, 5usize]
}

/// The error that stands for the fault `f` found in the text `chars`.
pub open spec fn error_of(f: Fault, chars: Seq<char>) -> ParseErrorView {
    match f {
        Fault::Length { found } => ParseErrorView::InvalidLength {
            expected: ExpectedView::Any(expected_lengths()),
            found,
        },
        Fault::Character { index } => ParseErrorView::InvalidCharacter {
            expected: EXPECTED_CHARS@,
            found: chars[index as int],
            index,
        },
        Fault::GroupCount { found } => ParseErrorView::InvalidGroupCount {
            expected: ExpectedView::Any(expected_group_counts()),
            found,
        },
        Fault::GroupLength { group, found, expected } => ParseErrorView::InvalidGroupLength {
            expected: ExpectedView::Exact(expected),
            found,
            group,
        },
    }
}

/// What parsing the text `chars` gives: the identifier it spells, or the
/// error that stands for its first fault.
pub open spec fn parse_outcome(chars: Seq<char>) -> Result<Seq<u8>, ParseErrorView> {
    let t = encode_utf8(chars);
    match accepted(t) {
        Some(b) => Ok(b),
        None => Err(error_of(diagnosis(t), chars)),
    }
}

/// Length rejection: a text whose length in bytes is that of no spelling,
/// and a text of 38 or 45 bytes without the braces or the prefix of its
/// spelling, is rejected for its length, whatever else it holds, and the
/// error carries the length of the whole text.
pub proof fn lemma_length_rejected(chars: Seq<char>)
    requires
        encode_utf8(chars).len() <= usize::MAX,
        body_offset(encode_utf8(chars)) is None,
    ensures
        parse_outcome(chars) == Err::<Seq<u8>, ParseErrorView>(
            ParseErrorView::InvalidLength {
                expected: ExpectedView::Any(expected_lengths()),
                found: encode_utf8(chars).len() as usize,
            },
        ),
{
}

/// The lengths of which no text is a spelling: every length but 32, 36, 38
/// and 45.
pub proof fn lemma_other_lengths_have_no_body(t: Seq<u8>)
    requires
        t.len() != 32,
        t.len() != 36,
        t.len() != 38,
        t.len() != 45,
    ensures
        body_offset(t) is None,
{
}

proof fn lemma_wide_leading_bytes(v: u32)
    ensures
        leading_byte_width_2(v) >= 0x80,
        leading_byte_width_3(v) >= 0x80,
        leading_byte_width_4(v) >= 0x80,
{
    let a = ((v >> 6) & 0x1F) as u8;
    let b = ((v >> 12) & 0x0F) as u8;
    let c = ((v >> 18) & 0x7) as u8;
    assert(0xC0u8 | a >= 0x80) by (bit_vector);
    assert(0xE0u8 | b >= 0x80) by (bit_vector);
    assert(0xF0u8 | c >= 0x80) by (bit_vector);
}

/// Where the first `i` bytes of a text are ASCII, its first `i` characters
/// are those bytes, and the character with index `i` begins at byte `i`.
pub proof fn lemma_ascii_prefix(chars: Seq<char>, i: int)
    requires
        0 <= i < encode_utf8(chars).len(),
        forall|k: int| 0 <= k < i ==> #[trigger] encode_utf8(chars)[k] < 0x80,
    ensures
        i < chars.len(),
        encode_utf8(chars.skip(i)) == encode_utf8(chars).skip(i),
    decreases i,
{
    let bytes = encode_utf8(chars);
    if i == 0 {
        assert(chars.skip(0) =~= chars);
        assert(bytes.skip(0) =~= bytes);
    } else {
        let c = chars[0] as u32;
        let rest = chars.drop_first();
        lemma_wide_leading_bytes(c);
        char_is_scalar(chars[0]);
        assert(bytes == encode_scalar(c) + encode_utf8(rest));
        assert(bytes[0] == encode_scalar(c)[0]);
        assert(bytes[0] < 0x80);
        assert(has_width_1_encoding(c));
        assert(encode_scalar(c).len() == 1);
        assert(encode_utf8(rest) =~= bytes.skip(1));
        assert forall|k: int| 0 <= k < i - 1 implies #[trigger] encode_utf8(rest)[k] < 0x80 by {
            assert(encode_utf8(rest)[k] == bytes[k + 1]);
        }
        lemma_ascii_prefix(rest, i - 1);
        assert(chars.skip(i) =~= rest.skip(i - 1));
        assert(bytes.skip(i) =~= bytes.skip(1).skip(i - 1));
    }
}

/// The error that stands for a fault found in `input`.
fn error_from(f: Fault, input: &str) -> (e: ParseError)
    requires
        f matches Fault::Character { index } ==> index < input.spec_bytes().len() && forall|k: int|
            0 <= k < index ==> #[trigger] input.spec_bytes()[k] < 0x80,
    ensures
        e@ == error_of(f, input@),
{
    match f {
        Fault::Length { found } => {
            let lengths: Vec<usize> = vec![32, 36, 38, 45];
            assert(lengths@ =~= expected_lengths());
            ParseError::InvalidLength { expected: Expected::Any(lengths), found }
        },
        Fault::Character { index } => {
            proof {
                lemma_ascii_prefix(input@, index as int);
            }
            let found: char = input.get_char(index);
            ParseError::InvalidCharacter { expected: EXPECTED_CHARS, found, index }
        },
        Fault::GroupCount { found } => {
            let counts: Vec<usize> = vec![1, 5];
            assert(counts@ =~= expected_group_counts());
            ParseError::InvalidGroupCount { expected: Expected::Any(counts), found }
        },
        Fault::GroupLength { group, found, expected } => ParseError::InvalidGroupLength {
            expected: Expected::Exact(expected),
            found,
            group,
        },
    }
}

/// Decodes a text in any of the four spellings into its sixteen bytes.
///
/// A text that is none of the four is rejected with the error of its first
/// fault.
pub fn try_parse(input: &str) -> (r: Result<[u8; 16], ParseError>)
    ensures
        match r {
            Ok(b) => parse_outcome(input@) == Ok::<Seq<u8>, ParseErrorView>(b@),
            Err(e) => parse_outcome(input@) == Err::<Seq<u8>, ParseErrorView>(e@),
        },
{
    let t: &[u8] = input.as_bytes();
    let decoded: Result<[u8; 16], ()> = match wrapping_of(t) {
        None => Err(()),
        Some(off) => {
            if t.len() == 32 {
                parse_simple(t)
            } else {
                let inner: &[u8] = slice_subrange(t, off, off + 36);
                assert(inner@ == body(t@));
                parse_hyphenated(inner)
            }
        },
    };
    match decoded {
        Ok(b) => Ok(b),
        Err(_) => Err(error_from(diagnose(t), input)),
    }
}

impl Uuid {
    /// Parses an identifier from a text in the simple, hyphenated, braced or
    /// URN spelling, in either case of the digits.
    pub fn parse_str(input: &str) -> (r: Result<Uuid, ParseError>)
        ensures
            match r {
                Ok(u) => parse_outcome(input@) == Ok::<Seq<u8>, ParseErrorView>(u@),
                Err(e) => parse_outcome(input@) == Err::<Seq<u8>, ParseErrorView>(e@),
            },
    {
        match try_parse(input) {
            Ok(b) => Ok(Uuid::from_uuid_bytes(b)),
            Err(e) => Err(e),
        }
    }
}

} // verus!
