//! The errors in words.

use vstd::prelude::*;
use vstd::string::*;
use crate::binary::UuidVariant;
use crate::error::{BytesError, Error, Expected, ExpectedView, ParseError, ParseErrorView};

verus! {

/// The character of a decimal digit.
pub open spec fn digit_char(d: nat) -> char
    recommends
        d < 10,
{
    ((0x30 + d) as u8) as char
}

/// The number `n` in decimal digits.
pub open spec fn decimal(n: nat) -> Seq<char>
    decreases n,
{
    if n < 10 {
        seq![digit_char(n)]
    } else {
        decimal(n / 10).push(digit_char(n % 10))
    }
}

/// The numbers of `s` in decimal digits, with a comma and a space between
/// two of them.
pub open spec fn listed(s: Seq<usize>) -> Seq<char>
    decreases s.len(),
{
    if s.len() == 0 {
        Seq::<char>::empty()
    } else if s.len() == 1 {
        decimal(s[0] as nat)
    } else {
        listed(s.drop_last()) + seq![',', ' '] + decimal(s.last() as nat)
    }
}

/// What was expected, in words: one number; `one of` and the numbers between
/// square brackets; or the two ends of a range with two dots between them.
pub open spec fn expected_text(e: ExpectedView) -> Seq<char> {
    match e {
        ExpectedView::Any(s) => "one of ["@ + listed(s) + seq![']'],
        ExpectedView::Exact(n) => decimal(n as nat),
        ExpectedView::Range { min, max } => decimal(min as nat) + ".."@ + decimal(max as nat),
    }
}

/// A parse error in words: what is wrong, what was expected, what was
/// found, and where.
pub open spec fn parse_error_text(e: ParseErrorView) -> Seq<char> {
    match e {
        ParseErrorView::InvalidCharacter { expected, found, index } => {
            "invalid character: expected an optional prefix of `urn:uuid:` followed by "@
                + expected + ", found "@ + seq![found] + " at "@ + decimal(index as nat)
        },
        ParseErrorView::InvalidGroupCount { expected, found } => {
            "invalid number of groups: expected "@ + expected_text(expected) + ", found "@
                + decimal(found as nat)
        },
        ParseErrorView::InvalidGroupLength { expected, found, group } => {
            "invalid group length: expected "@ + expected_text(expected) + ", found "@ + decimal(
                found as nat,
            ) + " in group "@ + decimal(group as nat)
        },
        ParseErrorView::InvalidLength { expected, found } => {
            "invalid length: expected "@ + expected_text(expected) + ", found "@ + decimal(
                found as nat,
            )
        },
    }
}

/// A width error in words.
pub open spec fn bytes_error_text(expected: usize, found: usize) -> Seq<char> {
    "invalid bytes length: expected "@ + decimal(expected as nat) + ", found "@ + decimal(
        found as nat,
    )
}

/// Appends `n` in decimal digits.
pub fn push_decimal(out: &mut String, n: usize)
    ensures
        final(out)@ == old(out)@ + decimal(n as nat),
    decreases n,
{
    if n >= 10 {
        push_decimal(out, n / 10);
    }
    let d: u8 = (n % 10) as u8;
    out.push((0x30 + d) as char);
    assert(out@ =~= old(out)@ + decimal(n as nat));
}

/// Appends the numbers of `s`, with a comma and a space between two of them.
pub fn push_listed(out: &mut String, s: &[usize])
    ensures
        final(out)@ == old(out)@ + listed(s@),
{
    let mut i: usize = 0;
    while i < s.len()
        invariant
            i <= s@.len(),
            out@ == old(out)@ + listed(s@.subrange(0, i as int)),
        decreases s@.len() - i,
    {
        let ghost before = out@;
        if i > 0 {
            out.push(',');
            out.push(' ');
        }
        push_decimal(out, s[i]);
        proof {
            let head = s@.subrange(0, i as int);
            let next = s@.subrange(0, i + 1);
            assert(next.drop_last() =~= head);
            assert(next.last() == s@[i as int]);
            if i > 0 {
                assert(out@ =~= before + seq![',', ' '] + decimal(s@[i as int] as nat));
                assert(out@ =~= old(out)@ + listed(next));
            } else {
                assert(listed(head) =~= Seq::<char>::empty());
                assert(out@ =~= old(out)@ + listed(next));
            }
        }
        i += 1;
    }
    assert(s@.subrange(0, s@.len() as int) =~= s@);
}

impl Expected {
    /// Appends what was expected, in words.
    pub fn push_to(&self, out: &mut String)
        ensures
            final(out)@ == old(out)@ + expected_text(self@),
    {
        match self {
            Expected::Any(v) => {
                out.append("one of [");
                push_listed(out, v.as_slice());
                out.push(']');
                assert(out@ =~= old(out)@ + expected_text(self@));
            },
            Expected::Exact(n) => {
                push_decimal(out, *n);
            },
            Expected::Range { min, max } => {
                push_decimal(out, *min);
                out.append("..");
                push_decimal(out, *max);
                assert(out@ =~= old(out)@ + expected_text(self@));
            },
        }
    }

    /// What was expected, in words.
    pub fn to_string(&self) -> (r: String)
        ensures
            r@ == expected_text(self@),
    {
        let mut out = String::new();
        self.push_to(&mut out);
        assert(out@ =~= expected_text(self@));
        out
    }
}

/// The kind of a parse error, in words.
pub open spec fn kind_text(e: ParseErrorView) -> Seq<char> {
    match e {
        ParseErrorView::InvalidCharacter { .. } => "invalid character"@,
        ParseErrorView::InvalidGroupCount { .. } => "invalid number of groups"@,
        ParseErrorView::InvalidGroupLength { .. } => "invalid group length"@,
        ParseErrorView::InvalidLength { .. } => "invalid length"@,
    }
}

impl ParseError {
    /// The kind of the error, in words.
    pub fn description(&self) -> (r: &'static str)
        ensures
            r@ == kind_text(self@),
    {
        match self {
            ParseError::InvalidCharacter { .. } => "invalid character",
            ParseError::InvalidGroupCount { .. } => "invalid number of groups",
            ParseError::InvalidGroupLength { .. } => "invalid group length",
            ParseError::InvalidLength { .. } => "invalid length",
        }
    }

    /// The error in words.
    pub fn to_string(&self) -> (r: String)
        ensures
            r@ == parse_error_text(self@),
    {
        let mut out = String::new();
        match self {
            ParseError::InvalidCharacter { expected, found, index } => {
                out.append(
                    "invalid character: expected an optional prefix of `urn:uuid:` followed by ",
                );
                out.append(expected);
                out.append(", found ");
                out.push(*found);
                out.append(" at ");
                push_decimal(&mut out, *index);
            },
            ParseError::InvalidGroupCount { expected, found } => {
                out.append("invalid number of groups: expected ");
                expected.push_to(&mut out);
                out.append(", found ");
                push_decimal(&mut out, *found);
            },
            ParseError::InvalidGroupLength { expected, found, group } => {
                out.append("invalid group length: expected ");
                expected.push_to(&mut out);
                out.append(", found ");
                push_decimal(&mut out, *found);
                out.append(" in group ");
                push_decimal(&mut out, *group);
            },
            ParseError::InvalidLength { expected, found } => {
                out.append("invalid length: expected ");
                expected.push_to(&mut out);
                out.append(", found ");
                push_decimal(&mut out, *found);
            },
        }
        assert(out@ =~= parse_error_text(self@));
        out
    }
}

impl BytesError {
    /// The error in words.
    pub fn to_string(&self) -> (r: String)
        ensures
            r@ == bytes_error_text(self.expected(), self.found()),
    {
        let mut out = String::new();
        out.append("invalid bytes length: expected ");
        push_decimal(&mut out, self.expected());
        out.append(", found ");
        push_decimal(&mut out, self.found());
        assert(out@ =~= bytes_error_text(self.expected(), self.found()));
        out
    }
}

/// An error in words.
pub open spec fn error_text(e: Error) -> Seq<char> {
    match e {
        Error::Parse(p) => parse_error_text(p@),
        Error::Bytes(b) => bytes_error_text(b.expected(), b.found()),
        Error::Entropy { code } => "could not retrieve random bytes for uuid"@,
    }
}

impl Error {
    /// The error in words.
    pub fn to_string(&self) -> (r: String)
        ensures
            r@ == error_text(*self),
    {
        match self {
            Error::Parse(p) => p.to_string(),
            Error::Bytes(b) => b.to_string(),
            Error::Entropy { code } => String::from_str("could not retrieve random bytes for uuid"),
        }
    }
}

/// The name of a variant.
pub open spec fn variant_name(v: UuidVariant) -> Seq<char> {
    match v {
        UuidVariant::NCS => "NCS"@,
        UuidVariant::RFC4122 => "RFC4122"@,
        UuidVariant::Microsoft => "Microsoft"@,
        UuidVariant::Future => "Future"@,
    }
}

impl UuidVariant {
    /// The name of the variant.
    pub fn to_string(&self) -> (r: String)
        ensures
            r@ == variant_name(*self),
    {
        match self {
            UuidVariant::NCS => String::from_str("NCS"),
            UuidVariant::RFC4122 => String::from_str("RFC4122"),
            UuidVariant::Microsoft => String::from_str("Microsoft"),
            UuidVariant::Future => String::from_str("Future"),
        }
    }
}

} // verus!
