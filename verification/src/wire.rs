//! The identifier as it travels: sixteen bare bytes, or its hyphenated text
//! where people read along.

use vstd::prelude::*;
use vstd::string::*;
use crate::adapter::{encode, text_of, Spelling};
use crate::binary::Uuid;
use crate::error::{BytesError, Error, ParseErrorView};
use crate::text::parse_outcome;

verus! {

/// An identifier in one of the two forms in which it travels.
#[derive(Clone, Debug, PartialEq, Eq)]
pub enum Wire {
    /// A text, for formats that people read.
    Text(String),
    /// Sixteen bytes, for compact formats.
    Bytes(Vec<u8>),
}

/// The sixteen bytes of an identifier, as they go over a wire.
pub fn serialize(u: &Uuid) -> (r: Vec<u8>)
    ensures
        r@ == u@,
{
    let b = u.as_bytes();
    let mut out: Vec<u8> = Vec::with_capacity(16);
    let mut i: usize = 0;
    while i < 16
        invariant
            i <= 16,
            b@.len() == 16,
            out@ == b@.subrange(0, i as int),
        decreases 16 - i,
    {
        out.push(b[i]);
        assert(out@ =~= b@.subrange(0, i + 1));
        i += 1;
    }
    assert(out@ =~= b@);
    out
}

/// The identifier that came over a wire as sixteen bytes.
///
/// Any other number of bytes is rejected, with the number found.
pub fn deserialize(bytes: &[u8]) -> (r: Result<Uuid, BytesError>)
    ensures
        match r {
            Ok(u) => bytes@.len() == 16 && u@ == bytes@,
            Err(e) => bytes@.len() != 16 && e.expected() == 16 && e.found() == bytes@.len(),
        },
{
    Uuid::from_slice(bytes)
}

impl Uuid {
    /// The form in which the identifier travels: its hyphenated text in
    /// lower case where the format is one that people read, else its
    /// sixteen bytes.
    pub fn to_wire(&self, human_readable: bool) -> (r: Wire)
        ensures
            match r {
                Wire::Text(s) => human_readable && s@ == text_of(self@, Spelling::Hyphenated, false),
                Wire::Bytes(b) => !human_readable && b@ == self@,
            },
    {
        if human_readable {
            Wire::Text(encode(self, Spelling::Hyphenated, false))
        } else {
            Wire::Bytes(serialize(self))
        }
    }

    /// The identifier that travelled: parsed from a text in any spelling,
    /// or taken from sixteen bytes.
    ///
    /// A text that spells none is rejected with its parse error, and bytes
    /// that are not sixteen with their number.
    pub fn from_wire(wire: &Wire) -> (r: Result<Uuid, Error>)
        ensures
            match *wire {
                Wire::Text(s) => match r {
                    Ok(u) => parse_outcome(s@) == Ok::<Seq<u8>, ParseErrorView>(u@),
                    Err(Error::Parse(e)) => parse_outcome(s@) == Err::<Seq<u8>, ParseErrorView>(
                        e@,
                    ),
                    Err(_) => false,
                },
                Wire::Bytes(b) => match r {
                    Ok(u) => b@.len() == 16 && u@ == b@,
                    Err(Error::Bytes(e)) => b@.len() != 16 && e.expected() == 16 && e.found()
                        == b@.len(),
                    Err(_) => false,
                },
            },
    {
        match wire {
            Wire::Text(s) => match Uuid::parse_str(s.as_str()) {
                Ok(u) => Ok(u),
                Err(e) => Err(Error::Parse(e)),
            },
            Wire::Bytes(b) => match deserialize(b.as_slice()) {
                Ok(u) => Ok(u),
                Err(e) => Err(Error::Bytes(e)),
            },
        }
    }
}

} // verus!
