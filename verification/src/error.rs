//! The errors that parsing and construction return.

use vstd::prelude::*;
use vstd::std_specs::convert::FromSpecImpl;

verus! {

/// A byte field of the wrong width: how many bytes were wanted and how many came.
#[derive(Clone, Copy, Debug, PartialEq, Eq, Structural, Hash)]
pub struct BytesError {
    expected: usize,
    found: usize,
}

impl BytesError {
    /// An error for a field that should hold `expected` bytes and holds `found`.
    pub fn new(expected: usize, found: usize) -> (r: BytesError)
        ensures
            r.expected() == expected,
            r.found() == found,
    {
        BytesError { expected, found }
    }

    /// The number of bytes the field must hold.
    #[verifier::when_used_as_spec(spec_expected)]
    pub fn expected(&self) -> (r: usize)
        ensures
            r == self.expected(),
    {
        self.expected
    }

    /// The number of bytes that were supplied.
    #[verifier::when_used_as_spec(spec_found)]
    pub fn found(&self) -> (r: usize)
        ensures
            r == self.found(),
    {
        self.found
    }

    pub closed spec fn spec_expected(&self) -> usize {
        self.expected
    }

    pub closed spec fn spec_found(&self) -> usize {
        self.found
    }

    /// Two errors with the same counts are the same error.
    pub proof fn lemma_fields_decide(self, other: BytesError)
        requires
            self.expected() == other.expected(),
            self.found() == other.found(),
        ensures
            self == other,
    {
    }
}

/// What a length or a count was expected to be.
#[derive(Clone, Debug, PartialEq, Eq, Hash)]
pub enum Expected {
    /// Any one of the listed values.
    Any(Vec<usize>),
    /// Exactly this value.
    Exact(usize),
    /// Any value from `min` to `max`, both included.
    Range {
        /// The least accepted value.
        min: usize,
        /// The greatest accepted value.
        max: usize,
    },
}

/// The mathematical content of an [`Expected`].
pub enum ExpectedView {
    Any(Seq<usize>),
    Exact(usize),
    Range { min: usize, max: usize },
}

impl View for Expected {
    type V = ExpectedView;

    open spec fn view(&self) -> ExpectedView {
        match *self {
            Expected::Any(v) => ExpectedView::Any(v@),
            Expected::Exact(n) => ExpectedView::Exact(n),
            Expected::Range { min, max } => ExpectedView::Range { min, max },
        }
    }
}

impl ExpectedView {
    /// Whether `len` is one of the expected values.
    pub open spec fn admits(self, len: usize) -> bool {
        match self {
            ExpectedView::Any(s) => s.contains(len),
            ExpectedView::Exact(n) => len == n,
            ExpectedView::Range { min, max } => min <= len <= max,
        }
    }
}

/// Whether `len` equals one of `crits`.
pub fn len_matches_any(len: usize, crits: &[usize]) -> (r: bool)
    ensures
        r == crits@.contains(len),
{
    let mut i: usize = 0;
    while i < crits.len()
        invariant
            i <= crits.len(),
            forall|j: int| 0 <= j < i ==> crits@[j] != len,
        decreases crits.len() - i,
    {
        if crits[i] == len {
            return true;
        }
        i += 1;
    }
    false
}

/// Whether `len` lies between `min` and `max`, both included.
pub fn len_matches_range(len: usize, min: usize, max: usize) -> (r: bool)
    ensures
        r == (min <= len <= max),
{
    min <= len && len <= max
}

impl Expected {
    /// Whether `len` is one of the expected values.
    pub fn admits(&self, len: usize) -> (r: bool)
        ensures
            r == self@.admits(len),
    {
        match self {
            Expected::Any(v) => len_matches_any(len, v.as_slice()),
            Expected::Exact(n) => len == *n,
            Expected::Range { min, max } => len_matches_range(len, *min, *max),
        }
    }
}

/// Why a text was not accepted as an identifier.
#[derive(Clone, Debug, PartialEq, Eq, Hash)]
#[allow(inconsistent_fields)]
pub enum ParseError {
    /// A character that is neither a hexadecimal digit nor a hyphen.
    InvalidCharacter {
        /// The characters that are accepted.
        expected: &'static str,
        /// The character that was found.
        found: char,
        /// Its byte offset in the text as the caller gave it.
        index: usize,
    },
    /// Thirty-two digits were read before all five groups had begun.
    InvalidGroupCount {
        /// The accepted numbers of groups.
        expected: Expected,
        /// The number of groups that were read.
        found: usize,
    },
    /// A group that does not hold as many digits as its place demands.
    InvalidGroupLength {
        /// The number of digits the group must hold.
        expected: Expected,
        /// The number of digits it holds.
        found: usize,
        /// The group, counted from zero.
        group: usize,
    },
    /// A text of a length that no spelling has.
    InvalidLength {
        /// The accepted lengths.
        expected: Expected,
        /// The length of the text, in bytes.
        found: usize,
    },
}

/// The mathematical content of a [`ParseError`].
#[allow(inconsistent_fields)]
pub enum ParseErrorView {
    InvalidCharacter { expected: Seq<char>, found: char, index: usize },
    InvalidGroupCount { expected: ExpectedView, found: usize },
    InvalidGroupLength { expected: ExpectedView, found: usize, group: usize },
    InvalidLength { expected: ExpectedView, found: usize },
}

impl View for ParseError {
    type V = ParseErrorView;

    open spec fn view(&self) -> ParseErrorView {
        match *self {
            ParseError::InvalidCharacter { expected, found, index } => {
                ParseErrorView::InvalidCharacter { expected: expected@, found, index }
            },
            ParseError::InvalidGroupCount { expected, found } => {
                ParseErrorView::InvalidGroupCount { expected: expected@, found }
            },
            ParseError::InvalidGroupLength { expected, found, group } => {
                ParseErrorView::InvalidGroupLength { expected: expected@, found, group }
            },
            ParseError::InvalidLength { expected, found } => {
                ParseErrorView::InvalidLength { expected: expected@, found }
            },
        }
    }
}

/// Why an identifier could not be made or read.
#[derive(Clone, Debug, PartialEq, Eq, Hash)]
pub enum Error {
    /// A text that spells no identifier.
    Parse(ParseError),
    /// A byte field of the wrong width.
    Bytes(BytesError),
    /// The system's source of random bytes failed.
    Entropy {
        /// The error code of the operating system, where it gave one.
        code: Option<i32>,
    },
}

impl From<ParseError> for Error {
    fn from(err: ParseError) -> (r: Error) {
        Error::Parse(err)
    }
}

impl FromSpecImpl<ParseError> for Error {
    open spec fn obeys_from_spec() -> bool {
        true
    }

    open spec fn from_spec(err: ParseError) -> Error {
        Error::Parse(err)
    }
}

impl From<BytesError> for Error {
    fn from(err: BytesError) -> (r: Error) {
        Error::Bytes(err)
    }
}

impl FromSpecImpl<BytesError> for Error {
    open spec fn obeys_from_spec() -> bool {
        true
    }

    open spec fn from_spec(err: BytesError) -> Error {
        Error::Bytes(err)
    }
}

} // verus!
