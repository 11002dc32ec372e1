//! 128-bit universally unique identifiers: the binary value, its textual
//! spellings, and the bit-level field layouts of the generation schemes.

pub mod adapter;
pub mod binary;
pub mod builder;
pub mod codec;
pub mod diagnose;
pub mod error;
pub mod generate;
pub mod guid;
pub mod hash;
pub mod hex;
pub mod message;
pub mod non_nil;
pub mod ns;
pub mod parser;
pub mod request;
pub mod rng;
pub mod text;
pub mod timestamp;
pub mod wide;
pub mod wire;

pub use adapter::{Braced, BracedRef, Hyphenated, HyphenatedRef, Simple, SimpleRef, Spelling, Urn, UrnRef};
pub use binary::{Uuid, UuidVariant, UuidVersion};
pub use builder::UuidBuilder;
pub use error::{BytesError, Error, Expected, ParseError};
pub use guid::Guid;
pub use non_nil::{NonNilUuid, NonZeroUuid, NonZeroUuidError};
pub use timestamp::{ClockSequence, Context, Timestamp};
pub use wire::Wire;
