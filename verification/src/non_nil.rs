//! Identifiers that are known not to be the nil identifier.

use vstd::prelude::*;
use crate::binary::{nil_bytes, Uuid};

verus! {

/// An identifier that is not the nil identifier.
#[derive(Debug, Copy, Clone, PartialEq, Eq, Hash)]
pub struct NonNilUuid(Uuid);

impl View for NonNilUuid {
    type V = Seq<u8>;

    closed spec fn view(&self) -> Seq<u8> {
        self.0@
    }
}

impl NonNilUuid {
    #[verifier::type_invariant]
    spec fn not_nil(self) -> bool {
        self.0@ != nil_bytes()
    }

    /// Holds `uuid` as an identifier that is not nil; nothing for the nil
    /// identifier.
    pub fn new(uuid: Uuid) -> (r: Option<NonNilUuid>)
        ensures
            match r {
                Some(n) => uuid@ != nil_bytes() && n@ == uuid@,
                None => uuid@ == nil_bytes(),
            },
    {
        if uuid.is_nil() {
            None
        } else {
            Some(NonNilUuid(uuid))
        }
    }

    /// Holds `uuid` as an identifier that is not nil, or fails on the nil
    /// identifier.
    pub fn try_from(uuid: Uuid) -> (r: Result<NonNilUuid, NonZeroUuidError>)
        ensures
            match r {
                Ok(n) => uuid@ != nil_bytes() && n@ == uuid@,
                Err(_) => uuid@ == nil_bytes(),
            },
    {
        match NonNilUuid::new(uuid) {
            Some(n) => Ok(n),
            None => Err(NonZeroUuidError),
        }
    }

    /// The identifier held.
    pub fn get(self) -> (r: Uuid)
        ensures
            r@ == self@,
            r@ != nil_bytes(),
    {
        proof {
            use_type_invariant(self);
        }
        self.0
    }
}

/// What is said of a nil identifier where one that is not nil is wanted.
#[derive(Debug, Copy, Clone, PartialEq, Eq, Structural)]
pub struct NonZeroUuidError;

/// Another name for [`NonNilUuid`].
pub type NonZeroUuid = NonNilUuid;

} // verus!
