//! Finding an identifier in what a web request carries: a path parameter, a
//! cookie, a header.

use vstd::prelude::*;
use vstd::string::*;
use crate::binary::Uuid;
use crate::text::parse_outcome;

verus! {

/// Why a request gave no identifier.
#[derive(Clone, Debug, PartialEq, Eq)]
pub enum UuidFromRequestError {
    /// The request carries neither cookie nor header.
    Missing,
    /// What the request carries spells no identifier; the words say where.
    Invalid(String),
}

/// What is said of a path parameter that spells no identifier.
pub const PARAM_MESSAGE: &'static str = "Unable to parse uuid from str.";

/// What is said of a cookie that spells no identifier.
pub const COOKIE_MESSAGE: &'static str = "Unable to parse uuid from cookie.";

/// What is said of a header that spells no identifier.
pub const HEADER_MESSAGE: &'static str = "Unable to parse uuid from header.";

/// The identifier that a text spells, if there is a text and it spells one.
pub open spec fn identifier_in(text: Option<&str>) -> Option<Seq<u8>> {
    match text {
        Some(t) => match parse_outcome(t@) {
            Ok(b) => Some(b),
            Err(_) => None,
        },
        None => None,
    }
}

/// The identifier that a path parameter spells.
pub fn from_param(param: &str) -> (r: Result<Uuid, &'static str>)
    ensures
        match r {
            Ok(u) => identifier_in(Some(param)) == Some(u@),
            Err(m) => identifier_in(Some(param)) is None && m@ == PARAM_MESSAGE@,
        },
{
    match Uuid::parse_str(param) {
        Ok(uuid) => Ok(uuid),
        Err(_) => Err(PARAM_MESSAGE),
    }
}

/// The identifier that the cookie `uuid` spells, if the request has one.
pub fn uuid_from_cookies(cookie: Option<&str>) -> (r: Result<Uuid, UuidFromRequestError>)
    ensures
        match r {
            Ok(u) => identifier_in(cookie) == Some(u@),
            Err(UuidFromRequestError::Missing) => cookie is None,
            Err(UuidFromRequestError::Invalid(m)) => cookie is Some && identifier_in(cookie)
                is None && m@ == COOKIE_MESSAGE@,
        },
{
    match cookie {
        Some(id) => match Uuid::parse_str(id) {
            Ok(uuid) => Ok(uuid),
            Err(_) => Err(UuidFromRequestError::Invalid(String::from_str(COOKIE_MESSAGE))),
        },
        None => Err(UuidFromRequestError::Missing),
    }
}

/// The identifier of a request: that of its cookie `uuid`, where the cookie
/// spells one; else that of its header `uuid`.
///
/// Fails where the cookie gives none and there is no header, or the header
/// spells none.
pub fn from_request(cookie: Option<&str>, header: Option<&str>) -> (r: Result<
    Uuid,
    UuidFromRequestError,
>)
    ensures
        match r {
            Ok(u) => Some(u@) == (if identifier_in(cookie) is Some {
                identifier_in(cookie)
            } else {
                identifier_in(header)
            }),
            Err(UuidFromRequestError::Missing) => identifier_in(cookie) is None && header is None,
            Err(UuidFromRequestError::Invalid(m)) => identifier_in(cookie) is None && header
                is Some && identifier_in(header) is None && m@ == HEADER_MESSAGE@,
        },
{
    match uuid_from_cookies(cookie) {
        Ok(uuid) => {
            return Ok(uuid);
        },
        Err(_) => {},
    }
    let uuid_str: &str = match header {
        Some(h) => h,
        None => {
            return Err(UuidFromRequestError::Missing);
        },
    };
    match Uuid::parse_str(uuid_str) {
        Ok(uuid) => Ok(uuid),
        Err(_) => Err(UuidFromRequestError::Invalid(String::from_str(HEADER_MESSAGE))),
    }
}

} // verus!
