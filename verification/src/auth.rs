//! Who is calling: the user named by the `x-user-id` header of a request.

use crate::ident::{parse_id, parsed_id};
use vstd::prelude::*;
use vstd::string::StringExecFns;

verus! {

/// The user on whose behalf a request is made.
#[derive(Clone, Copy, Debug, PartialEq, Eq, Structural)]
pub struct CurrentUser(pub u128);

/// Why a request names no user.
#[derive(Clone, Copy, Debug)]
pub struct AuthError(pub &'static str);

/// The message for a request without a readable header.
pub open spec fn missing_header() -> Seq<char> {
    "missing x-user-id header"@
}

/// The message for a header that holds no identifier.
pub open spec fn invalid_header() -> Seq<char> {
    "invalid x-user-id"@
}

/// The user that a header names, given what the header reads as: the
/// identifier read, or the message of the error.
pub open spec fn user_of(header: Option<Option<u128>>) -> Result<u128, Seq<char>> {
    match header {
        None => Err(missing_header()),
        Some(None) => Err(invalid_header()),
        Some(Some(id)) => Ok(id),
    }
}

/// The result of an authentication, as a view.
pub open spec fn auth_view(outcome: Result<CurrentUser, AuthError>) -> Result<u128, Seq<char>> {
    match outcome {
        Ok(user) => Ok(user.0),
        Err(error) => Err(error.0@),
    }
}

/// What a header reads as: nothing where it is missing, else what
/// `uuid::Uuid::parse_str` makes of it.
pub open spec fn read_header(header: Option<&str>) -> Option<Option<u128>> {
    match header {
        None => None,
        Some(text) => Some(parsed_id(text@)),
    }
}

impl AuthError {
    /// The message of the error.
    pub fn to_text(&self) -> (text: String)
        ensures
            text@ == self.0@,
    {
        String::from_str(self.0)
    }

    /// The HTTP status under which the error is reported.
    pub fn status_code(&self) -> (code: u16)
        ensures
            code == 401,
    {
        401
    }
}

impl CurrentUser {
    /// The user for a header that was read: `header` is `None` where the
    /// request has no readable header, `Some(None)` where the header holds
    /// no identifier.
    pub fn from_parsed(header: Option<Option<u128>>) -> (outcome: Result<CurrentUser, AuthError>)
        ensures
            auth_view(outcome) == user_of(header),
    {
        match header {
            None => Err(AuthError("missing x-user-id header")),
            Some(None) => Err(AuthError("invalid x-user-id")),
            Some(Some(id)) => Ok(CurrentUser(id)),
        }
    }

    /// The user that the `x-user-id` header of a request names; `header` is
    /// `None` where the request has no readable header.
    pub fn from_header(header: Option<&str>) -> (outcome: Result<CurrentUser, AuthError>)
        ensures
            auth_view(outcome) == user_of(read_header(header)),
    {
        match header {
            None => CurrentUser::from_parsed(None),
            Some(text) => CurrentUser::from_parsed(Some(parse_id(text))),
        }
    }
}

} // verus!
