//! Taking the token out of an `Authorization` header.
//!
//! This step comes before the token is looked at, and it fails on its own
//! account: a missing header and a header of another scheme are told apart
//! from a token that does not decode.

use vstd::prelude::*;
use vstd::string::StrSliceExecFns;

verus! {

/// Why no token could be taken from the request.
#[derive(Debug, Clone, Copy, PartialEq, Eq, Structural)]
pub enum HeaderError {
    /// The request has no readable `Authorization` header.
    Missing,
    /// The header's value does not begin with `Bearer `.
    BadScheme,
}

/// The scheme, with the space that parts it from the token.
pub open spec fn scheme() -> Seq<char> {
    "Bearer "@
}

/// A header's value begins with the scheme.
pub open spec fn has_scheme(value: Seq<char>) -> bool {
    scheme().len() <= value.len() && value.subrange(0, scheme().len() as int) == scheme()
}

/// The token of a header's value: all that follows the scheme, which may be
/// nothing.
pub open spec fn bearer_of(header: Option<Seq<char>>) -> Result<Seq<char>, HeaderError> {
    match header {
        None => Err(HeaderError::Missing),
        Some(value) => {
            if has_scheme(value) {
                Ok(value.subrange(scheme().len() as int, value.len() as int))
            } else {
                Err(HeaderError::BadScheme)
            }
        },
    }
}

/// A header that is written as the scheme and then a token yields that
/// token, whatever the token is.
pub proof fn lemma_scheme_then_token(token: Seq<char>)
    ensures
        bearer_of(Some(scheme() + token)) == Ok::<Seq<char>, HeaderError>(token),
{
    let value = scheme() + token;
    assert(value.subrange(0, scheme().len() as int) =~= scheme());
    assert(value.subrange(scheme().len() as int, value.len() as int) =~= token);
}

/// The text of an optional string slice.
pub open spec fn header_text(header: Option<&str>) -> Option<Seq<char>> {
    match header {
        Some(value) => Some(value@),
        None => None,
    }
}

/// The text of a result that holds a string slice.
pub open spec fn token_text(r: Result<&str, HeaderError>) -> Result<Seq<char>, HeaderError> {
    match r {
        Ok(token) => Ok(token@),
        Err(e) => Err(e),
    }
}

/// Takes the token out of the value of an `Authorization` header, where
/// `None` stands for a request without one.
pub fn bearer_token<'a>(header: Option<&'a str>) -> (r: Result<&'a str, HeaderError>)
    ensures
        token_text(r) == bearer_of(header_text(header)),
{
    match header {
        None => Err(HeaderError::Missing),
        Some(value) => {
            let prefix = "Bearer ";
            let prefix_len = prefix.unicode_len();
            let value_len = value.unicode_len();
            if value_len < prefix_len {
                return Err(HeaderError::BadScheme);
            }
            let head = value.substring_char(0, prefix_len);
            if head.to_owned() == prefix.to_owned() {
                Ok(value.substring_char(prefix_len, value_len))
            } else {
                Err(HeaderError::BadScheme)
            }
        },
    }
}

} // verus!
