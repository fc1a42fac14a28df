//! Ids of accounts and attributes: generated at random, and read back from
//! what a client sent.
//!
//! Both are the work of the `uuid` crate.

use vstd::prelude::*;
use crate::auth::AuthError;
use crate::records::text_of;

verus! {

/// The length of an id in its usual text: 32 digits and four hyphens.
pub const ID_LENGTH: usize = 36;

/// The error type of the `uuid` crate, carried through unopened.
#[verifier::external_type_specification]
#[verifier::external_body]
pub struct ExUuidError(uuid::Error);

/// The usual text of the id that `uuid::Uuid::parse_str` reads from a text,
/// or `None` where it reads none.
pub uninterp spec fn uuid_parsing(text: Seq<char>) -> Option<Seq<char>>;

/// Calls `uuid::Uuid::new_v4` and writes the id out with `to_string`.
///
/// Trusted: the text is the hyphenated form, 36 characters long. The id is
/// random, and nothing more is known of it.
#[verifier::external_body]
pub(crate) fn fresh_id() -> (id: String)
    ensures
        id@.len() == ID_LENGTH,
{
    uuid::Uuid::new_v4().to_string()
}

/// Draws `count` ids, one after the other.
pub fn fresh_ids(count: usize) -> (ids: Vec<String>)
    ensures
        ids@.len() == count,
        forall|i: int| 0 <= i < count ==> (#[trigger] ids@[i])@.len() == ID_LENGTH,
{
    let mut ids: Vec<String> = Vec::new();
    let mut i: usize = 0;
    while i < count
        invariant
            i <= count,
            ids@.len() == i,
            forall|j: int| 0 <= j < i ==> (#[trigger] ids@[j])@.len() == ID_LENGTH,
        decreases count - i,
    {
        ids.push(fresh_id());
        i += 1;
    }
    ids
}

/// Calls `uuid::Uuid::parse_str`, which reads the simple, the hyphenated,
/// the braced and the URN form, and writes the id out with `to_string`.
///
/// Trusted: the result is a function of the text alone, and what is written
/// out is the hyphenated form, 36 characters long.
#[verifier::external_body]
fn parse_id(text: &str) -> (r: Result<String, uuid::Error>)
    ensures
        r matches Ok(id) ==> uuid_parsing(text@) == Some(id@) && id@.len() == ID_LENGTH,
        r is Err ==> uuid_parsing(text@) is None,
{
    match uuid::Uuid::parse_str(text) {
        Ok(id) => Ok(id.to_string()),
        Err(e) => Err(e),
    }
}

/// The id that was read, or that the request is invalid.
pub open spec fn id_or_invalid(parsed: Option<Seq<char>>) -> Result<Seq<char>, AuthError> {
    match parsed {
        Some(id) => Ok(id),
        None => Err(AuthError::ValidationError),
    }
}

/// What reading an id returns, seen as plain values.
pub open spec fn id_view(r: Result<String, AuthError>) -> Result<Seq<char>, AuthError> {
    match r {
        Ok(id) => Ok(id@),
        Err(e) => Err(e),
    }
}

/// Passes on an id that was read. Where none was read the request is
/// invalid.
pub fn checked(parsed: Option<String>) -> (r: Result<String, AuthError>)
    ensures
        id_view(r) == id_or_invalid(text_of(parsed)),
{
    match parsed {
        Some(id) => Ok(id),
        None => Err(AuthError::ValidationError),
    }
}

/// Reads the account id out of a request, and gives it in its usual text. A
/// text that is no id makes the request invalid.
pub fn account_id(text: &str) -> (r: Result<String, AuthError>)
    ensures
        id_view(r) == id_or_invalid(uuid_parsing(text@)),
        r matches Ok(id) ==> id@.len() == ID_LENGTH,
{
    let parsed = match parse_id(text) {
        Ok(id) => Some(id),
        Err(_) => None,
    };
    checked(parsed)
}

} // verus!
