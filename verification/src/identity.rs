//! User and post identifiers: UUIDs, held as their 128-bit value and written
//! and parsed by the `uuid` crate.

use vstd::prelude::*;

use crate::error::{ApiError, InternalFault};

verus! {

/// The error type of `uuid`.
#[verifier::external_type_specification]
#[verifier::external_body]
pub struct ExUuidError(uuid::Error);

// The 128-bit value that `uuid::Uuid::try_parse` reads from `text`; nothing
// where it rejects `text`.
pub uninterp spec fn uuid_value(text: Seq<char>) -> Option<u128>;

// The text that `uuid::Uuid` prints for the 128-bit value `id`: lower-case
// hexadecimal digits in five hyphenated groups.
pub uninterp spec fn uuid_text(id: u128) -> Seq<char>;

/// Calls `uuid::Uuid::try_parse` and takes the 128-bit value of the result.
///
/// Trusted: the value that comes back is the named one, and the call fails
/// exactly where there is none.
#[verifier::external_body]
fn uuid_try_parse(text: &str) -> (r: Result<u128, uuid::Error>)
    ensures
        match r {
            Ok(id) => uuid_value(text@) == Some(id),
            Err(_) => uuid_value(text@) is None,
        },
{
    Ok(uuid::Uuid::try_parse(text)?.as_u128())
}

/// Calls `uuid::Uuid::from_u128` and prints the result.
///
/// Trusted: the text is the named one, and the crate's parser reads the same
/// value back from it.
#[verifier::external_body]
pub(crate) fn uuid_print(id: u128) -> (r: String)
    ensures
        r@ == uuid_text(id),
        uuid_value(r@) == Some(id),
{
    uuid::Uuid::from_u128(id).to_string()
}

/// Calls `uuid::Uuid::new_v4` and takes the 128-bit value of the result,
/// which is random: nothing is claimed of it.
#[verifier::external_body]
pub(crate) fn uuid_new_v4() -> u128 {
    uuid::Uuid::new_v4().as_u128()
}

/// Parses a UUID. A text that is none is a fault of the server.
pub fn parse_uuid(token: &str) -> (r: Result<u128, ApiError>)
    ensures
        match uuid_value(token@) {
            Some(id) => r == Ok::<u128, ApiError>(id),
            None => r == Err::<u128, ApiError>(ApiError::Internal(InternalFault::UuidParse)),
        },
{
    match uuid_try_parse(token) {
        Ok(id) => Ok(id),
        Err(_) => Err(ApiError::Internal(InternalFault::UuidParse)),
    }
}

} // verus!
