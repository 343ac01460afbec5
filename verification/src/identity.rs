use crate::error::AppError;
use vstd::prelude::*;

verus! {

#[verifier::external_type_specification]
#[verifier::external_body]
pub struct ExUuidError(uuid::Error);

/// The 128-bit value of the UUID that `text` spells, if it spells one
/// (the result of `uuid::Uuid::parse_str`).
pub uninterp spec fn parsed_uuid(text: Seq<char>) -> Option<u128>;

/// `str::parse::<uuid::Uuid>`: reads a UUID and yields its 128-bit value;
/// the call succeeds exactly when `parsed_uuid` names a value for the text.
#[verifier::external_body]
fn parse_uuid(text: &str) -> (r: Result<u128, uuid::Error>)
    ensures
        match r {
            Ok(v) => parsed_uuid(text@) == Some(v),
            Err(_) => parsed_uuid(text@) is None,
        },
{
    match text.parse::<uuid::Uuid>() {
        Ok(id) => Ok(id.as_u128()),
        Err(e) => Err(e),
    }
}

/// The owner id carried by a parsed token subject, or the internal error
/// with which a subject that is not a UUID is answered.
pub fn owner_id(parsed: Option<u128>) -> (r: Result<u128, AppError>)
    ensures
        match parsed {
            Some(v) => r == Ok::<u128, AppError>(v),
            None => r matches Err(AppError::Internal(m)) && m@ == "Invalid user ID"@,
        },
{
    match parsed {
        Some(v) => Ok(v),
        None => Err(AppError::Internal("Invalid user ID".to_owned())),
    }
}

/// The id of the user that a token subject names.
pub fn user_id_from_subject(subject: &str) -> (r: Result<u128, AppError>)
    ensures
        match parsed_uuid(subject@) {
            Some(v) => r == Ok::<u128, AppError>(v),
            None => r matches Err(AppError::Internal(m)) && m@ == "Invalid user ID"@,
        },
{
    match parse_uuid(subject) {
        Ok(v) => owner_id(Some(v)),
        Err(_) => owner_id(None),
    }
}

} // verus!
