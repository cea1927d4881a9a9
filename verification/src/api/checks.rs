//! Checks that many requests share: reading an id from a path, finding the
//! record it names, and owning it.
use vstd::prelude::*;
use crate::error::{err, AppError, ErrorKind};
use crate::ids::{parse_ulid, ulid_parsed};

verus! {

/// The id a path gives, or an error of kind `kind` with `message` when the
/// text is no ULID.
pub fn parse_id(text: &str, kind: ErrorKind, message: &str) -> (r: Result<u128, AppError>)
    ensures
        match r {
            Ok(id) => ulid_parsed(text@) == Some(id),
            Err(e) => ulid_parsed(text@) is None && e.is(kind, message@),
        },
{
    match parse_ulid(text) {
        Some(id) => Ok(id),
        None => Err(err(kind, message)),
    }
}

/// The record a lookup found, or `NotFound` with `message`.
pub fn found<T>(record: Option<T>, message: &str) -> (r: Result<T, AppError>)
    ensures
        match record {
            Some(v) => r matches Ok(w) && w == v,
            None => r matches Err(e) && e.is(ErrorKind::NotFound, message@),
        },
{
    match record {
        Some(v) => Ok(v),
        None => Err(err(ErrorKind::NotFound, message)),
    }
}

/// Refuses, with `Forbidden` and `message`, a user who is not the owner.
pub fn check_owner(owner_id: u128, user_id: u128, message: &str) -> (r: Result<(), AppError>)
    ensures
        r is Ok <==> owner_id == user_id,
        r matches Err(e) ==> e.is(ErrorKind::Forbidden, message@),
{
    if owner_id != user_id {
        return Err(err(ErrorKind::Forbidden, message));
    }
    Ok(())
}

/// A query parameter that a request requires, or `Validation` with
/// `message` without it.
pub fn require_param(value: Option<String>, message: &str) -> (r: Result<String, AppError>)
    ensures
        match value {
            Some(v) => r matches Ok(w) && w == v,
            None => r matches Err(e) && e.is(ErrorKind::Validation, message@),
        },
{
    match value {
        Some(v) => Ok(v),
        None => Err(err(ErrorKind::Validation, message)),
    }
}

} // verus!
