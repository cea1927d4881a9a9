//! User lists: named sets of accounts whose notes a user reads together.
use vstd::prelude::*;
use crate::api::checks::{check_owner, found};
use crate::error::{err, AppError, ErrorKind};
use crate::time::Timestamp;

verus! {

/// A list of accounts.
#[derive(Clone, Debug)]
pub struct UserList {
    pub id: u128,
    pub user_id: u128,
    pub name: String,
    pub created_at: Timestamp,
    pub updated_at: Option<Timestamp>,
}

/// Refuses an empty list name.
pub fn check_list_name(name: &str) -> (r: Result<(), AppError>)
    ensures
        r is Ok <==> name@.len() > 0,
        r matches Err(e) ==> e.is(ErrorKind::Validation, "List name cannot be empty"@),
{
    if name.unicode_len() == 0 {
        return Err(err(ErrorKind::Validation, "List name cannot be empty"));
    }
    Ok(())
}

/// The list a lookup found, when `user_id` owns it: `NotFound` without a list,
/// `Forbidden` for a list of another user.
pub fn owned_list(record: Option<UserList>, user_id: u128) -> (r: Result<UserList, AppError>)
    ensures
        match record {
            None => r matches Err(e) && e.is(ErrorKind::NotFound, "List not found"@),
            Some(l) => if l.user_id == user_id {
                r matches Ok(m) && m == l
            } else {
                r matches Err(e) && e.is(ErrorKind::Forbidden, "You don't own this list"@)
            },
        },
{
    let list = found(record, "List not found")?;
    check_owner(list.user_id, user_id, "You don't own this list")?;
    Ok(list)
}

/// Refuses to add an account that the list holds already.
pub fn check_not_listed(already: bool) -> (r: Result<(), AppError>)
    ensures
        r is Ok <==> !already,
        r matches Err(e) ==> e.is(ErrorKind::Conflict, "User is already in this list"@),
{
    if already {
        return Err(err(ErrorKind::Conflict, "User is already in this list"));
    }
    Ok(())
}

} // verus!
