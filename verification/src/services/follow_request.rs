//! Follow requests to users who approve followers by hand.
use vstd::prelude::*;

verus! {

/// Follow request operations; they take the application state as an
/// argument and keep none of their own.
#[derive(Clone, Copy, Debug)]
pub struct FollowRequestService;

/// Refuses to accept a follow request that does not exist.
pub fn check_request_exists(exists: bool) -> (r: Result<(), crate::error::AppError>)
    ensures
        r is Ok <==> exists,
        r matches Err(e) ==> e.is(crate::error::ErrorKind::Validation, "Follow request not found"@),
{
    if !exists {
        return Err(crate::error::err(crate::error::ErrorKind::Validation, "Follow request not found"));
    }
    Ok(())
}

} // verus!
