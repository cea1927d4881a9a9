//! Follow requests as the client sees them.
use vstd::prelude::*;
use crate::ids::{ulid_text, ulid_to_string};
use crate::time::{Timestamp, rfc3339_text, to_rfc3339};

verus! {

/// A request to follow a user who approves followers by hand.
#[derive(Clone, Debug)]
pub struct FollowRequest {
    pub id: u128,
    pub created_at: Timestamp,
    pub follower_id: u128,
    pub followee_id: u128,
    pub request_message: Option<String>,
}

/// A follow request as the client sees it.
#[derive(Clone, Debug)]
pub struct FollowRequestResponse {
    pub id: String,
    pub created_at: String,
    pub follower_id: String,
    pub followee_id: String,
    pub request_message: Option<String>,
}

/// The client's view of a follow request.
pub fn follow_request_response(req: FollowRequest) -> (r: FollowRequestResponse)
    requires
        req.created_at.wf(),
    ensures
        r.id@ == ulid_text(req.id),
        r.created_at@ == rfc3339_text(req.created_at.secs as int, req.created_at.nanos as int),
        r.follower_id@ == ulid_text(req.follower_id),
        r.followee_id@ == ulid_text(req.followee_id),
        r.request_message == req.request_message,
{
    FollowRequestResponse {
        id: ulid_to_string(req.id),
        created_at: to_rfc3339(req.created_at),
        follower_id: ulid_to_string(req.follower_id),
        followee_id: ulid_to_string(req.followee_id),
        request_message: req.request_message,
    }
}

} // verus!
