//! Web Push subscriptions.
use vstd::prelude::*;
use crate::error::{AppError, ErrorKind, err};
use crate::text::{has_prefix, starts_with_str};
use crate::time::{Timestamp, rfc3339_text, to_rfc3339};

verus! {

/// The keys of a browser's push subscription.
#[derive(Clone, Debug)]
pub struct PushKeys {
    pub p256dh: String,
    pub auth: String,
}

/// A browser's push subscription.
#[derive(Clone, Debug)]
pub struct PushSubscriptionRequest {
    pub endpoint: String,
    pub keys: PushKeys,
}

/// A stored push subscription as the client sees it.
#[derive(Clone, Debug)]
pub struct PushSubscriptionResponse {
    pub endpoint: String,
    pub keys: PushKeys,
    pub created_at: String,
}

/// Checks a subscription before it is stored: endpoint and both keys must be
/// given, and the endpoint must be an http(s) URL.
pub fn check_subscription(req: &PushSubscriptionRequest) -> (r: Result<(), AppError>)
    ensures
        (req.endpoint@.len() == 0 || req.keys.p256dh@.len() == 0 || req.keys.auth@.len() == 0) <==> (r matches Err(
            e,
        ) && e.is(ErrorKind::Validation, "endpoint, keys.p256dh and keys.auth are required"@)),
        (!(req.endpoint@.len() == 0 || req.keys.p256dh@.len() == 0 || req.keys.auth@.len() == 0) && !(has_prefix(
            req.endpoint@,
            "https://"@,
        ) || has_prefix(req.endpoint@, "http://"@))) <==> (r matches Err(e) && e.is(
            ErrorKind::Validation,
            "endpoint must be an http(s) URL"@,
        )),
        r is Ok <==> (!(req.endpoint@.len() == 0 || req.keys.p256dh@.len() == 0 || req.keys.auth@.len() == 0) && (
        has_prefix(req.endpoint@, "https://"@) || has_prefix(req.endpoint@, "http://"@))),
{
    proof {
        reveal_strlit("endpoint, keys.p256dh and keys.auth are required");
        reveal_strlit("endpoint must be an http(s) URL");
    }
    if req.endpoint.unicode_len() == 0 || req.keys.p256dh.unicode_len() == 0 || req.keys.auth.unicode_len() == 0 {
        let e = err(ErrorKind::Validation, "endpoint, keys.p256dh and keys.auth are required");
        assert("endpoint must be an http(s) URL"@.len() == 31);
        assert("endpoint, keys.p256dh and keys.auth are required"@.len() == 48);
        assert(e.message() != "endpoint must be an http(s) URL"@);
        return Err(e);
    }
    if !(starts_with_str(req.endpoint.as_str(), "https://") || starts_with_str(req.endpoint.as_str(), "http://")) {
        let e = err(ErrorKind::Validation, "endpoint must be an http(s) URL");
        assert("endpoint must be an http(s) URL"@.len() == 31);
        assert("endpoint, keys.p256dh and keys.auth are required"@.len() == 48);
        assert(e.message() != "endpoint, keys.p256dh and keys.auth are required"@);
        return Err(e);
    }
    Ok(())
}

/// A stored subscription.
#[derive(Clone, Debug)]
pub struct PushSubscription {
    pub endpoint: String,
    pub p256dh: String,
    pub auth: String,
    pub created_at: Timestamp,
}

/// The client's view of a stored subscription.
pub fn subscription_response(sub: PushSubscription) -> (r: PushSubscriptionResponse)
    requires
        sub.created_at.wf(),
    ensures
        r.endpoint == sub.endpoint,
        r.keys.p256dh == sub.p256dh,
        r.keys.auth == sub.auth,
        r.created_at@ == rfc3339_text(sub.created_at.secs as int, sub.created_at.nanos as int),
{
    let created_at = to_rfc3339(sub.created_at);
    PushSubscriptionResponse {
        endpoint: sub.endpoint,
        keys: PushKeys { p256dh: sub.p256dh, auth: sub.auth },
        created_at,
    }
}

/// The key clients subscribe with, or `NotFound` when push is not set up.
pub fn vapid_key_answer(key: Option<String>) -> (r: Result<String, AppError>)
    ensures
        match key {
            Some(k) => r matches Ok(v) && v == k,
            None => r matches Err(e) && e.is(ErrorKind::NotFound, "Push notifications not configured"@),
        },
{
    match key {
        Some(k) => Ok(k),
        None => Err(crate::error::err(ErrorKind::NotFound, "Push notifications not configured")),
    }
}

/// The subscription a registration stores: the user's existing subscription
/// for the endpoint with the new keys, or a new one made at `now`.
pub fn registered_subscription(existing: Option<PushSubscription>, req: PushSubscriptionRequest, now: Timestamp) -> (r: PushSubscription)
    ensures
        r.endpoint == (match existing { Some(e) => e.endpoint, None => req.endpoint }),
        r.p256dh == req.keys.p256dh,
        r.auth == req.keys.auth,
        r.created_at == (match existing { Some(e) => e.created_at, None => now }),
{
    match existing {
        Some(e) => PushSubscription { endpoint: e.endpoint, p256dh: req.keys.p256dh, auth: req.keys.auth, created_at: e.created_at },
        None => PushSubscription { endpoint: req.endpoint, p256dh: req.keys.p256dh, auth: req.keys.auth, created_at: now },
    }
}

/// The deletion an unregistration makes: of the one endpoint it names, or of
/// all the user's subscriptions.
pub fn unregister_query(endpoint_given: bool) -> (q: &'static str)
    ensures
        q@ == (if endpoint_given {
            "DELETE push_subscription WHERE user_id = $user_id AND endpoint = $endpoint"@
        } else {
            "DELETE push_subscription WHERE user_id = $user_id"@
        }),
{
    if endpoint_given {
        "DELETE push_subscription WHERE user_id = $user_id AND endpoint = $endpoint"
    } else {
        "DELETE push_subscription WHERE user_id = $user_id"
    }
}

/// Who a test notification names: the user's name, or `Someone` when the
/// user is not found; and the page it links to.
pub fn test_notification_parts(username: Option<String>, instance_url: &str) -> (r: (String, String))
    ensures
        r.0@ == match username {
            Some(u) => u@,
            None => "Someone"@,
        },
        r.1@ == instance_url@ + "/notifications"@,
{
    let name = match username {
        Some(u) => u,
        None => String::from_str("Someone"),
    };
    let mut link = String::from_str(instance_url);
    link.append("/notifications");
    (name, link)
}

} // verus!
