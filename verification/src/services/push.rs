//! Web Push delivery: what a notification's push says, which subscription
//! keys are usable, and which answers mean a subscription is gone.
use vstd::prelude::*;
use crate::api::notifications::NotificationType;
use crate::encoding::{decode_url_b64, url_b64_bytes};
use crate::json::{Json, JsonV, json_view, jstr, lemma_json_view_compound, entries_view};

verus! {

/// A push service answers 404 or 410 for a subscription that no longer
/// exists.
pub open spec fn stale_status(status: u16) -> bool {
    status == 404 || status == 410
}

/// Whether a push service's answer means the subscription is gone.
pub fn is_stale_push_status(status: u16) -> (r: bool)
    ensures
        r == stale_status(status),
{
    status == 404 || status == 410
}

/// What a push attempt came to.
#[derive(Clone, Copy, Debug, PartialEq, Eq, Structural)]
pub enum PushOutcome {
    Sent,
    /// The subscription is gone and is removed.
    Stale,
    /// Any other failure, logged.
    Failed,
}

/// The outcome of a push from the service's HTTP status.
pub fn push_outcome(status: u16) -> (r: PushOutcome)
    ensures
        200 <= status <= 299 ==> r == PushOutcome::Sent,
        stale_status(status) ==> r == PushOutcome::Stale,
        !(200 <= status <= 299) && !stale_status(status) ==> r == PushOutcome::Failed,
{
    if 200 <= status && status <= 299 {
        PushOutcome::Sent
    } else if is_stale_push_status(status) {
        PushOutcome::Stale
    } else {
        PushOutcome::Failed
    }
}

/// A notification as pushed: its id, type and sender (display name and
/// username), when there is one.
#[derive(Clone, Debug)]
pub struct PushNotice {
    pub id: String,
    pub notification_type: NotificationType,
    pub sender: Option<(Option<String>, String)>,
}

/// The title a push of each notification type shows.
pub open spec fn push_title(t: NotificationType) -> Seq<char> {
    match t {
        NotificationType::Mention => "Mention"@,
        NotificationType::Reply => "Reply"@,
        NotificationType::Renote => "Renote"@,
        NotificationType::Quote => "Quote"@,
        NotificationType::Reaction => "Reaction"@,
        NotificationType::Follow => "New follower"@,
        NotificationType::FollowRequest => "Follow request"@,
        NotificationType::FollowRequestAccepted => "Follow accepted"@,
        NotificationType::PollEnded => "Poll ended"@,
        NotificationType::UserSignup => "Signup"@,
    }
}

fn title_of(t: NotificationType) -> (r: &'static str)
    ensures
        r@ == push_title(t),
{
    match t {
        NotificationType::Mention => "Mention",
        NotificationType::Reply => "Reply",
        NotificationType::Renote => "Renote",
        NotificationType::Quote => "Quote",
        NotificationType::Reaction => "Reaction",
        NotificationType::Follow => "New follower",
        NotificationType::FollowRequest => "Follow request",
        NotificationType::FollowRequestAccepted => "Follow accepted",
        NotificationType::PollEnded => "Poll ended",
        NotificationType::UserSignup => "Signup",
    }
}

/// The body of a push: `@` and the sender's display name (else username),
/// or the title when there is no sender.
pub open spec fn push_body(n: PushNotice) -> Seq<char> {
    match n.sender {
        Some((display, username)) => "@"@ + match display {
            Some(d) => d@,
            None => username@,
        },
        None => push_title(n.notification_type),
    }
}

/// The JSON the service worker shows for a notification.
pub open spec fn payload_view(n: PushNotice) -> JsonV {
    JsonV::Object(
        seq![
            ("title"@, JsonV::Str(push_title(n.notification_type))),
            ("body"@, JsonV::Str(push_body(n))),
            ("tag"@, JsonV::Str(n.id@)),
            ("url"@, JsonV::Str("/notifications"@)),
            ("notificationId"@, JsonV::Str(n.id@)),
        ],
    )
}

fn entry(k: &str, v: Json) -> (e: (String, Json))
    ensures
        e.0@ == k@,
        e.1 == v,
{
    (String::from_str(k), v)
}

/// The push payload of a notification.
pub fn notification_payload(n: &PushNotice) -> (j: Json)
    ensures
        json_view(j) == payload_view(*n),
{
    let title = title_of(n.notification_type);
    let body = match &n.sender {
        Some((display, username)) => {
            let mut b = String::from_str("@");
            match display {
                Some(d) => b.append(d.as_str()),
                None => b.append(username.as_str()),
            }
            b
        },
        None => String::from_str(title),
    };
    let j = Json::Object(
        vec![
            entry("title", jstr(title)),
            entry("body", Json::Str(body)),
            entry("tag", Json::Str(n.id.clone())),
            entry("url", jstr("/notifications")),
            entry("notificationId", Json::Str(n.id.clone())),
        ],
    );
    proof {
        lemma_json_view_compound(j);
        assert(entries_view(j->Object_0@) =~= payload_view(*n)->Object_0);
    }
    j
}

/// Why a subscription's keys cannot be used.
#[derive(Clone, Copy, Debug, PartialEq, Eq, Structural)]
pub enum PushKeyError {
    InvalidP256dh,
    InvalidAuth,
    /// The auth secret is not 16 bytes.
    AuthLength(usize),
}

/// Decodes a subscription's keys: both URL-safe Base64, the auth secret 16
/// bytes long.
pub fn decode_subscription_keys(p256dh: &str, auth: &str) -> (r: Result<(Vec<u8>, Vec<u8>), PushKeyError>)
    ensures
        url_b64_bytes(p256dh@) is None <==> r == Err::<(Vec<u8>, Vec<u8>), PushKeyError>(PushKeyError::InvalidP256dh),
        (url_b64_bytes(p256dh@) is Some && url_b64_bytes(auth@) is None) <==> r == Err::<(Vec<u8>, Vec<u8>), PushKeyError>(
            PushKeyError::InvalidAuth,
        ),
        r matches Err(PushKeyError::AuthLength(n)) ==> url_b64_bytes(auth@) matches Some(a) && a.len() == n && n != 16,
        r matches Ok(k) ==> url_b64_bytes(p256dh@) == Some(k.0@) && url_b64_bytes(auth@) == Some(k.1@) && k.1@.len() == 16,
        (url_b64_bytes(p256dh@) is Some && url_b64_bytes(auth@) is Some && url_b64_bytes(auth@).unwrap().len() == 16)
            ==> r is Ok,
{
    let key = match decode_url_b64(p256dh) {
        Ok(k) => k,
        Err(_) => {
            return Err(PushKeyError::InvalidP256dh);
        },
    };
    let secret = match decode_url_b64(auth) {
        Ok(a) => a,
        Err(_) => {
            return Err(PushKeyError::InvalidAuth);
        },
    };
    if secret.len() != 16 {
        return Err(PushKeyError::AuthLength(secret.len()));
    }
    Ok((key, secret))
}

} // verus!
