//! The Web Push service's configuration.
use vstd::prelude::*;
use crate::error::{err, AppError, ErrorKind};
use crate::text::{contains_str, has_substring};

verus! {

/// Web Push, configured by the VAPID keys (when given) and the contact the
/// push services may reach.
#[derive(Clone, Debug)]
pub struct WebPushService {
    pub vapid_private_key: Option<String>,
    pub vapid_public_key: Option<String>,
    pub subject: String,
}

/// The contact of the VAPID signature: `mailto:` the administrator's
/// address, or `admin@example.com`.
pub open spec fn vapid_subject(admin_email: Option<String>) -> Seq<char> {
    "mailto:"@ + match admin_email {
        Some(e) => e@,
        None => "admin@example.com"@,
    }
}

impl WebPushService {
    /// The service for the given administrator address and VAPID keys (read
    /// from the environment by the caller).
    pub fn new(admin_email: Option<String>, vapid_private_key: Option<String>, vapid_public_key: Option<String>) -> (s: Self)
        ensures
            s.vapid_private_key == vapid_private_key,
            s.vapid_public_key == vapid_public_key,
            s.subject@ == vapid_subject(admin_email),
    {
        let mut subject = String::from_str("mailto:");
        match &admin_email {
            Some(e) => subject.append(e.as_str()),
            None => subject.append("admin@example.com"),
        }
        WebPushService { vapid_private_key, vapid_public_key, subject }
    }

    /// The public key browsers subscribe with, when there is one.
    pub fn get_public_key(&self) -> (r: Option<&String>)
        ensures
            match r {
                Some(k) => self.vapid_public_key == Some(*k),
                None => self.vapid_public_key is None,
            },
    {
        match &self.vapid_public_key {
            Some(k) => Some(k),
            None => None,
        }
    }

    /// Push is on exactly when a private key is configured.
    pub fn is_enabled(&self) -> (r: bool)
        ensures
            r == self.vapid_private_key is Some,
    {
        self.vapid_private_key.is_some()
    }
}

/// The body of a push: an id, a title, a text and the page it opens.
#[derive(Clone, Debug)]
pub struct WebPushBody {
    pub id: String,
    pub title: String,
    pub body: String,
    pub url: Option<String>,
}

fn body_with(id: String, title: String, text: &str, url: &str) -> (b: WebPushBody)
    ensures
        b.id == id,
        b.title == title,
        b.body@ == text@,
        b.url matches Some(u) && u@ == url@,
{
    WebPushBody { id, title, body: String::from_str(text), url: Some(String::from_str(url)) }
}

/// The push telling a user that `actor_name` mentioned them in the note at
/// `note_url`.
pub fn mention_push_body(id: String, actor_name: &str, note_url: &str) -> (b: WebPushBody)
    ensures
        b.id == id,
        b.title@ == actor_name@ + " mentioned you"@,
        b.body@ == "You were mentioned in a note"@,
        b.url matches Some(u) && u@ == note_url@,
{
    let mut title = String::from_str(actor_name);
    title.append(" mentioned you");
    body_with(id, title, "You were mentioned in a note", note_url)
}

/// The push telling a user that `actor_name` (at `actor_url`) followed them.
pub fn follow_push_body(id: String, actor_name: &str, actor_url: &str) -> (b: WebPushBody)
    ensures
        b.id == id,
        b.title@ == actor_name@ + " followed you"@,
        b.body@ == "You have a new follower"@,
        b.url matches Some(u) && u@ == actor_url@,
{
    let mut title = String::from_str(actor_name);
    title.append(" followed you");
    body_with(id, title, "You have a new follower", actor_url)
}

/// The push telling a user that `actor_name` reacted with `emoji` to the note
/// at `note_url`.
pub fn reaction_push_body(id: String, actor_name: &str, emoji: &str, note_url: &str) -> (b: WebPushBody)
    ensures
        b.id == id,
        b.title@ == actor_name@ + " reacted "@ + emoji@,
        b.body@ == "Someone reacted to your note"@,
        b.url matches Some(u) && u@ == note_url@,
{
    let mut title = String::from_str(actor_name);
    title.append(" reacted ");
    title.append(emoji);
    body_with(id, title, "Someone reacted to your note", note_url)
}

/// How sending one push failed.
#[derive(Clone, Copy, Debug, PartialEq, Eq, Structural)]
pub enum PushSendFailure {
    /// Push is not configured.
    NotConfigured,
    /// The push service says the endpoint is invalid or gone.
    InvalidEndpoint,
    /// Any other failure, with the push client's text.
    Other,
}

/// The error a failed push answers with; `detail` is the push client's text
/// of an `Other` failure.
pub fn push_send_error(f: PushSendFailure, detail: &str) -> (e: AppError)
    ensures
        e.is(
            ErrorKind::Internal,
            match f {
                PushSendFailure::NotConfigured => "Push notifications not configured"@,
                PushSendFailure::InvalidEndpoint => "Invalid endpoint"@,
                PushSendFailure::Other => "Push notification failed: "@ + detail@,
            },
        ),
{
    match f {
        PushSendFailure::NotConfigured => err(ErrorKind::Internal, "Push notifications not configured"),
        PushSendFailure::InvalidEndpoint => err(ErrorKind::Internal, "Invalid endpoint"),
        PushSendFailure::Other => {
            let mut m = String::from_str("Push notification failed: ");
            m.append(detail);
            AppError::Internal(m)
        },
    }
}

/// A failed push removes the subscription when it is an internal error whose
/// message mentions an invalid endpoint; other failures are only logged.
pub fn removes_subscription(e: &AppError) -> (r: bool)
    ensures
        r == (e.kind() == ErrorKind::Internal && has_substring(e.message(), "Invalid endpoint"@)),
{
    match e {
        AppError::Internal(m) => contains_str(m.as_str(), "Invalid endpoint"),
        AppError::Database(_) => false,
        AppError::NotFound(_) => false,
        AppError::BadRequest(_) => false,
        AppError::Validation(_) => false,
        AppError::Forbidden(_) => false,
        AppError::Unauthorized(_) => false,
        AppError::Conflict(_) => false,
    }
}

/// An invalid endpoint is the one failure that removes a subscription.
pub proof fn lemma_only_invalid_endpoints_remove(f: PushSendFailure, detail: Seq<char>, e: AppError)
    requires
        f != PushSendFailure::Other,
        e.is(
            ErrorKind::Internal,
            match f {
                PushSendFailure::NotConfigured => "Push notifications not configured"@,
                PushSendFailure::InvalidEndpoint => "Invalid endpoint"@,
                PushSendFailure::Other => "Push notification failed: "@ + detail,
            },
        ),
    ensures
        has_substring(e.message(), "Invalid endpoint"@) <==> f == PushSendFailure::InvalidEndpoint,
{
    reveal_strlit("Invalid endpoint");
    reveal_strlit("Push notifications not configured");
    if f == PushSendFailure::InvalidEndpoint {
        assert(e.message().subrange(0, 16) =~= "Invalid endpoint"@);
        assert(crate::text::occurs_at(e.message(), "Invalid endpoint"@, 0));
    } else {
        let m = e.message();
        assert forall|i: int| !crate::text::occurs_at(m, "Invalid endpoint"@, i) by {
            if 0 <= i && i + 16 <= m.len() && crate::text::occurs_at(m, "Invalid endpoint"@, i) {
                assert(m[i] == "Invalid endpoint"@[0]);
                assert(m[i + 1] == "Invalid endpoint"@[1]);
            }
        }
    }
}

} // verus!
