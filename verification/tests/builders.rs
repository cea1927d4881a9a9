use mithic::activitypub::collections::parse_cursor;
use mithic::activitypub::inbox::{accepting_actor, accepts_follow_at_once};
use mithic::api::auth::actor_response;
use mithic::api::drive::{file_response, DriveFile};
use mithic::api::drive_folders::{folder_response, DriveFolder};
use mithic::api::follow_requests::{follow_request_response, FollowRequest};
use mithic::api::notifications::{check_recipient, NotificationType};
use mithic::api::push::{subscription_response, PushSubscription};
use mithic::api::search::account_result;
use mithic::api::statuses::{check_note_owner, renote_note};
use mithic::api::users::{check_not_existing, check_not_self, follow_result, parse_actor_id, relation_response, FollowAction};
use mithic::error::AppError;
use mithic::json::Json;
use mithic::models::{Actor, Note, NoteVisibility};
use mithic::services::chart::{chart_type_text, daily_entry, span_text, ChartSpan, ChartType};
use mithic::services::note::{local_note_uri, user_channel};
use mithic::services::push::{notification_payload, PushNotice};
use mithic::services::relay::{relay_follow, relay_undo};
use mithic::time::Timestamp;

fn t(secs: i64) -> Timestamp {
    Timestamp { secs, nanos: 0 }
}

fn ulid(n: u128) -> ulid::Ulid {
    ulid::Ulid(n)
}

fn actor(host: Option<&str>) -> Actor {
    Actor {
        id: 77,
        created_at: t(0),
        updated_at: None,
        username: "Alice".to_string(),
        username_lower: "alice".to_string(),
        name: Some("Ally".to_string()),
        bio: None,
        followers_count: 0,
        following_count: 0,
        notes_count: 0,
        avatar_url: Some("https://cdn/a.png".to_string()),
        banner_url: None,
        is_suspended: false,
        is_locked: false,
        is_bot: true,
        is_admin: false,
        host: host.map(|h| h.to_string()),
        inbox: None,
        shared_inbox: None,
        featured: None,
        uri: None,
        public_key: None,
        private_key: None,
        token: None,
        password_hash: None,
        email: None,
    }
}

fn get<'a>(j: &'a Json, key: &str) -> &'a Json {
    match j {
        Json::Object(entries) => &entries.iter().find(|(k, _)| k == key).expect(key).1,
        _ => panic!("not an object"),
    }
}

fn text(j: &Json) -> &str {
    match j {
        Json::Str(s) => s,
        _ => panic!("not a string"),
    }
}

#[test]
fn cursors_and_follow_acceptance() {
    let id = ulid(123456789);
    assert_eq!(parse_cursor(&Some(id.to_string())), Some(id.0));
    assert_eq!(parse_cursor(&Some("x".to_string())), None);
    assert_eq!(parse_cursor(&None), None);
    assert!(accepts_follow_at_once(false));
    assert!(!accepts_follow_at_once(true));
    let a = accepting_actor(&id.to_string(), "Bob", true, "https://m/users/Bob/inbox".to_string(), None, "KEY".to_string(), "https://m", t(3));
    assert_eq!((a.id, a.username.as_str(), a.username_lower.as_str(), a.is_locked), (id.0, "Bob", "bob", true));
    assert_eq!(a.uri.as_deref(), Some("https://m/users/Bob"));
    assert_eq!(a.private_key.as_deref(), Some("KEY"));
    assert_eq!(accepting_actor("nope", "Bob", false, String::new(), None, String::new(), "https://m", t(3)).id, 0);
}

#[test]
fn responses_carry_their_records() {
    let a = actor(None);
    assert!(a.is_local());
    assert!(!actor(Some("r.example")).is_local());
    let r = actor_response(&a);
    assert_eq!((r.id, r.username.as_str(), r.name.as_deref()), (ulid(77).to_string(), "Alice", Some("Ally")));
    let s = account_result(&a);
    assert_eq!((s.username.as_str(), s.avatar.as_deref(), s.is_bot), ("Alice", Some("https://cdn/a.png"), true));

    let f = DriveFile {
        id: 8,
        created_at: t(0),
        name: "p.png".to_string(),
        mime_type: "image/png".to_string(),
        size: 10,
        owner_id: 1,
        path: "/x".to_string(),
        hash: "h".to_string(),
        url: Some("https://m/uploads/h".to_string()),
        thumbnail_url: None,
        width: Some(2),
        height: Some(3),
        folder_id: None,
    };
    let fr = file_response(&f);
    assert_eq!((fr.id, fr.name.as_str(), fr.size, fr.width, fr.height), (ulid(8).to_string(), "p.png", 10, Some(2), Some(3)));

    let folder = DriveFolder { id: "fid".to_string(), created_at: t(1_700_000_000), updated_at: Some(t(1_700_000_060)), name: "n".to_string(), owner_id: 9, parent_id: None };
    let d = folder_response(folder);
    assert_eq!((d.id.as_str(), d.created_at.as_str()), ("fid", "2023-11-14T22:13:20+00:00"));
    assert_eq!(d.updated_at.as_deref(), Some("2023-11-14T22:14:20+00:00"));
    assert_eq!(d.owner_id, ulid(9).to_string());

    let req = FollowRequest { id: 1, created_at: t(0), follower_id: 2, followee_id: 3, request_message: Some("hi".to_string()) };
    let q = follow_request_response(req);
    assert_eq!((q.follower_id, q.followee_id, q.created_at.as_str()), (ulid(2).to_string(), ulid(3).to_string(), "1970-01-01T00:00:00+00:00"));

    let sub = PushSubscription { endpoint: "https://push/1".to_string(), p256dh: "p".to_string(), auth: "a".to_string(), created_at: t(60) };
    let sr = subscription_response(sub);
    assert_eq!((sr.endpoint.as_str(), sr.keys.auth.as_str(), sr.created_at.as_str()), ("https://push/1", "a", "1970-01-01T00:01:00+00:00"));

    let rel = relation_response(4, true, false, true, false, true);
    assert_eq!((rel.id, rel.following, rel.followed_by, rel.blocking, rel.muting, rel.requested), (ulid(4).to_string(), true, false, true, true, false));
}

#[test]
fn user_checks() {
    let id = ulid(5);
    assert_eq!(parse_actor_id(&id.to_string()).unwrap(), 5);
    assert!(matches!(parse_actor_id("?"), Err(AppError::Validation(m)) if m == "Invalid actor ID"));
    assert!(matches!(check_not_self(1, 1, "Cannot follow yourself"), Err(AppError::Forbidden(m)) if m == "Cannot follow yourself"));
    assert!(check_not_self(1, 2, "x").is_ok());
    assert!(matches!(check_not_existing(true, "Already blocking this user"), Err(AppError::Conflict(m)) if m == "Already blocking this user"));
    assert!(check_not_existing(false, "x").is_ok());
    assert!(check_note_owner(&ulid(7).to_string(), 7).is_ok());
    assert!(matches!(check_note_owner(&ulid(8).to_string(), 7), Err(AppError::Forbidden(m)) if m == "Cannot delete other user's note"));
    assert!(check_recipient(&Some(ulid(3).to_string()), 3).is_ok());
    assert!(matches!(check_recipient(&None, 3), Err(AppError::NotFound(m)) if m == "Notification not found"));
    assert!(matches!(check_recipient(&Some(ulid(4).to_string()), 3), Err(AppError::NotFound(_))));
    let followed = follow_result(6, FollowAction::Follow);
    assert!(matches!(get(&followed, "following"), Json::Bool(true)));
    assert!(matches!(get(&followed, "requested"), Json::Bool(false)));
    let asked = follow_result(6, FollowAction::Request);
    assert!(matches!(get(&asked, "following"), Json::Bool(false)));
    assert!(matches!(get(&asked, "requested"), Json::Bool(true)));
    assert_eq!(text(get(&asked, "id")), ulid(6).to_string());
}

#[test]
fn notes_channels_and_charts() {
    let target = Note::new(1, t(0), 2, Some("x".to_string()), NoteVisibility::Followers);
    let r = renote_note(3, t(9), 4, &target);
    assert_eq!((r.id, r.actor_id, r.text.clone(), r.visibility), (3, 4, None, NoteVisibility::Followers));
    assert_eq!(user_channel(5), format!("user:{}", ulid(5)));
    assert_eq!(local_note_uri("https://m", 6), format!("https://m/notes/{}", ulid(6)));
    assert_eq!(chart_type_text(ChartType::Users), "users");
    assert_eq!(chart_type_text(ChartType::Notes), "notes");
    assert_eq!(span_text(ChartSpan::Day), "day");
    assert_eq!(span_text(ChartSpan::Hour), "hour");
    let e = daily_entry(1, ChartType::Notes, 738000, 10, 2, 0);
    assert_eq!((e.span, e.date, e.hour, e.total, e.inc, e.dec), (ChartSpan::Day, Some(738000), None, 10, 2, 0));
}

#[test]
fn push_payloads_and_relay_activities() {
    let with_sender = PushNotice { id: "n1".to_string(), notification_type: NotificationType::Follow, sender: Some((None, "bob".to_string())) };
    let p = notification_payload(&with_sender);
    assert_eq!((text(get(&p, "title")), text(get(&p, "body")), text(get(&p, "tag")), text(get(&p, "url"))), ("New follower", "@bob", "n1", "/notifications"));
    let named = PushNotice { id: "n2".to_string(), notification_type: NotificationType::Mention, sender: Some((Some("Bobby".to_string()), "bob".to_string())) };
    assert_eq!(text(get(&notification_payload(&named), "body")), "@Bobby");
    let anonymous = PushNotice { id: "n3".to_string(), notification_type: NotificationType::PollEnded, sender: None };
    assert_eq!(text(get(&notification_payload(&anonymous), "body")), "Poll ended");

    let f = relay_follow("https://m");
    assert_eq!(text(get(&f, "type")), "Follow");
    assert_eq!(text(get(&f, "actor")), "https://m/users/relay.actor");
    assert!(text(get(&f, "id")).starts_with("https://m/activities/follow/"));
    let u = relay_undo("https://m");
    assert_eq!(text(get(&u, "type")), "Undo");
    assert!(text(get(&u, "id")).starts_with("https://m/activities/undo/"));
    assert_ne!(text(get(&relay_follow("https://m"), "id")), text(get(&f, "id")));
}
