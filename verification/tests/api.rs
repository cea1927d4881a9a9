use mithic::api::admin::require_admin;
use mithic::api::auth::{check_signin, check_signup_available, generate_token, hash_password, new_local_actor, signup_actor, verify_password, AuthUser, SignupRequest};
use mithic::api::bookmarks::{default_limit, BookmarkListQuery};
use mithic::api::drive::{
    check_upload_size, content_hash, drive_update_query, fetched_save_name, image_dimensions, remote_content_type,
    remote_file_name, to_hex, upload_save_name, UpdateDriveFileRequest,
};
use mithic::api::notifications::{notification_response, notifications_query, Notification, NotificationType, NotificationsQuery};
use mithic::api::push::{check_subscription, PushKeys, PushSubscriptionRequest};
use mithic::api::search::{cut_tags, hashtag_term, search_plan, SearchQuery};
use mithic::api::statuses::{status_note, CreateStatusRequest};
use mithic::api::timeline::to_status_response;
use mithic::api::users::{
    credentials_update, follow_action, relation_targets, to_account_response, FollowAction, UpdateCredentialsRequest,
};
use mithic::error::AppError;
use mithic::models::{Actor, Note, NoteVisibility};
use mithic::services::chart::{chart_data, ChartEntry, ChartSpan, ChartType};
use mithic::services::drive_folder::{check_not_own_parent, folder_update_query, loop_check_next, loop_check_start, LoopStep};
use mithic::services::export::export_file_url;
use mithic::services::filter::{active_filters, content_matches_filters, filter_update, new_filter, CreateFilterRequest, Filter, UpdateFilterRequest};
use mithic::services::relay::{relay_follow_with_id, with_public_audience};
use mithic::json::Json;
use mithic::text::{escape_sql_quotes, quoted_assignment};
use mithic::time::Timestamp;

fn t(secs: i64) -> Timestamp {
    Timestamp { secs, nanos: 0 }
}

fn actor(username: &str, host: Option<&str>) -> Actor {
    Actor {
        id: 5,
        created_at: t(1700000000),
        updated_at: None,
        username: username.to_string(),
        username_lower: username.to_lowercase(),
        name: None,
        bio: Some("bio".to_string()),
        followers_count: 3,
        following_count: 4,
        notes_count: 5,
        avatar_url: None,
        banner_url: Some("https://cdn/b.png".to_string()),
        is_suspended: false,
        is_locked: false,
        is_bot: true,
        is_admin: false,
        host: host.map(|h| h.to_string()),
        inbox: None,
        shared_inbox: None,
        featured: None,
        uri: host.map(|h| format!("https://{}/u/{}", h, username)),
        public_key: None,
        private_key: None,
        token: None,
        password_hash: None,
        email: None,
    }
}

fn message(e: AppError) -> String {
    match e {
        AppError::Validation(m) | AppError::NotFound(m) | AppError::Forbidden(m) | AppError::Unauthorized(m)
        | AppError::Internal(m) | AppError::Conflict(m) => m,
        other => panic!("unexpected {:?}", other),
    }
}

#[test]
fn admins_only() {
    assert!(require_admin(&AuthUser { user_id: 1, is_admin: true }).is_ok());
    assert_eq!(message(require_admin(&AuthUser { user_id: 1, is_admin: false }).unwrap_err()), "Admin access required");
}

#[test]
fn bookmark_defaults() {
    assert_eq!(default_limit(), 40);
    let q = BookmarkListQuery::with_defaults(None, None);
    assert_eq!((q.limit, q.offset), (40, 0));
    let q = BookmarkListQuery::with_defaults(Some(5), Some(10));
    assert_eq!((q.limit, q.offset), (5, 10));
}

#[test]
fn passwords_are_checked_against_their_hash() {
    let hash = hash_password("hunter2").unwrap();
    assert!(hash.starts_with("$argon2id$v=19$"));
    assert_eq!(verify_password("hunter2", &hash).unwrap(), true);
    assert_eq!(verify_password("wrong", &hash).unwrap(), false);
    assert!(message(verify_password("x", "not a phc string").unwrap_err()).starts_with("Password hash parsing error: "));
    let mut a = actor("alice", None);
    assert_eq!(message(check_signin(Some(&a), "hunter2").unwrap_err()), "Invalid credentials");
    a.password_hash = Some(hash);
    assert!(check_signin(Some(&a), "hunter2").is_ok());
    assert_eq!(message(check_signin(Some(&a), "nope").unwrap_err()), "Invalid credentials");
    assert_eq!(message(check_signin(None, "hunter2").unwrap_err()), "Invalid credentials");
}

#[test]
fn tokens_have_three_parts() {
    let tok = generate_token("user-1", 1700000000, 24, "secret").unwrap();
    assert_eq!(tok.split('.').count(), 3);
    assert_eq!(tok, generate_token("user-1", 1700000000, 24, "secret").unwrap());
    assert_ne!(tok, generate_token("user-1", 1700000000, 24, "other").unwrap());
}

#[test]
fn signups() {
    assert_eq!(message(check_signup_available(true).unwrap_err()), "Username already taken");
    let req = SignupRequest { username: "Alice".to_string(), password: "p".to_string(), name: None, email: Some("a@x".to_string()) };
    let a = new_local_actor(9, t(0), req, "HASH".to_string());
    assert_eq!(a.username_lower, "alice");
    assert_eq!(a.password_hash.as_deref(), Some("HASH"));
    assert!(a.host.is_none());
    let req = SignupRequest { username: "Bob".to_string(), password: "pw".to_string(), name: None, email: None };
    let b = signup_actor(10, t(0), req).unwrap();
    assert_eq!((b.id, b.username_lower.as_str()), (10, "bob"));
    let hash = b.password_hash.unwrap();
    assert!(hash.starts_with("$argon2"));
    assert_eq!(verify_password("pw", &hash).unwrap(), true);
    assert_eq!(verify_password("p", &hash).unwrap(), false);
}

#[test]
fn drive_helpers() {
    assert!(check_upload_size(104857600).is_ok());
    assert_eq!(message(check_upload_size(104857601).unwrap_err()), "File too large (max 100MB)");
    assert_eq!(to_hex(&[0x00, 0xab, 0x7f]), "00ab7f");
    assert_eq!(content_hash(b"hello"), "2cf24dba5fb0a30e26e83b2ac5b9e29e1b161e5c1fa7425e73043362938b9824");
    assert_eq!(upload_save_name(1, "photo.JPG"), format!("{}.JPG", ulid_to_string(1)));
    assert_eq!(upload_save_name(1, "README"), format!("{}.", ulid_to_string(1)));
    assert_eq!(fetched_save_name(1, "README"), ulid_to_string(1));
    assert_eq!(image_dimensions("text/plain", b"xx"), (None, None));
    assert_eq!(image_dimensions("image/png", b"not an image"), (None, None));
    assert_eq!(remote_content_type(Some("image/png; charset=x")), "image/png");
    assert_eq!(remote_content_type(None), "application/octet-stream");
    assert_eq!(remote_file_name(&None, "https://x/a/b.png"), "b.png");
    assert_eq!(remote_file_name(&Some("n".to_string()), "https://x/a/b.png"), "n");
    let none = UpdateDriveFileRequest { name: None, folder_id: None };
    assert_eq!(drive_update_query(1, &none), None);
    let both = UpdateDriveFileRequest { name: Some("n".to_string()), folder_id: Some("f".to_string()) };
    assert_eq!(
        drive_update_query(1, &both),
        Some(format!("UPDATE drive_file:{} SET name = $name, folder_id = $folder_id", ulid_to_string(1)))
    );
}

#[test]
fn accounts_as_clients_see_them() {
    let local = to_account_response(&actor("alice", None), "https://m");
    assert_eq!(local.acct, "alice");
    assert_eq!(local.url, "https://m/users/alice");
    assert_eq!(local.avatar, "https://m/static/avatar.png");
    assert_eq!(local.header, "https://cdn/b.png");
    assert_eq!(local.statuses_count, 5);
    assert!(local.bot && local.discoverable && !local.group);
    let remote = to_account_response(&actor("bob", Some("r.example")), "https://m");
    assert_eq!(remote.acct, "bob@r.example");
    assert_eq!(remote.url, "https://r.example/u/bob");
}

#[test]
fn relations_skip_bad_ids() {
    let ids = format!("{},nope,{}", ulid_to_string(3), ulid_to_string(4));
    assert_eq!(relation_targets(&ids), vec![3, 4]);
    assert_eq!(relation_targets(""), Vec::<u128>::new());
}

#[test]
fn follows_of_locked_accounts_become_requests() {
    assert_eq!(follow_action(false, false), FollowAction::Follow);
    assert_eq!(follow_action(true, false), FollowAction::Request);
    assert_eq!(follow_action(true, true), FollowAction::AlreadyRequested);
}

#[test]
fn profile_changes_are_escaped() {
    let req = UpdateCredentialsRequest {
        display_name: Some("O'Brien".to_string()),
        note: None,
        locked: Some(true),
        bot: None,
        avatar_id: None,
        header_id: None,
    };
    let q = credentials_update(1, &req, &None, &None).unwrap();
    assert_eq!(
        q,
        format!("UPDATE user:{} SET name = 'O''Brien', is_locked = true, updated_at = time::now()", ulid_to_string(1))
    );
    let empty = UpdateCredentialsRequest { display_name: None, note: None, locked: None, bot: None, avatar_id: None, header_id: None };
    assert_eq!(credentials_update(1, &empty, &None, &None), None);
    assert_eq!(escape_sql_quotes("a'b''"), "a''b''''");
    assert_eq!(quoted_assignment("bio", "it's"), "bio = 'it''s'");
}

#[test]
fn searches() {
    let q = SearchQuery { q: "#Rust".to_string(), search_type: None, limit: Some(100), offset: None };
    let p = search_plan(&q).unwrap();
    assert_eq!(p.limit, 40);
    assert!(p.accounts && p.statuses && p.hashtags);
    assert_eq!(p.account_term, "#rust");
    assert_eq!(p.hashtag_term, "Rust");
    let only = SearchQuery { q: "x".to_string(), search_type: Some("accounts".to_string()), limit: None, offset: None };
    let p = search_plan(&only).unwrap();
    assert_eq!(p.limit, 20);
    assert!(p.accounts && !p.statuses && !p.hashtags);
    let empty = SearchQuery { q: String::new(), search_type: None, limit: None, offset: None };
    assert_eq!(message(search_plan(&empty).unwrap_err()), "Search query is required");
    assert_eq!(message(hashtag_term(&empty).unwrap_err()), "Hashtag is required");
    assert_eq!(hashtag_term(&q).unwrap(), "rust");
    let tags = vec!["a".to_string(), "b".to_string(), "c".to_string()];
    assert_eq!(cut_tags(tags.clone(), 2), vec!["a".to_string(), "b".to_string()]);
    assert_eq!(cut_tags(tags.clone(), -1), tags);
}

#[test]
fn notification_listing_query() {
    let q = NotificationsQuery {
        limit: Some(500),
        since_id: Some("A".to_string()),
        until_id: None,
        unread_only: Some(true),
        following: None,
        mark_as_read: false,
        include_types: vec!["mention".to_string(), "reply".to_string()],
        exclude_types: vec!["follow".to_string()],
    };
    assert_eq!(
        notifications_query(&q),
        "SELECT * FROM notification WHERE recipient_id = $recipient_id AND is_read = false AND id > 'A' AND notification_type IN ('mention', 'reply') ORDER BY created_at DESC LIMIT 100"
    );
    let n = Notification {
        id: 1,
        created_at: t(0),
        notification_type: NotificationType::FollowRequestAccepted,
        recipient_id: 2,
        sender_id: None,
        note_id: Some(3),
        reaction: None,
        is_read: false,
    };
    let r = notification_response(&n);
    assert_eq!(r.notification_type, "followrequestaccepted");
    assert_eq!(r.created_at, "1970-01-01T00:00:00+00:00");
    assert_eq!(r.note_id, Some(ulid_to_string(3)));
}

#[test]
fn push_subscriptions_are_checked() {
    let sub = |e: &str, p: &str, a: &str| PushSubscriptionRequest {
        endpoint: e.to_string(),
        keys: PushKeys { p256dh: p.to_string(), auth: a.to_string() },
    };
    assert!(check_subscription(&sub("https://push/x", "k", "a")).is_ok());
    assert_eq!(
        message(check_subscription(&sub("", "k", "a")).unwrap_err()),
        "endpoint, keys.p256dh and keys.auth are required"
    );
    assert_eq!(message(check_subscription(&sub("ftp://x", "k", "a")).unwrap_err()), "endpoint must be an http(s) URL");
}

#[test]
fn statuses_from_requests() {
    let req = CreateStatusRequest {
        status: Some("hi".to_string()),
        in_reply_to_id: None,
        sensitive: Some(true),
        spoiler_text: None,
        visibility: Some("unlisted".to_string()),
        scheduled_at: None,
    };
    let n = status_note(1, t(0), 2, req).unwrap();
    assert_eq!(n.visibility, NoteVisibility::Home);
    assert_eq!(n.cw, None);
    let bad = CreateStatusRequest {
        status: None,
        in_reply_to_id: Some("bad".to_string()),
        sensitive: None,
        spoiler_text: Some("cw".to_string()),
        visibility: Some("weird".to_string()),
        scheduled_at: None,
    };
    assert_eq!(message(status_note(1, t(0), 2, bad).unwrap_err()), "Invalid reply ID");
    let reply = CreateStatusRequest {
        status: None,
        in_reply_to_id: Some(ulid_to_string(7)),
        sensitive: None,
        spoiler_text: Some("cw".to_string()),
        visibility: Some("direct".to_string()),
        scheduled_at: None,
    };
    let n = status_note(1, t(0), 2, reply).unwrap();
    assert_eq!(n.reply_id, Some(7));
    assert_eq!(n.cw.as_deref(), Some("cw"));
    assert_eq!(n.visibility, NoteVisibility::Specified);
}

#[test]
fn status_form_of_a_note() {
    let mut n = Note::new(1, t(0), 2, Some("hi".to_string()), NoteVisibility::Followers);
    n.reactions = vec![("a".to_string(), 2), ("b".to_string(), 3)];
    n.tags = vec!["x".to_string()];
    let s = to_status_response(&n, "https://m");
    assert_eq!(s.visibility, "private");
    assert_eq!(s.favourites_count, 5);
    assert_eq!(s.uri, format!("https://m/notes/{}", ulid_to_string(1)));
    assert_eq!(s.tags.len(), 1);
    assert!(!s.sensitive);
}

fn filter(phrase: &str, is_regex: bool, expires_at: Option<Timestamp>) -> Filter {
    let mut f = new_filter(
        1,
        t(0),
        2,
        CreateFilterRequest { phrase: phrase.to_string(), is_regex: Some(is_regex), hide_completely: None, expires_in: None, context: None },
    );
    f.expires_at = expires_at;
    f
}

#[test]
fn filters() {
    let f = new_filter(1, t(100), 2, CreateFilterRequest { phrase: "x".to_string(), is_regex: None, hide_completely: None, expires_in: Some(60), context: None });
    assert!(f.hide_completely && !f.is_regex);
    assert_eq!(f.expires_at, Some(t(160)));
    assert_eq!(f.context, vec!["home".to_string(), "notifications".to_string()]);
    let fs = vec![filter("Spoiler", false, None), filter("^ad[0-9]+", true, None), filter("[", true, None)];
    assert!(content_matches_filters(&fs, "big SPOILER here", "home"));
    assert!(content_matches_filters(&fs, "ad42 buy now", "notifications"));
    assert!(!content_matches_filters(&fs, "nothing", "home"));
    assert!(!content_matches_filters(&fs, "spoiler", "public"));
    let kept = active_filters(vec![filter("a", false, Some(t(10))), filter("b", false, None), filter("c", false, Some(t(50)))], t(20));
    let phrases: Vec<String> = kept.iter().map(|f| f.phrase.clone()).collect();
    assert_eq!(phrases, vec!["b".to_string(), "c".to_string()]);
    let u = UpdateFilterRequest { phrase: Some("it's".to_string()), is_regex: None, hide_completely: Some(false), expires_in: None, context: Some(vec!["home".to_string()]) };
    assert_eq!(
        filter_update(3, &u, t(0)),
        Some(format!("UPDATE filter:{} SET phrase = 'it''s', hide_completely = false, context = ['home'], updated_at = time::now()", ulid_to_string(3)))
    );
}

#[test]
fn charts_run_oldest_first() {
    let e = |d: i32, h: Option<u32>, total: i64| ChartEntry {
        id: 1,
        chart_type: ChartType::Notes,
        span: ChartSpan::Hour,
        date: Some(d),
        hour: h,
        total,
        inc: 1,
        dec: 0,
    };
    let data = chart_data(&vec![e(738000, Some(13), 20), e(738000, Some(5), 10)], ChartSpan::Hour);
    assert_eq!(data.total, vec![10, 20]);
    assert_eq!(data.labels, vec!["2021-07-29 05:00".to_string(), "2021-07-29 13:00".to_string()]);
    let day = chart_data(&vec![e(738000, None, 1)], ChartSpan::Day);
    assert_eq!(day.labels, vec!["2021-07-29".to_string()]);
}

#[test]
fn folders() {
    assert!(check_not_own_parent("f1", &Some(Some("f2".to_string()))).is_ok());
    assert_eq!(message(check_not_own_parent("f1", &Some(Some("f1".to_string()))).unwrap_err()), "Cannot set parent to self");
    assert!(matches!(loop_check_start("a", "a"), LoopStep::Loop));
    assert!(matches!(loop_check_next(&None, "a"), LoopStep::NoLoop));
    assert!(matches!(loop_check_next(&Some("b".to_string()), "a"), LoopStep::Visit(c) if c == "b"));
    assert_eq!(
        folder_update_query("f1", &Some("it's".to_string()), &Some(None)),
        "UPDATE drive_folder:f1 SET name = 'it''s, parent_id = NONE, updated_at = time::now()"
    );
}

#[test]
fn exports_and_relays() {
    assert_eq!(export_file_url("{}"), "data:application/json;base64,e30=");
    let f = relay_follow_with_id("https://m", "u1");
    assert_eq!(f.get("actor").and_then(|a| a.as_str()), Some("https://m/users/relay.actor"));
    assert_eq!(f.get("id").and_then(|a| a.as_str()), Some("https://m/activities/follow/u1"));
    let a = with_public_audience(Json::Object(vec![("type".to_string(), Json::Str("Create".to_string()))]));
    assert!(a.get("to").is_some());
    let again = with_public_audience(a);
    match again {
        Json::Object(v) => assert_eq!(v.len(), 2),
        _ => panic!(),
    }
    assert!(with_public_audience(Json::Null).get("to").is_some());
}

fn ulid_to_string(id: u128) -> String {
    ulid::Ulid(id).to_string()
}
