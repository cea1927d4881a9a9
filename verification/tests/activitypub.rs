use mithic::activitypub::actor::{activitypub_actor, featured_collection, featured_item};
use mithic::activitypub::collections::{actor_collection, actor_collection_page, outbox_collection, outbox_page, outbox_query};
use mithic::activitypub::inbox::{
    announce_note, extract_host_from_uri, get_follower_inbox, like_emoji, read_create, read_follow_parties, read_pointed_uri, read_undo, read_update,
    remote_actor_from_json, route_shared_inbox, route_user_inbox, Activity, InboxAction, UndoAction,
};
use mithic::activitypub::notes::{build_ap_note, build_note_activity, check_note_servable, note_to_activity, parse_note_id};
use mithic::activitypub::webfinger::{parse_webfinger_resource, webfinger_response};
use mithic::error::AppError;
use mithic::json::Json;
use mithic::models::{Actor, Note, NoteVisibility};
use mithic::time::Timestamp;

fn actor(username: &str) -> Actor {
    Actor {
        id: 1,
        created_at: Timestamp { secs: 0, nanos: 0 },
        updated_at: None,
        username: username.to_string(),
        username_lower: username.to_lowercase(),
        name: Some("Alice".to_string()),
        bio: None,
        followers_count: 0,
        following_count: 0,
        notes_count: 0,
        avatar_url: Some("https://cdn/a.png".to_string()),
        banner_url: None,
        is_suspended: false,
        is_locked: true,
        is_bot: false,
        is_admin: false,
        host: None,
        inbox: None,
        shared_inbox: None,
        featured: None,
        uri: None,
        public_key: Some("PEM".to_string()),
        private_key: None,
        token: None,
        password_hash: None,
        email: None,
    }
}

fn obj(entries: Vec<(&str, Json)>) -> Json {
    Json::Object(entries.into_iter().map(|(k, v)| (k.to_string(), v)).collect())
}

fn jstr(x: &str) -> Json {
    Json::Str(x.to_string())
}

fn member<'a>(j: &'a Json, k: &str) -> &'a Json {
    j.get(k).unwrap()
}

fn message(e: AppError) -> String {
    match e {
        AppError::Validation(m) | AppError::NotFound(m) | AppError::Forbidden(m) => m,
        other => panic!("unexpected {:?}", other),
    }
}

#[test]
fn webfinger_resources_are_checked() {
    let i = "https://mithic.test";
    assert_eq!(message(parse_webfinger_resource("alice@mithic.test", i).unwrap_err()), "Invalid resource format");
    assert_eq!(message(parse_webfinger_resource("acct:alice", i).unwrap_err()), "Invalid acct format");
    assert_eq!(message(parse_webfinger_resource("acct:a@b@c", i).unwrap_err()), "Invalid acct format");
    assert_eq!(
        message(parse_webfinger_resource("acct:alice@other.test", i).unwrap_err()),
        "Actor not found on this instance"
    );
    let (u, h) = parse_webfinger_resource("acct:alice@mithic.test", i).unwrap();
    assert_eq!((u.as_str(), h.as_str()), ("alice", "mithic.test"));
    assert!(parse_webfinger_resource("acct:acct:alice@mithic.test", "http://mithic.test").is_ok());
}

#[test]
fn webfinger_subjects_resolve_again() {
    let r = webfinger_response("https://mithic.test", "alice", "mithic.test");
    assert_eq!(r.subject, "acct:alice@mithic.test");
    assert_eq!(r.aliases, vec!["https://mithic.test/users/alice".to_string()]);
    assert_eq!(r.links[0].rel, "self");
    assert_eq!(r.links[0].href.as_deref(), Some("https://mithic.test/users/alice"));
    assert_eq!(r.links[1].link_type.as_deref(), Some("text/html"));
    let (u, h) = parse_webfinger_resource(&r.subject, "https://mithic.test").unwrap();
    assert_eq!((u.as_str(), h.as_str()), ("alice", "mithic.test"));
}

#[test]
fn actor_documents_live_under_the_user_url() {
    let a = activitypub_actor(&actor("alice"), "alice", "https://mithic.test");
    assert_eq!(a.id, "https://mithic.test/users/alice");
    assert_eq!(a.inbox, "https://mithic.test/users/alice/inbox");
    assert_eq!(a.shared_inbox.as_deref(), Some("https://mithic.test/inbox"));
    assert_eq!(a.public_key.id, "https://mithic.test/users/alice#main-key");
    assert_eq!(a.public_key.public_key_pem, "PEM");
    assert!(a.manually_approves_followers);
    assert_eq!(a.icon.as_ref().map(|i| i.url.as_str()), Some("https://cdn/a.png"));
    assert!(a.image.is_none());
    assert_eq!(a.context.len(), 2);
}

#[test]
fn hosts_come_from_the_third_piece() {
    assert_eq!(extract_host_from_uri("https://remote.example/users/bob"), "remote.example");
    assert_eq!(extract_host_from_uri("nohost"), "unknown");
    assert_eq!(extract_host_from_uri("a/b"), "unknown");
}

#[test]
fn inbox_routes() {
    assert_eq!(route_user_inbox("Follow"), InboxAction::Follow);
    assert_eq!(route_user_inbox("Reject"), InboxAction::Reject);
    assert_eq!(route_user_inbox("Move"), InboxAction::Ignore);
    assert_eq!(route_shared_inbox("Follow"), InboxAction::Ignore);
    assert_eq!(route_shared_inbox("Reject"), InboxAction::Accept);
    assert_eq!(route_shared_inbox("Like"), InboxAction::Like);
}

fn activity(object: Option<Json>) -> Activity {
    Activity {
        context: None,
        id: "https://remote/act/1".to_string(),
        activity_type: "Create".to_string(),
        actor: "https://remote/users/bob".to_string(),
        object,
        target: None,
    }
}

#[test]
fn creates_carry_notes() {
    assert_eq!(message(read_create(&activity(None)).unwrap_err()), "Missing object in Create activity");
    assert!(read_create(&activity(Some(obj(vec![("type", jstr("Question"))])))).unwrap().is_none());
    let n = read_create(&activity(Some(obj(vec![("type", jstr("Note")), ("content", jstr("hi"))])))).unwrap().unwrap();
    assert_eq!(n.content, "hi");
    assert_eq!(n.actor_uri, "https://remote/users/bob");
    assert_eq!(n.note_uri, "");
}

#[test]
fn likes_and_announces_point_at_uris() {
    assert_eq!(read_pointed_uri(&jstr("https://n/1"), "Missing liked object URI").unwrap(), "https://n/1");
    assert_eq!(read_pointed_uri(&obj(vec![("id", jstr("https://n/2"))]), "x").unwrap(), "https://n/2");
    assert_eq!(message(read_pointed_uri(&Json::Int(1), "Missing liked object URI").unwrap_err()), "Missing liked object URI");
}

#[test]
fn follow_objects_are_read() {
    let f = obj(vec![("type", jstr("Follow")), ("actor", jstr("a")), ("object", jstr("b"))]);
    assert_eq!(read_follow_parties(&f), Some(("a".to_string(), "b".to_string())));
    assert_eq!(read_follow_parties(&obj(vec![("type", jstr("Like"))])), None);
    assert!(matches!(read_undo(&f), UndoAction::Unfollow(a) if a == "a"));
    assert!(matches!(read_undo(&obj(vec![("type", jstr("Like"))])), UndoAction::Nothing));
    assert_eq!(read_update(&obj(vec![("type", jstr("Person"))]), "https://r/u"), Some("https://r/u".to_string()));
    assert_eq!(read_update(&obj(vec![("type", jstr("Note"))]), "https://r/u"), None);
}

#[test]
fn remote_actors_are_read_from_their_documents() {
    let doc = obj(vec![
        ("preferredUsername", jstr("Bob")),
        ("inbox", jstr("https://remote.example/users/bob/inbox")),
        ("endpoints", obj(vec![("sharedInbox", jstr("https://remote.example/inbox"))])),
        ("publicKey", obj(vec![("publicKeyPem", jstr("KEY"))])),
    ]);
    let now = Timestamp { secs: 7, nanos: 0 };
    let a = remote_actor_from_json(3, now, "https://remote.example/users/bob", &doc);
    assert_eq!(a.username, "Bob");
    assert_eq!(a.username_lower, "bob");
    assert_eq!(a.host.as_deref(), Some("remote.example"));
    assert_eq!(a.shared_inbox.as_deref(), Some("https://remote.example/inbox"));
    assert_eq!(a.public_key.as_deref(), Some("KEY"));
    assert!(a.private_key.is_none());
    assert_eq!(get_follower_inbox(&a), "https://remote.example/users/bob/inbox");
    let anon = remote_actor_from_json(4, now, "https://r/u", &obj(vec![]));
    assert_eq!(anon.username, "unknown");
    assert_eq!(get_follower_inbox(&anon), "https://r/u/inbox");
}

fn note(id: u128, vis: NoteVisibility) -> Note {
    let mut n = Note::new(id, Timestamp { secs: 1700000000, nanos: 0 }, 1, Some("hello".to_string()), vis);
    n.tags = vec!["rust".to_string()];
    n.reactions = vec![("⭐".to_string(), 2)];
    n
}

#[test]
fn notes_as_objects() {
    let n = note(2, NoteVisibility::Public);
    let j = build_ap_note(&n, "https://mithic.test");
    let url = format!("https://mithic.test/notes/{}", ulid_to_string(2));
    assert_eq!(member(&j, "id").as_str(), Some(url.as_str()));
    assert_eq!(member(&j, "published").as_str(), Some("2023-11-14T22:13:20+00:00"));
    let tag = member(&j, "tag");
    assert!(matches!(tag, Json::Array(v) if v.len() == 1));
    assert_eq!(member(member(&j, "_misskey_reaction"), "count").as_i64(), Some(2));
    assert!(j.get("inReplyTo").is_none());
    let act = build_note_activity(&n, "https://mithic.test");
    assert_eq!(member(&act, "type").as_str(), Some("Create"));
    let private = note(3, NoteVisibility::Followers);
    assert!(matches!(member(&build_ap_note(&private, "https://x"), "to"), Json::Array(v) if v.is_empty()));
}

#[test]
fn only_local_public_notes_are_served() {
    assert!(check_note_servable(&note(1, NoteVisibility::Home)).is_ok());
    assert_eq!(message(check_note_servable(&note(1, NoteVisibility::Specified)).unwrap_err()), "error-forbidden");
    let mut remote = note(1, NoteVisibility::Public);
    remote.host = Some("r".to_string());
    assert_eq!(message(check_note_servable(&remote).unwrap_err()), "note-not-found");
    assert_eq!(message(parse_note_id("zz").unwrap_err()), "Invalid note ID: zz");
    assert_eq!(parse_note_id(&ulid_to_string(42)).unwrap(), 42);
}

#[test]
fn collections_and_pages() {
    let c = actor_collection("https://m/users/a/followers", 3);
    assert_eq!(member(&c, "first").as_str(), Some("https://m/users/a/followers?page=true"));
    let ids: Vec<String> = (0..11).map(|i| format!("u{}", i)).collect();
    let p = actor_collection_page(&ids, "https://m", "https://m/users/a/followers", 11);
    assert!(matches!(member(&p, "orderedItems"), Json::Array(v) if v.len() == 10));
    assert_eq!(member(&p, "next").as_str(), Some("https://m/users/a/followers?page=true&cursor=u9"));
    let short = actor_collection_page(&ids[..2].to_vec(), "https://m", "https://m/f", 2);
    assert!(matches!(member(&short, "next"), Json::Null));
    let o = outbox_collection("https://m/users/a/outbox", 5);
    assert_eq!(member(&o, "last").as_str(), Some("https://m/users/a/outbox?page=true&since_id=00000000000000000000000000"));
}

#[test]
fn outbox_pages() {
    let notes: Vec<Note> = (1..=21).map(|i| note(i, NoteVisibility::Public)).collect();
    let p = outbox_page(&notes, "https://m/users/a", "https://m", "https://m/users/a/outbox", 21, false);
    let items = member(&p, "orderedItems");
    assert!(matches!(items, Json::Array(v) if v.len() == 20));
    let next = format!("https://m/users/a/outbox?page=true&until_id={}", ulid_to_string(20));
    assert_eq!(member(&p, "next").as_str(), Some(next.as_str()));
    let prev = format!("https://m/users/a/outbox?page=true&since_id={}", ulid_to_string(1));
    assert_eq!(member(&p, "prev").as_str(), Some(prev.as_str()));
    let back = outbox_page(&notes[..2].to_vec(), "https://m/users/a", "https://m", "https://m/users/a/outbox", 2, true);
    match member(&back, "orderedItems") {
        Json::Array(v) => {
            let first = member(member(&v[0], "object"), "id").as_str().unwrap().to_string();
            assert!(first.ends_with(&ulid_to_string(2)));
        },
        _ => panic!(),
    }
    assert!(matches!(member(&back, "next"), Json::Null));
    let act = note_to_activity(&notes[0], "https://m/users/a", "https://m");
    assert_eq!(member(&act, "actor").as_str(), Some("https://m/users/a"));
    let q = outbox_query(Some(1), None);
    assert!(q.contains(&format!(" AND id > '{}'", ulid_to_string(1))));
    assert!(q.ends_with(" ORDER BY id DESC LIMIT $limit"));
}

#[test]
fn featured_collection_lists_pinned_notes() {
    let n = note(4, NoteVisibility::Public);
    let item = featured_item(&n, "https://mithic.test", "https://mithic.test/users/alice");
    assert_eq!(member(&item, "type").as_str(), Some("Note"));
    assert_eq!(member(&item, "attributedTo").as_str(), Some("https://mithic.test/users/alice"));
    assert_eq!(member(&item, "content").as_str(), Some("hello"));
    assert_eq!(member(&item, "id").as_str(), Some(format!("https://mithic.test/notes/{}", ulid_to_string(4)).as_str()));
    let c = featured_collection("https://mithic.test/users/alice", vec![item]);
    assert_eq!(member(&c, "id").as_str(), Some("https://mithic.test/users/alice/collections/featured"));
    assert_eq!(member(&c, "totalItems").as_i64(), Some(1));
    assert_eq!(member(&c, "type").as_str(), Some("OrderedCollection"));
    let empty = featured_collection("https://m/users/b", vec![]);
    assert_eq!(member(&empty, "totalItems").as_i64(), Some(0));
}

#[test]
fn announces_become_renotes() {
    let n = announce_note(9, Timestamp { secs: 5, nanos: 0 }, 3, "https://r.example/activities/1", "https://x.example/notes/7".to_string());
    assert_eq!((n.id, n.actor_id, n.text.clone()), (9, 3, None));
    assert_eq!(n.uri.as_deref(), Some("https://r.example/activities/1"));
    assert_eq!(n.renote_uri.as_deref(), Some("https://x.example/notes/7"));
    assert_eq!(n.visibility, NoteVisibility::Public);
    assert_eq!(like_emoji(), "⭐");
}

fn ulid_to_string(id: u128) -> String {
    ulid::Ulid(id).to_string()
}
