use mithic::models::NoteVisibility;
use mithic::api::notifications::NotificationType;
use mithic::json::Json;
use mithic::services::note::{
    created_note, delivers_to_followers, follower_create_activity, mention_lookup_name, mention_notification, notifies_mention,
    poll_request, stream_channel, CreateNoteOptions, CreatePollOptions,
};
use mithic::time::Timestamp;

#[test]
fn test_create_note_options() {
    let options = CreateNoteOptions {
        text: Some("Hello world".to_string()),
        cw: None,
        reply_id: None,
        renote_id: None,
        visibility: NoteVisibility::Public,
        visible_user_ids: Vec::new(),
        file_ids: Vec::new(),
        poll: None,
    };

    assert_eq!(options.text, Some("Hello world".to_string()));
}

#[test]
fn only_public_and_home_notes_are_delivered() {
    assert!(delivers_to_followers(NoteVisibility::Public));
    assert!(delivers_to_followers(NoteVisibility::Home));
    assert!(!delivers_to_followers(NoteVisibility::Followers));
    assert!(!delivers_to_followers(NoteVisibility::Specified));
}

#[test]
fn notes_are_published_on_their_timeline() {
    assert_eq!(stream_channel(NoteVisibility::Public), Some("timeline:public".to_string()));
    assert_eq!(stream_channel(NoteVisibility::Home), Some("timeline:home".to_string()));
    assert_eq!(stream_channel(NoteVisibility::Followers), None);
}

#[test]
fn authors_are_not_notified_of_their_own_mentions() {
    assert!(notifies_mention(1, 2));
    assert!(!notifies_mention(3, 3));
}

#[test]
fn poll_options_become_a_request() {
    let o = CreatePollOptions { choices: vec!["yes".to_string(), "no".to_string()], expires_in: Some(30), multiple: true };
    let r = poll_request(&o);
    assert_eq!(r.choices, o.choices);
    assert_eq!(r.expires_in, Some(30));
    assert_eq!(r.multiple, Some(true));
}

fn field<'a>(j: &'a Json, key: &str) -> &'a Json {
    match j {
        Json::Object(entries) => &entries.iter().find(|(k, _)| k == key).unwrap().1,
        _ => panic!("not an object"),
    }
}

fn text(j: &Json) -> &str {
    match j {
        Json::Str(s) => s,
        _ => panic!("not a string"),
    }
}

#[test]
fn created_notes_and_their_delivery() {
    let options = CreateNoteOptions {
        text: Some("hi #rust".to_string()),
        cw: Some("cw".to_string()),
        reply_id: Some(7),
        renote_id: None,
        visibility: NoteVisibility::Home,
        visible_user_ids: vec![3],
        file_ids: vec!["f".to_string()],
        poll: Some(CreatePollOptions { choices: vec!["a".to_string()], expires_in: None, multiple: false }),
    };
    let id = ulid::Ulid::from_parts(100, 1);
    let author = ulid::Ulid::from_parts(50, 2);
    let now = Timestamp { secs: 1_700_000_000, nanos: 0 };
    let n = created_note(id.0, now, author.0, options, "https://m.example", vec!["rust".to_string()], vec![], 2);
    assert_eq!(n.uri, Some(format!("https://m.example/notes/{}", id)));
    assert_eq!(n.mentions, vec![author.0, author.0]);
    assert_eq!(n.tags, vec!["rust".to_string()]);
    assert!(n.has_poll);
    assert_eq!((n.reply_id, n.renote_count, n.replies_count, n.reactions.len()), (Some(7), 0, 0, 0));

    let a = follower_create_activity(&n, "https://m.example");
    assert_eq!(text(field(&a, "@context")), "https://www.w3.org/ns/activitystreams");
    assert_eq!(text(field(&a, "id")), format!("https://m.example/notes/{}/activity", id));
    assert_eq!(text(field(&a, "actor")), format!("https://m.example/users/{}", author));
    assert_eq!(text(field(&a, "published")), "2023-11-14T22:13:20+00:00");
    let o = field(&a, "object");
    assert_eq!(text(field(o, "content")), "hi #rust");
    assert_eq!(text(field(o, "attributedTo")), format!("https://m.example/users/{}", author));
    match field(o, "to") {
        Json::Array(v) => assert_eq!(text(&v[0]), "https://www.w3.org/ns/activitystreams#Public"),
        _ => panic!("to is not an array"),
    }
}

#[test]
fn mention_notifications() {
    let now = Timestamp { secs: 10, nanos: 0 };
    assert!(mention_notification(1, now, 5, 5, 9).is_none());
    let n = mention_notification(1, now, 6, 5, 9).unwrap();
    assert_eq!((n.recipient_id, n.sender_id, n.note_id, n.is_read), (6, Some(5), Some(9), false));
    assert_eq!(n.notification_type, NotificationType::Mention);
    assert_eq!(mention_lookup_name("Alice", ""), Some("alice".to_string()));
    assert_eq!(mention_lookup_name("Alice", "remote.example"), None);
}
