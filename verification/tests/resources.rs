use mithic::api::admin::{
    admin_password_hash, check_admin_username_free, hash_failure, parse_admin_user_id,
    delayed_host, delayed_inbox_host, drive_files_query, emoji_update_query, file_lookup, meta_update_query, nodeinfo_url,
    parse_emoji_id, remote_profile, row_int, software_name, stored_uri, FileLookup, ShowDriveFileRequest, UpdateEmojiRequest as AdminEmojiChange,
    UpdateMetaRequest,
};
use mithic::json::Json;
use mithic::activitypub::notes::make_note_url;
use mithic::services::auth::token_cache_key;
use mithic::services::bookmark::check_not_bookmarked;
use mithic::services::follow_request::check_request_exists;
use mithic::services::relay::check_new_relay;
use mithic::services::web_push::{follow_push_body, mention_push_body, push_send_error, reaction_push_body, removes_subscription, PushSendFailure};
use mithic::services::instance::{config_update_query, default_instance_config, RegistrationMode, UpdateInstanceConfigRequest};
use mithic::services::chart::active_since;
use mithic::api::push::{registered_subscription, test_notification_parts, unregister_query, vapid_key_answer, PushKeys, PushSubscription, PushSubscriptionRequest};
use mithic::api::notifications::{note_ids, notification_page_limit, sender_ids, Notification, NotificationType};
use mithic::api::timeline::{list_page_bounds, timeline_limit, TimelineQuery};
use mithic::services::timeline::{cache_read_stop, home_cache_push, home_timeline_key, public_cache_push};
use mithic::api::drive::{drive_usage, find_files_query, required_md5, DriveUsage, FindFilesQuery};
use mithic::api::stream::{frame_action, streaming_channels, FrameAction, FrameKind};
use mithic::api::oauth::{access_token_text, check_app_secret, client_credentials, split_whitespace, token_response, token_scopes, OAuthApp};
use mithic::api::users::{check_account_password, import_list_names, import_user_ids, password_check};
use mithic::api::blocks::{block_target, is_mute_active, is_mute_lapsed, mute_expiry, mute_target, owned_block, owned_mute, Block, Mute};
use mithic::api::checks::{check_owner, found, parse_id};
use mithic::api::instance::{federated_instances_query, limit_param, parse_usize, required_host, FederatedInstancesQuery};
use mithic::api::clips::{check_clip_name, check_clip_rename, check_not_clipped, owned_clip, visible_clip, Clip};
use mithic::api::user_lists::{check_list_name, check_not_listed, owned_list, UserList};
use mithic::error::{AppError, ErrorKind};
use mithic::services::emoji::{
    apply_emoji_update, copy_of_emoji, emoji_category_name, found_emoji, new_emoji, parse_emoji_category, remote_emojis_query,
    CreateEmojiRequest, Emoji, EmojiCategory, EmojiSource, UpdateEmojiRequest,
};
use mithic::time::Timestamp;

fn t(secs: i64) -> Timestamp {
    Timestamp { secs, nanos: 0 }
}

fn validation(r: Result<(), AppError>) -> String {
    match r {
        Err(AppError::Validation(m)) => m,
        other => panic!("expected a validation error, got {:?}", other),
    }
}

fn clip(owner: u128, public: bool) -> Clip {
    Clip { id: 1, user_id: owner, name: "c".to_string(), is_public: public, description: None, created_at: t(0), updated_at: None }
}

fn emoji() -> Emoji {
    Emoji {
        id: 3,
        name: "blob".to_string(),
        category: EmojiCategory::People,
        aliases: vec!["b".to_string()],
        url: "https://x/blob.png".to_string(),
        file_id: 9,
        width: Some(32),
        height: Some(32),
        is_public: false,
        created_at: t(10),
        updated_at: None,
    }
}

#[test]
fn clip_names_are_checked() {
    assert!(check_clip_name("reading").is_ok());
    assert_eq!(validation(check_clip_name("")), "Clip name cannot be empty");
    assert!(check_clip_name(&"a".repeat(100)).is_ok());
    assert_eq!(validation(check_clip_name(&"a".repeat(101))), "Clip name too long (max 100 chars)");
    // 34 three-byte characters are 102 bytes
    assert_eq!(validation(check_clip_name(&"あ".repeat(34))), "Clip name too long (max 100 chars)");
    assert!(check_clip_name(&"あ".repeat(33)).is_ok());
    assert!(check_clip_rename(&None).is_ok());
    assert_eq!(validation(check_clip_rename(&Some(String::new()))), "Clip name cannot be empty");
}

#[test]
fn clip_access_follows_owner_and_visibility() {
    assert!(visible_clip(Some(clip(7, false)), 7).is_ok());
    assert!(visible_clip(Some(clip(7, true)), 8).is_ok());
    assert!(matches!(visible_clip(Some(clip(7, false)), 8), Err(AppError::Forbidden(m)) if m == "You don't have access to this clip"));
    assert!(matches!(visible_clip(None, 8), Err(AppError::NotFound(m)) if m == "Clip not found"));
    assert!(matches!(owned_clip(Some(clip(7, true)), 8), Err(AppError::Forbidden(m)) if m == "You don't own this clip"));
    assert_eq!(owned_clip(Some(clip(7, true)), 7).unwrap().user_id, 7);
    assert!(check_not_clipped(false).is_ok());
    assert!(matches!(check_not_clipped(true), Err(AppError::Conflict(m)) if m == "Note is already in this clip"));
}

#[test]
fn list_rules() {
    assert_eq!(validation(check_list_name("")), "List name cannot be empty");
    assert!(check_list_name("friends").is_ok());
    let l = UserList { id: 1, user_id: 4, name: "f".to_string(), created_at: t(0), updated_at: None };
    assert!(owned_list(Some(l.clone()), 4).is_ok());
    assert!(matches!(owned_list(Some(l), 5), Err(AppError::Forbidden(m)) if m == "You don't own this list"));
    assert!(matches!(owned_list(None, 5), Err(AppError::NotFound(m)) if m == "List not found"));
    assert!(matches!(check_not_listed(true), Err(AppError::Conflict(m)) if m == "User is already in this list"));
}

#[test]
fn shared_checks() {
    let id = ulid::Ulid::from_parts(1, 2);
    assert_eq!(parse_id(&id.to_string(), ErrorKind::Validation, "Invalid clip ID").unwrap(), id.0);
    assert!(matches!(parse_id("nope", ErrorKind::Validation, "Invalid clip ID"), Err(AppError::Validation(m)) if m == "Invalid clip ID"));
    assert_eq!(found(Some(3u8), "x").unwrap(), 3);
    assert!(matches!(found::<u8>(None, "Gone"), Err(AppError::NotFound(m)) if m == "Gone"));
    assert!(check_owner(1, 1, "no").is_ok());
    assert!(matches!(check_owner(1, 2, "no"), Err(AppError::Forbidden(m)) if m == "no"));
}

#[test]
fn block_and_mute_targets() {
    assert_eq!(block_target(1, Some(2), false).unwrap(), 2);
    assert!(matches!(block_target(1, None, false), Err(AppError::NotFound(m)) if m == "User not found"));
    assert!(matches!(block_target(1, Some(1), false), Err(AppError::Validation(m)) if m == "Cannot block yourself"));
    assert!(matches!(block_target(1, Some(2), true), Err(AppError::Validation(m)) if m == "Already blocked"));
    assert!(matches!(mute_target(1, Some(1), true), Err(AppError::Validation(m)) if m == "Cannot mute yourself"));
    assert!(matches!(mute_target(1, Some(2), true), Err(AppError::Validation(m)) if m == "Already muted"));
    let b = Block { id: 1, blocker_id: 4, blockee_id: 5, created_at: t(0) };
    assert!(owned_block(Some(b.clone()), 4).is_ok());
    assert!(matches!(owned_block(Some(b), 5), Err(AppError::Forbidden(m)) if m == "Not authorized"));
    assert!(matches!(owned_block(None, 5), Err(AppError::NotFound(m)) if m == "Block not found"));
    assert!(matches!(owned_mute(None, 5), Err(AppError::NotFound(m)) if m == "Mute not found"));
}

#[test]
fn mutes_lapse_at_their_end() {
    let now = Timestamp { secs: 1000, nanos: 5 };
    assert_eq!(mute_expiry(now, Some(60)), Some(Timestamp { secs: 1060, nanos: 5 }));
    assert_eq!(mute_expiry(now, None), None);
    let m = Mute { id: 1, muter_id: 1, mutee_id: 2, created_at: t(0), expires_at: Some(t(1000)) };
    assert!(is_mute_active(&m, t(1000)));
    assert!(!is_mute_lapsed(&m, t(1000)));
    assert!(!is_mute_active(&m, now));
    assert!(is_mute_lapsed(&m, now));
    let forever = Mute { expires_at: None, ..m };
    assert!(is_mute_active(&forever, t(i64::MAX / 2)));
    assert!(!is_mute_lapsed(&forever, t(i64::MAX / 2)));
}

#[test]
fn emoji_categories_round_trip() {
    for c in [
        EmojiCategory::General,
        EmojiCategory::Activities,
        EmojiCategory::Animals,
        EmojiCategory::Flags,
        EmojiCategory::Food,
        EmojiCategory::Objects,
        EmojiCategory::People,
        EmojiCategory::Nature,
        EmojiCategory::Symbols,
        EmojiCategory::Uncategorized,
    ] {
        assert_eq!(parse_emoji_category(&emoji_category_name(c)), c);
    }
    assert_eq!(emoji_category_name(EmojiCategory::Food), "food");
    assert_eq!(parse_emoji_category("Food"), EmojiCategory::Uncategorized);
    assert_eq!(parse_emoji_category("whatever"), EmojiCategory::Uncategorized);
}

#[test]
fn emoji_creation_and_changes() {
    let req = CreateEmojiRequest {
        name: "blob".to_string(),
        category: EmojiCategory::People,
        aliases: vec![],
        file_id: 9,
        is_public: true,
    };
    assert!(matches!(new_emoji(1, t(5), req.clone(), None), Err(AppError::NotFound(m)) if m == "File not found"));
    let no_url = EmojiSource { url: None, width: None, height: None };
    assert!(matches!(new_emoji(1, t(5), req.clone(), Some(no_url)), Err(AppError::BadRequest(m)) if m == "File has no URL"));
    let src = EmojiSource { url: Some("https://x/b.png".to_string()), width: Some(16), height: Some(20) };
    let e = new_emoji(1, t(5), req, Some(src)).unwrap();
    assert_eq!((e.id, e.url.as_str(), e.width, e.height, e.file_id, e.is_public), (1, "https://x/b.png", Some(16), Some(20), 9, true));
    assert_eq!(e.updated_at, None);

    let u = apply_emoji_update(emoji(), UpdateEmojiRequest { name: Some("blobcat".to_string()), category: None, aliases: None, is_public: Some(true) }, t(20));
    assert_eq!((u.name.as_str(), u.category, u.aliases.len(), u.is_public, u.updated_at), ("blobcat", EmojiCategory::People, 1, true, Some(t(20))));
    let same = apply_emoji_update(emoji(), UpdateEmojiRequest { name: None, category: None, aliases: None, is_public: None }, t(20));
    assert_eq!((same.name.as_str(), same.is_public, same.created_at), ("blob", false, t(10)));

    let c = copy_of_emoji(&emoji(), 44, t(30));
    assert_eq!((c.id, c.name.as_str(), c.aliases.len(), c.is_public, c.created_at, c.updated_at), (44, "blob", 0, true, t(30), None));
    assert_eq!(found_emoji(None).err().map(|e| matches!(e, AppError::NotFound(m) if m == "Emoji not found")), Some(true));
    assert_eq!(remote_emojis_query(&Some("a.b".to_string())), "SELECT * FROM emoji WHERE host = $host ORDER BY name ASC LIMIT $limit");
    assert_eq!(remote_emojis_query(&None), "SELECT * FROM emoji WHERE host IS NOT NULL ORDER BY name ASC LIMIT $limit");
}

fn instances_query() -> FederatedInstancesQuery {
    FederatedInstancesQuery { limit: None, offset: None, host: None, blocked: None, suspended: None, not_responding: None, sort: None }
}

#[test]
fn federated_instance_listing_query() {
    let p = federated_instances_query(&instances_query());
    assert_eq!(p.text, "SELECT * FROM federated_instance LIMIT $limit START $offsetORDER BY last_retrieved_at DESC");
    assert_eq!((p.limit, p.offset, p.host), (50, 0, None));
    let q = FederatedInstancesQuery {
        limit: Some(5),
        offset: Some(10),
        host: Some("example".to_string()),
        blocked: Some(true),
        suspended: None,
        not_responding: Some(false),
        sort: Some("host".to_string()),
    };
    let p = federated_instances_query(&q);
    assert_eq!(
        p.text,
        "SELECT * FROM federated_instance LIMIT $limit START $offset AND host ~ $host AND is_blocked = true AND is_not_responding = falseORDER BY host ASC"
    );
    assert_eq!((p.limit, p.offset, p.host.as_deref()), (5, 10, Some("example")));
    let first = FederatedInstancesQuery { sort: Some("first_retrieved_at".to_string()), ..instances_query() };
    assert!(federated_instances_query(&first).text.ends_with("ORDER BY first_retrieved_at DESC"));
    let other = FederatedInstancesQuery { sort: Some("name".to_string()), ..instances_query() };
    assert!(federated_instances_query(&other).text.ends_with("ORDER BY last_retrieved_at DESC"));
}

#[test]
fn host_lookups_read_their_parameters() {
    assert!(matches!(required_host(None), Err(AppError::Validation(m)) if m == "Host parameter required"));
    assert_eq!(required_host(Some("a.b".to_string())).unwrap(), "a.b");
    assert_eq!(limit_param(None, 50), 50);
    assert_eq!(limit_param(Some("x"), 50), 50);
    assert_eq!(limit_param(Some("10"), 50), 10);
    assert_eq!(limit_param(Some("-3"), 20), 20);
    for s in ["0", "42", "+7", "+", "", "-1", "1a", " 1", "007", "18446744073709551615", "18446744073709551616", "99999999999999999999999"] {
        assert_eq!(parse_usize(s), s.parse::<usize>().ok(), "{}", s);
    }
}

fn obj(entries: Vec<(&str, Json)>) -> Json {
    Json::Object(entries.into_iter().map(|(k, v)| (k.to_string(), v)).collect())
}

fn meta_request() -> UpdateMetaRequest {
    UpdateMetaRequest {
        name: None,
        description: None,
        banner_url: None,
        icon_url: None,
        maintainer_name: None,
        maintainer_email: None,
        langs: None,
        tos_url: None,
        repository_url: None,
        feedback_url: None,
        disable_registration: None,
        disable_local_timeline: None,
        disable_global_timeline: None,
        enable_email: None,
    }
}

#[test]
fn admin_meta_and_emoji_statements() {
    assert_eq!(meta_update_query(&meta_request()), None);
    let req = UpdateMetaRequest {
        name: Some("Mithic's".to_string()),
        icon_url: Some("https://i".to_string()),
        disable_registration: Some(true),
        maintainer_name: Some("ignored".to_string()),
        ..meta_request()
    };
    assert_eq!(
        meta_update_query(&req).unwrap(),
        "UPDATE instance_config SET name = 'Mithic''s', icon_url = 'https://i', disable_registration = true"
    );
    let id = ulid::Ulid::from_parts(5, 6);
    let none = AdminEmojiChange { name: None, category: None, aliases: Some(vec!["x".to_string()]) };
    assert_eq!(emoji_update_query(id.0, &none), None);
    let change = AdminEmojiChange { name: Some("a".to_string()), category: Some("b'c".to_string()), aliases: None };
    assert_eq!(emoji_update_query(id.0, &change).unwrap(), format!("UPDATE emoji:{} SET name = 'a', category = 'b''c'", id));
    assert_eq!(parse_emoji_id(&id.to_string()).unwrap(), id.0);
    assert!(matches!(parse_emoji_id("x"), Err(AppError::BadRequest(m)) if m == "Invalid emoji ID"));
}

#[test]
fn admin_queue_and_federation_helpers() {
    assert_eq!(delayed_host("federation:queue:deliver:example.com"), "example.com");
    assert_eq!(delayed_inbox_host("federation:queue:inbox:a.b"), "a.b");
    assert_eq!(delayed_host("other"), "other");
    assert_eq!(nodeinfo_url("example.com"), "https://example.com/.well-known/nodeinfo");
    let ni = obj(vec![("software", obj(vec![("name", Json::Str("mastodon".to_string()))]))]);
    assert_eq!(software_name(&ni), "mastodon");
    assert_eq!(software_name(&obj(vec![])), "unknown");
    assert_eq!(drive_files_query(&None), "SELECT * FROM drive_file LIMIT $limit START $offset");
    assert_eq!(drive_files_query(&Some("u".to_string())), "SELECT * FROM drive_file WHERE owner_id = $user_id LIMIT $limit START $offset");
    assert_eq!(row_int(&Some(obj(vec![("count", Json::Int(12))])), "count"), 12);
    assert_eq!(row_int(&Some(obj(vec![("count", Json::Str("12".to_string()))])), "count"), 0);
    assert_eq!(row_int(&None, "count"), 0);
    assert_eq!(stored_uri(&obj(vec![("uri", Json::Str("https://r/u".to_string()))])), "https://r/u");
    assert_eq!(stored_uri(&obj(vec![])), "");
    let (name, bio) = remote_profile(&obj(vec![("name", Json::Str("N".to_string())), ("summary", Json::Null)]));
    assert_eq!((name.as_deref(), bio), (Some("N"), None));
}

#[test]
fn admin_file_lookup() {
    let id = ulid::Ulid::from_parts(7, 8);
    let by_id = ShowDriveFileRequest { file_id: Some(id.to_string()), url: Some("u".to_string()) };
    assert!(matches!(file_lookup(&by_id), Ok(FileLookup::ById(i)) if i == id.0));
    let bad = ShowDriveFileRequest { file_id: Some("??".to_string()), url: None };
    assert!(matches!(file_lookup(&bad), Err(AppError::BadRequest(m)) if m == "Invalid file ID"));
    let by_url = ShowDriveFileRequest { file_id: None, url: Some("https://f".to_string()) };
    assert!(matches!(file_lookup(&by_url), Ok(FileLookup::ByUrl(u)) if u == "https://f"));
    let neither = ShowDriveFileRequest { file_id: None, url: None };
    assert!(matches!(file_lookup(&neither), Err(AppError::BadRequest(m)) if m == "file_id or url is required"));
}

#[test]
fn deletion_password_checks() {
    let h = bcrypt::hash("secret", 4).unwrap();
    assert!(check_account_password(&Some(h.clone()), "secret").is_ok());
    assert!(matches!(check_account_password(&Some(h), "wrong"), Err(AppError::Forbidden(m)) if m == "Incorrect password"));
    assert!(matches!(check_account_password(&None, "secret"), Err(AppError::Internal(m)) if m == "No password set"));
    assert!(matches!(check_account_password(&Some("$argon2id$x".to_string()), "secret"), Err(AppError::Internal(m)) if m == "Password verification failed"));
    assert!(password_check(true, Some(true)).is_ok());
    assert!(matches!(password_check(true, None), Err(AppError::Internal(m)) if m == "Password verification failed"));
    assert!(matches!(password_check(false, Some(true)), Err(AppError::Internal(m)) if m == "No password set"));
}

#[test]
fn imports_read_their_bodies() {
    let req = obj(vec![("user_ids", Json::Array(vec![Json::Str("a".to_string()), Json::Int(1), Json::Str("b".to_string())]))]);
    assert_eq!(import_user_ids(&req).unwrap(), vec!["a".to_string(), "b".to_string()]);
    let none = obj(vec![("user_ids", Json::Array(vec![Json::Int(1)]))]);
    assert!(matches!(import_user_ids(&none), Err(AppError::Validation(m)) if m == "No user IDs provided"));
    assert!(matches!(import_user_ids(&obj(vec![])), Err(AppError::Validation(m)) if m == "No user IDs provided"));
    let lists = obj(vec![("lists", Json::Array(vec![obj(vec![("name", Json::Str("Friends".to_string()))]), obj(vec![]), Json::Null]))]);
    assert_eq!(import_list_names(&lists).unwrap(), vec!["Friends".to_string(), "Untitled".to_string(), "Untitled".to_string()]);
    assert!(matches!(import_list_names(&obj(vec![("lists", Json::Array(vec![]))])), Err(AppError::Validation(m)) if m == "No lists provided"));
    assert!(matches!(import_list_names(&obj(vec![("lists", Json::Null)])), Err(AppError::Validation(m)) if m == "No lists provided"));
}

#[test]
fn whitespace_split_matches_std() {
    for t in ["", "   ", "read", " read  write\tfollow\n", "a\u{3000}b\u{85}c\u{a0}d", "x\u{200b}y", "\u{2028}z\u{205f}"] {
        let ours = split_whitespace(t);
        let std: Vec<String> = t.split_whitespace().map(String::from).collect();
        assert_eq!(ours, std, "{:?}", t);
    }
}

#[test]
fn oauth_credentials_and_tokens() {
    let req = obj(vec![("client_id", Json::Str("cid".to_string())), ("client_secret", Json::Str("sec".to_string()))]);
    assert_eq!(client_credentials(&req).unwrap(), ("cid".to_string(), "sec".to_string()));
    assert!(matches!(client_credentials(&obj(vec![])), Err(AppError::BadRequest(m)) if m == "Missing client_id"));
    let no_secret = obj(vec![("client_id", Json::Str("cid".to_string()))]);
    assert!(matches!(client_credentials(&no_secret), Err(AppError::BadRequest(m)) if m == "Missing client_secret"));
    let app = OAuthApp { id: 1, name: "a".to_string(), client_id: "cid".to_string(), client_secret: "sec".to_string() };
    assert_eq!(check_app_secret(Some(app.clone()), "sec").unwrap().id, 1);
    assert!(matches!(check_app_secret(Some(app), "bad"), Err(AppError::Unauthorized(m)) if m == "Invalid credentials"));
    assert!(matches!(check_app_secret(None, "sec"), Err(AppError::NotFound(m)) if m == "App not found"));
    assert_eq!(token_scopes(&obj(vec![])), vec!["read".to_string(), "write".to_string()]);
    assert_eq!(token_scopes(&obj(vec![("scope", Json::Str(" read  follow ".to_string()))])), vec!["read".to_string(), "follow".to_string()]);
    let a = ulid::Ulid::from_parts(1, 1);
    let b = ulid::Ulid::from_parts(2, 2);
    assert_eq!(access_token_text(a.0, b.0), format!("{}_{}", a, b));
    let r = token_response("tok".to_string(), &vec!["read".to_string(), "write".to_string()], t(1234));
    assert_eq!((r.access_token.as_str(), r.token_type.as_str(), r.scope.as_str(), r.created_at), ("tok", "Bearer", "read write", 1234));
}

#[test]
fn stream_frames_and_channels() {
    assert_eq!(frame_action(FrameKind::Text, true), FrameAction::Dispatch);
    assert_eq!(frame_action(FrameKind::Text, false), FrameAction::Skip);
    assert_eq!(frame_action(FrameKind::Close, true), FrameAction::Stop);
    assert_eq!(frame_action(FrameKind::Error, false), FrameAction::Stop);
    assert_eq!(frame_action(FrameKind::Ping, false), FrameAction::Skip);
    assert_eq!(frame_action(FrameKind::Binary, true), FrameAction::Skip);
    let expected = r#"{
        "channels": [
            "homeTimeline",
            "globalTimeline",
            "hashtag",
            "main",
            "admin",
            "queueStats",
            "serverStats"
        ]
    }"#;
    assert_eq!(streaming_channels(), expected);
    let v: serde_json::Value = serde_json::from_str(streaming_channels()).unwrap();
    assert_eq!(v["channels"].as_array().unwrap().len(), 7);
}

#[test]
fn drive_search_and_usage() {
    let q = FindFilesQuery { name: None, folder_id: None, mime_type: None, limit: None, offset: None };
    assert_eq!(
        find_files_query(&q),
        ("SELECT * FROM drive_file WHERE owner_id = $owner_id ORDER BY created_at DESC LIMIT $limit START $offset".to_string(), 10, 0)
    );
    let q = FindFilesQuery {
        name: Some("a".to_string()),
        folder_id: None,
        mime_type: Some("image/png".to_string()),
        limit: Some(1000),
        offset: Some(5),
    };
    assert_eq!(
        find_files_query(&q),
        (
            "SELECT * FROM drive_file WHERE owner_id = $owner_id AND name = $name AND mime_type = $mime_type ORDER BY created_at DESC LIMIT $limit START $offset"
                .to_string(),
            100,
            5
        )
    );
    assert_eq!(
        drive_usage(&Some(obj(vec![("total_size", Json::Int(2048))])), Some(3)),
        DriveUsage { usage: 2048, capacity: 10 * 1024 * 1024 * 1024, file_count: 3 }
    );
    assert_eq!(drive_usage(&None, None), DriveUsage { usage: 0, capacity: 10737418240, file_count: 0 });
    assert!(matches!(required_md5(None), Err(AppError::Validation(m)) if m == "md5 parameter required"));
    assert_eq!(required_md5(Some("abc".to_string())).unwrap(), "abc");
}

#[test]
fn timeline_pages_and_cache() {
    let q = TimelineQuery { max_id: None, since_id: None, min_id: None, limit: None };
    assert_eq!(timeline_limit(&q), 20);
    assert_eq!(timeline_limit(&TimelineQuery { limit: Some(100), ..q }), 40);
    let id = ulid::Ulid::from_parts(3, 4);
    let q = TimelineQuery { max_id: Some("bad".to_string()), since_id: Some(id.to_string()), min_id: None, limit: Some(5) };
    assert_eq!(timeline_limit(&q), 5);
    assert_eq!(list_page_bounds(&q), (Some(id.0), None));
    assert_eq!(home_timeline_key("01ABC"), "timeline:home:01ABC");
    let h = home_cache_push("u");
    assert_eq!((h.key.as_str(), h.trim_stop, h.ttl_secs), ("timeline:home:u", 199, 3600));
    let p = public_cache_push();
    assert_eq!((p.key.as_str(), p.trim_stop, p.ttl_secs), ("timeline:public", 499, 3600));
    assert_eq!(cache_read_stop(20), 19);
}

fn notif(id: u128, sender: Option<u128>, note: Option<u128>) -> Notification {
    Notification {
        id,
        created_at: t(0),
        notification_type: NotificationType::Mention,
        recipient_id: 1,
        sender_id: sender,
        note_id: note,
        reaction: None,
        is_read: false,
    }
}

#[test]
fn notification_page_ids() {
    let page = vec![notif(1, Some(10), None), notif(2, None, Some(20)), notif(3, Some(11), Some(21))];
    assert_eq!(sender_ids(&page), vec![10, 11]);
    assert_eq!(note_ids(&page), vec![20, 21]);
    assert!(sender_ids(&vec![]).is_empty());
    assert_eq!(notification_page_limit(None), 20);
    assert_eq!(notification_page_limit(Some(500)), 100);
    assert_eq!(notification_page_limit(Some(7)), 7);
}

#[test]
fn push_registration_rules() {
    assert_eq!(vapid_key_answer(Some("BPk".to_string())).unwrap(), "BPk");
    assert!(matches!(vapid_key_answer(None), Err(AppError::NotFound(m)) if m == "Push notifications not configured"));
    let req = || PushSubscriptionRequest {
        endpoint: "https://push/2".to_string(),
        keys: PushKeys { p256dh: "p".to_string(), auth: "a".to_string() },
    };
    let old = PushSubscription { endpoint: "https://push/1".to_string(), p256dh: "x".to_string(), auth: "y".to_string(), created_at: t(5) };
    let kept = registered_subscription(Some(old), req(), t(9));
    assert_eq!((kept.endpoint.as_str(), kept.p256dh.as_str(), kept.auth.as_str(), kept.created_at), ("https://push/1", "p", "a", t(5)));
    let fresh = registered_subscription(None, req(), t(9));
    assert_eq!((fresh.endpoint.as_str(), fresh.created_at), ("https://push/2", t(9)));
    assert_eq!(unregister_query(true), "DELETE push_subscription WHERE user_id = $user_id AND endpoint = $endpoint");
    assert_eq!(unregister_query(false), "DELETE push_subscription WHERE user_id = $user_id");
    assert_eq!(test_notification_parts(None, "https://m.x"), ("Someone".to_string(), "https://m.x/notifications".to_string()));
    assert_eq!(test_notification_parts(Some("alice".to_string()), "https://m.x").0, "alice");
}

fn config_change() -> UpdateInstanceConfigRequest {
    UpdateInstanceConfigRequest {
        registration_mode: None,
        maintenance_mode: None,
        name: None,
        description: None,
        max_file_size: None,
        max_note_length: None,
        email_verification_required: None,
        captcha_enabled: None,
    }
}

#[test]
fn instance_settings() {
    let id = ulid::Ulid::from_parts(9, 9);
    let c = default_instance_config(id.0, t(100));
    assert_eq!((c.name.as_str(), c.description.as_deref(), c.max_file_size, c.max_note_length), ("Mithic Instance", Some("Welcome to Mithic"), 100 * 1024 * 1024, 5000));
    assert_eq!(c.registration_mode, RegistrationMode::Open);
    assert_eq!(config_update_query(id.0, &config_change()), None);
    let change = UpdateInstanceConfigRequest {
        registration_mode: Some(RegistrationMode::Invite),
        maintenance_mode: Some(true),
        name: Some("It's".to_string()),
        max_note_length: Some(-1),
        captcha_enabled: Some(false),
        ..config_change()
    };
    assert_eq!(
        config_update_query(id.0, &change).unwrap(),
        format!(
            "UPDATE instance_config:{} SET registration_mode = 'invite', maintenance_mode = true, name = 'It''s', max_note_length = -1, captcha_enabled = false, updated_at = time::now()",
            id
        )
    );
    assert_eq!(active_since(Timestamp { secs: 3_000_000, nanos: 4 }), Timestamp { secs: 3_000_000 - 2_592_000, nanos: 4 });
}

#[test]
fn web_push_bodies_and_failures() {
    let m = mention_push_body("1".to_string(), "alice", "https://m/notes/1");
    assert_eq!((m.title.as_str(), m.body.as_str(), m.url.as_deref()), ("alice mentioned you", "You were mentioned in a note", Some("https://m/notes/1")));
    let f = follow_push_body("2".to_string(), "bob", "https://m/users/b");
    assert_eq!((f.title.as_str(), f.body.as_str()), ("bob followed you", "You have a new follower"));
    let r = reaction_push_body("3".to_string(), "carol", "👍", "https://m/notes/3");
    assert_eq!((r.title.as_str(), r.body.as_str()), ("carol reacted 👍", "Someone reacted to your note"));
    let invalid = push_send_error(PushSendFailure::InvalidEndpoint, "");
    assert!(removes_subscription(&invalid));
    let other = push_send_error(PushSendFailure::Other, "timeout");
    assert!(matches!(&other, AppError::Internal(m) if m == "Push notification failed: timeout"));
    assert!(!removes_subscription(&other));
    assert!(removes_subscription(&push_send_error(PushSendFailure::Other, "Invalid endpoint given")));
    let off = push_send_error(PushSendFailure::NotConfigured, "x");
    assert!(matches!(&off, AppError::Internal(m) if m == "Push notifications not configured"));
    assert!(!removes_subscription(&off));
    assert!(!removes_subscription(&AppError::Validation("Invalid endpoint".to_string())));
    assert!(check_new_relay(false).is_ok());
    assert!(matches!(check_new_relay(true), Err(AppError::Conflict(m)) if m == "Relay already exists"));
}

#[test]
fn service_checks_and_keys() {
    assert_eq!(token_cache_key("abc"), "token:abc");
    assert!(check_not_bookmarked(false).is_ok());
    assert!(matches!(check_not_bookmarked(true), Err(AppError::BadRequest(m)) if m == "Note already bookmarked"));
    assert!(check_request_exists(true).is_ok());
    assert!(matches!(check_request_exists(false), Err(AppError::Validation(m)) if m == "Follow request not found"));
}

#[test]
fn admin_user_checks() {
    assert!(check_admin_username_free(false).is_ok());
    assert!(matches!(check_admin_username_free(true), Err(AppError::Conflict(m)) if m == "Username already taken"));
    assert!(matches!(hash_failure("salt"), AppError::Internal(m) if m == "Failed to hash password: salt"));
    let h = admin_password_hash("s3cret").unwrap();
    assert!(h.starts_with("$argon2id$v=19$"));
    assert_ne!(h, admin_password_hash("s3cret").unwrap());
    assert_eq!(mithic::api::auth::verify_password("s3cret", &h).unwrap(), true);
    assert_eq!(mithic::api::auth::verify_password("other", &h).unwrap(), false);
    assert!(matches!(parse_admin_user_id("zz"), Err(AppError::BadRequest(m)) if m == "Invalid user ID"));
    let id = ulid::Ulid::from_parts(4, 4);
    assert_eq!(parse_admin_user_id(&id.to_string()).unwrap(), id.0);
}

#[test]
fn ulid_text_and_parsing() {
    // the text of an id, as a note's URL carries it
    let text = |id: u128| make_note_url("", id)["/notes/".len()..].to_string();
    // an id read back, as an administrator's request names it
    let parse = |s: &str| parse_admin_user_id(s).ok();
    assert_eq!(text(0), "00000000000000000000000000");
    assert_eq!(text(0x41414141414141414141414141414141), "21850M2GA1850M2GA1850M2GA1");
    assert_eq!(text(u128::MAX), "7ZZZZZZZZZZZZZZZZZZZZZZZZZ");
    assert_eq!(parse("2d9rw50ma499cmaghm6dd42dtp"), Some(0x4d4e385051444a59454234335a413756));
    assert_eq!(parse("ZZZZZZZZZZZZZZZZZZZZZZZZZZ"), Some(u128::MAX));
    assert_eq!(parse("8ZZZZZZZZZZZZZZZZZZZZZZZZZ"), Some((1u128 << 125) - 1));
    assert_eq!(parse("2D9RW50MA499CMAGHM6DD42DTI"), None);
    assert_eq!(parse("2D9RW50MA499CMAGHM6DD42DT"), None);
    assert_eq!(parse("2D9RW50MA499CMAGHM6DD42DTé"), None);
    for id in [1u128, 31, 32, 1 << 100, u128::MAX / 3, 0x0123456789abcdef0123456789abcdef] {
        assert_eq!(parse(&text(id)), Some(id));
    }
}
