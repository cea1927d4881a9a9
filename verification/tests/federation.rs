use mithic::federation::{
    decide_retry, follow_answer, follow_answer_with_id, parse_delivery_task, queue_job_from_json, queue_record,
    queue_records, queue_stats, retry_record, sign_delivery, delivery_digest, unique_inboxes, FollowAnswer, RetryDecision, SignError,
    TaskError,
};
use mithic::json::Json;
use mithic::models::Actor;
use mithic::time::Timestamp;

const TEST_KEY: &str = "SECRET-REDACTED
";

fn actor(username: &str, private_key: Option<&str>) -> Actor {
    Actor {
        id: 1,
        created_at: Timestamp { secs: 0, nanos: 0 },
        updated_at: None,
        username: username.to_string(),
        username_lower: username.to_lowercase(),
        name: None,
        bio: None,
        followers_count: 0,
        following_count: 0,
        notes_count: 0,
        avatar_url: None,
        banner_url: None,
        is_suspended: false,
        is_locked: false,
        is_bot: false,
        is_admin: false,
        host: None,
        inbox: None,
        shared_inbox: None,
        featured: None,
        uri: None,
        public_key: None,
        private_key: private_key.map(|k| k.to_string()),
        token: None,
        password_hash: None,
        email: None,
    }
}

fn s(x: &str) -> Option<String> {
    Some(x.to_string())
}

fn obj(entries: Vec<(&str, Json)>) -> Json {
    Json::Object(entries.into_iter().map(|(k, v)| (k.to_string(), v)).collect())
}

fn jstr(x: &str) -> Json {
    Json::Str(x.to_string())
}

#[test]
fn shared_inboxes_are_delivered_once() {
    let followers = vec![
        (s("https://a.example/users/1/inbox"), s("https://a.example/inbox")),
        (s("https://a.example/users/2/inbox"), s("https://a.example/inbox")),
        (s("https://b.example/users/3/inbox"), None),
        (None, None),
        (s("https://b.example/users/3/inbox"), None),
    ];
    let inboxes = unique_inboxes(&followers);
    assert_eq!(inboxes, vec!["https://a.example/inbox".to_string(), "https://b.example/users/3/inbox".to_string()]);
}

#[test]
fn retries_back_off_by_a_minute_and_stop_after_five() {
    assert_eq!(decide_retry(0), RetryDecision::Retry { attempts: 1, delay_secs: 60 });
    assert_eq!(decide_retry(4), RetryDecision::Retry { attempts: 5, delay_secs: 300 });
    assert_eq!(decide_retry(5), RetryDecision::GiveUp);
    assert_eq!(decide_retry(-1), RetryDecision::Retry { attempts: 0, delay_secs: 0 });
}

#[test]
fn delivery_task_fields_are_checked_in_order() {
    assert_eq!(parse_delivery_task(&obj(vec![])).err(), Some(TaskError::MissingInboxUrl));
    assert_eq!(
        parse_delivery_task(&obj(vec![("inbox_url", jstr("https://x/inbox"))])).err(),
        Some(TaskError::MissingActivity)
    );
    assert_eq!(
        parse_delivery_task(&obj(vec![("inbox_url", jstr("https://x/inbox")), ("activity", obj(vec![]))])).err(),
        Some(TaskError::MissingActor)
    );
    let record = obj(vec![
        ("inbox_url", jstr("https://x/inbox")),
        ("activity", obj(vec![("actor", jstr("https://me/users/a"))])),
        ("attempts", Json::Int(3)),
    ]);
    let t = parse_delivery_task(&record).ok().unwrap();
    assert_eq!(t.inbox_url, "https://x/inbox");
    assert_eq!(t.actor_id, "https://me/users/a");
    assert_eq!(t.attempts, 3);
    let no_count = obj(vec![
        ("inbox_url", jstr("https://x/inbox")),
        ("activity", obj(vec![("actor", jstr("a"))])),
    ]);
    assert_eq!(parse_delivery_task(&no_count).ok().unwrap().attempts, 0);
}

fn keys(j: &Json) -> Vec<String> {
    match j {
        Json::Object(v) => v.iter().map(|(k, _)| k.clone()).collect(),
        _ => panic!("not an object"),
    }
}

fn member<'a>(j: &'a Json, k: &str) -> &'a Json {
    j.get(k).unwrap()
}

#[test]
fn queue_records_carry_zero_attempts() {
    let activity = obj(vec![("type", jstr("Create"))]);
    let r = queue_record("https://x/inbox", &activity);
    assert_eq!(keys(&r), vec!["inbox_url", "activity", "attempts"]);
    assert_eq!(member(&r, "attempts").as_i64(), Some(0));
    let all = queue_records(&vec!["https://a/inbox".to_string(), "https://b/inbox".to_string()], &activity);
    assert_eq!(all.len(), 2);
    assert_eq!(member(&all[1], "inbox_url").as_str(), Some("https://b/inbox"));
}

#[test]
fn retry_records_count_up_and_stop() {
    let activity = obj(vec![("type", jstr("Create"))]);
    let now = Timestamp { secs: 1700000000, nanos: 0 };
    let r = retry_record("https://x/inbox", &activity, 1, now).unwrap();
    assert_eq!(member(&r, "attempts").as_i64(), Some(2));
    assert_eq!(member(&r, "retry_after").as_str(), Some("2023-11-14T22:15:20Z"));
    assert!(retry_record("https://x/inbox", &activity, 5, now).is_none());
}

#[test]
fn queue_stats_never_go_negative() {
    let s = queue_stats(10, 3);
    assert_eq!((s.total, s.processing, s.pending), (10, 3, 7));
    assert_eq!(queue_stats(2, 5).pending, 0);
}

#[test]
fn queue_jobs_fill_in_missing_fields() {
    let j = queue_job_from_json(7, &obj(vec![]));
    assert_eq!(j.id, "7");
    assert_eq!(j.inbox_url, "");
    assert!(matches!(j.activity, Json::Null));
    assert_eq!(j.attempts, 0);
}

#[test]
fn signing_needs_a_key_and_a_url_with_host() {
    let body = b"{}".to_vec();
    let now = Timestamp { secs: 1700000000, nanos: 0 };
    let no_key = actor("alice", None);
    assert_eq!(
        sign_delivery("https://x/inbox", &body, &no_key, "https://mithic.test", now).err(),
        Some(SignError::NoPrivateKey)
    );
    let bad_key = actor("alice", Some("not a key"));
    assert_eq!(
        sign_delivery("not a url", &body, &bad_key, "https://mithic.test", now).err(),
        Some(SignError::InvalidUrl)
    );
    assert_eq!(
        sign_delivery("mailto:bob@x", &body, &bad_key, "https://mithic.test", now).err(),
        Some(SignError::NoHost)
    );
    assert_eq!(
        sign_delivery("https://x/inbox", &body, &bad_key, "https://mithic.test", now).err(),
        Some(SignError::SigningFailed)
    );
}

#[test]
fn signed_delivery_headers() {
    let body = br#"{"type":"Create"}"#.to_vec();
    let digest = "SHA-256=JeE18werLvQnEoHViKDam+ZK1D8E27TBC2kIISI7pIY=";
    assert_eq!(delivery_digest(&body), digest);
    assert_eq!(delivery_digest(b""), "SHA-256=47DEQpj8HBSa+/TImW+5JCeuQeRkm5NMpJWZG3hSuFU=");
    let now = Timestamp { secs: 1700000000, nanos: 0 };
    let alice = actor("alice", Some(TEST_KEY));
    // Signing goes through the machine's OpenSSL; where it refuses the key,
    // the delivery reports that and nothing else.
    match sign_delivery("https://remote.example/users/bob/inbox", &body, &alice, "https://mithic.test", now) {
        Ok(d) => {
            assert_eq!(d.host, "remote.example");
            assert_eq!(d.date, "Tue, 14 Nov 2023 22:13:20 +0000");
            assert_eq!(d.digest, digest);
            assert_eq!(
                d.signature,
                "keyId=\"https://mithic.test/users/alice#main-key\",algorithm=\"rsa-sha256\",headers=\"(request-target) host date digest\",signature=\"ERizp1uioMc3VwSaI6jmpVzJKaJGRmab/Q+Huce14O16M4m5iMZROO8wcshYHX24rCCsAMNFZb6fwqxCWZSrwhW4PHWvc89NqAFcMZOGJmNaEIAd3yOEkk/ciDUygEoekbMmt4xpjYf1ZZpwGymuPZ8VMbsPwo+cNFkEe0LFFv7rUFHkCFi1Z8cQH7A7ruyydKgxrcurr7koY3dansVE+irMJ5wP/2lG/Yqw1qPrPD2Vuk1DJk//NpP3de5XE2eEwpM/10Xm55bR00tdFHFdvxWsD5l4hLmhjE35bhBJM9IR0ZohMCSRaaBoNsUWAQJeiKjT4JlFf6ZH6XGn4pzBzg==\""
            );
        },
        Err(e) => assert_eq!(e, SignError::SigningFailed),
    }
}

#[test]
fn follow_answers_name_both_parties() {
    let alice = actor("alice", None);
    let j = follow_answer_with_id(FollowAnswer::Accept, &alice, "https://remote/users/bob", "https://mithic.test", "u-1");
    assert_eq!(member(&j, "id").as_str(), Some("https://mithic.test/users/alice#accepts/u-1"));
    assert_eq!(member(&j, "type").as_str(), Some("Accept"));
    assert_eq!(member(&j, "actor").as_str(), Some("https://mithic.test/users/alice"));
    let o = member(&j, "object");
    assert_eq!(member(o, "type").as_str(), Some("Follow"));
    assert_eq!(member(o, "actor").as_str(), Some("https://remote/users/bob"));
    assert_eq!(member(o, "object").as_str(), Some("https://mithic.test/users/alice"));
    let r = follow_answer(FollowAnswer::Reject, &alice, "https://remote/users/bob", "https://mithic.test");
    let id = member(&r, "id").as_str().unwrap().to_string();
    assert!(id.starts_with("https://mithic.test/users/alice#rejects/"));
    assert_eq!(id.len(), "https://mithic.test/users/alice#rejects/".len() + 36);
}

