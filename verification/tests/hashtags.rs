use mithic::hashtags::{
    actor_ids, chart_windows, hashtag_search_text, hashtag_timeline_query, trending_tags, tagged_note_from_json, ChartWindow, HashtagSearchQuery,
    HashtagTimelineQuery, TaggedNote,
};
use mithic::time::Timestamp;
use mithic::json::Json;

fn note(tags: &[&str], actor: &str) -> TaggedNote {
    TaggedNote { tags: tags.iter().map(|t| t.to_string()).collect(), actor_id: actor.to_string() }
}

#[test]
fn test_hashtag_search_query_defaults() {
    let query = HashtagSearchQuery { q: None, limit: None, offset: None };
    assert_eq!(query.limit(), 20);
    assert_eq!(query.offset(), 0);
}

#[test]
fn test_hashtag_timeline_query_defaults() {
    let query = HashtagTimelineQuery {
        tag: "test".to_string(),
        since_id: None,
        until_id: None,
        limit: None,
        with_files: None,
    };
    assert_eq!(query.limit(), 10);
}

#[test]
fn search_query_keeps_given_paging() {
    let query = HashtagSearchQuery { q: Some("rust".to_string()), limit: Some(5), offset: Some(15) };
    assert_eq!(query.limit(), 5);
    assert_eq!(query.offset(), 15);
}

#[test]
fn trending_counts_distinct_authors() {
    let notes = vec![
        note(&["rust", "verus"], "alice"),
        note(&["rust"], "alice"),
        note(&["rust"], "bob"),
        note(&["verus"], "carol"),
        note(&["misc"], "dave"),
    ];
    let top = trending_tags(&notes);
    assert_eq!(top.len(), 3);
    assert_eq!(top[0], ("rust".to_string(), 2));
    assert_eq!(top[1], ("verus".to_string(), 2));
    assert_eq!(top[2], ("misc".to_string(), 1));
}

#[test]
fn trending_keeps_five_most_used() {
    let mut notes = Vec::new();
    for (i, tag) in ["a", "b", "c", "d", "e", "f", "g"].iter().enumerate() {
        for u in 0..=i {
            notes.push(note(&[tag], &format!("user{}", u)));
        }
    }
    let top = trending_tags(&notes);
    let tags: Vec<&str> = top.iter().map(|(t, _)| t.as_str()).collect();
    assert_eq!(tags, vec!["g", "f", "e", "d", "c"]);
    let counts: Vec<usize> = top.iter().map(|(_, c)| *c).collect();
    assert_eq!(counts, vec![7, 6, 5, 4, 3]);
}

#[test]
fn trending_of_nothing_is_empty() {
    assert!(trending_tags(&Vec::new()).is_empty());
}

#[test]
fn tagged_note_reads_row() {
    let row = Json::Object(vec![
        ("tags".to_string(), Json::Array(vec![Json::Str("a".to_string()), Json::Str("b".to_string())])),
        ("actor_id".to_string(), Json::Str("user:1".to_string())),
    ]);
    let n = tagged_note_from_json(&row);
    assert_eq!(n.tags, vec!["a".to_string(), "b".to_string()]);
    assert_eq!(n.actor_id, "user:1");
}

#[test]
fn tagged_note_rejects_mixed_tags() {
    let row = Json::Object(vec![
        ("tags".to_string(), Json::Array(vec![Json::Str("a".to_string()), Json::Int(3)])),
        ("actor_id".to_string(), Json::Int(7)),
    ]);
    let n = tagged_note_from_json(&row);
    assert!(n.tags.is_empty());
    assert_eq!(n.actor_id, "");
}

#[test]
fn hashtag_timeline_query_text() {
    let q = HashtagTimelineQuery { tag: "rust".to_string(), since_id: None, until_id: None, limit: None, with_files: None };
    assert_eq!(
        hashtag_timeline_query(&q, false),
        "SELECT * FROM note WHERE $tag INSIDE tags AND visibility IN ['public', 'home'] ORDER BY created_at DESC LIMIT $limit"
    );
    let q = HashtagTimelineQuery {
        tag: "rust".to_string(),
        since_id: Some("a".to_string()),
        until_id: Some("b".to_string()),
        limit: Some(3),
        with_files: Some(true),
    };
    assert_eq!(
        hashtag_timeline_query(&q, true),
        "SELECT * FROM note WHERE $tag INSIDE tags AND id > $since_id AND id < $until_id AND visibility IN ['public', 'home'] \
AND actor_id NOT IN (SELECT out FROM block WHERE in = $user_id) \
AND actor_id NOT IN (SELECT out FROM mute WHERE in = $user_id AND (expires_at IS NONE OR expires_at > time::now())) \
AND file_ids != [] ORDER BY created_at DESC LIMIT $limit"
    );
    let no_files = HashtagTimelineQuery { with_files: Some(false), ..q };
    assert!(!hashtag_timeline_query(&no_files, false).contains("file_ids"));
    assert_eq!(hashtag_search_text(true), "SELECT * FROM hashtag WHERE name CONTAINS $q ORDER BY count DESC LIMIT $limit START $offset");
    assert_eq!(hashtag_search_text(false), "SELECT * FROM hashtag ORDER BY count DESC LIMIT $limit START $offset");
}

#[test]
fn hashtag_chart_windows() {
    let now = Timestamp { secs: 100_000, nanos: 7 };
    let w = chart_windows(now, 20, 10);
    assert_eq!(w.len(), 20);
    assert_eq!(w[0], ChartWindow { lt: Timestamp { secs: 100_000 - 12_000, nanos: 7 }, gt: Timestamp { secs: 100_000 - 11_400, nanos: 7 } });
    assert_eq!(w[19], ChartWindow { lt: Timestamp { secs: 100_000 - 600, nanos: 7 }, gt: now });
    for k in 1..20 {
        assert_eq!(w[k].lt, w[k - 1].gt);
    }
    assert!(chart_windows(now, 0, 10).is_empty());
    assert!(chart_windows(now, -3, 10).is_empty());
}

#[test]
fn hashtag_users_come_from_actor_ids() {
    let rows = vec![
        Json::Object(vec![("actor_id".to_string(), Json::Str("u1".to_string()))]),
        Json::Object(vec![("actor_id".to_string(), Json::Int(3))]),
        Json::Object(vec![]),
        Json::Object(vec![("actor_id".to_string(), Json::Str("u2".to_string()))]),
    ];
    assert_eq!(actor_ids(&rows), vec!["u1".to_string(), "u2".to_string()]);
    assert!(actor_ids(&vec![]).is_empty());
}
