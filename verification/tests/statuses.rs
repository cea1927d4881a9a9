use mithic::api::statuses::{
    check_not_reacted, check_pin_owner, favorites_query, tag_search_query, ConversationQuery, ConversationWalk, FavoritesQuery,
    SearchByTagQuery, WalkAction,
};
use mithic::error::AppError;

fn tag_query() -> SearchByTagQuery {
    SearchByTagQuery {
        tag: "Rust".to_string(),
        limit: None,
        since_id: None,
        until_id: None,
        reply: None,
        renote: None,
        with_files: None,
        poll: None,
    }
}

#[test]
fn tag_search_text_and_limit() {
    let (t, l) = tag_search_query(&tag_query());
    assert_eq!(t, "SELECT * FROM note WHERE $tag INSIDE tags AND visibility IN ['public', 'home'] ORDER BY created_at DESC LIMIT $limit");
    assert_eq!(l, 10);
    let q = SearchByTagQuery {
        limit: Some(500),
        reply: Some(false),
        renote: Some(true),
        with_files: Some(true),
        poll: Some(true),
        since_id: Some("s".to_string()),
        until_id: Some("u".to_string()),
        ..tag_query()
    };
    let (t, l) = tag_search_query(&q);
    assert_eq!(
        t,
        "SELECT * FROM note WHERE $tag INSIDE tags AND visibility IN ['public', 'home'] AND reply_id IS NONE AND file_ids != [] \
AND poll IS NOT NONE AND id > $since_id AND id < $until_id ORDER BY created_at DESC LIMIT $limit"
    );
    assert_eq!(l, 100);
    assert_eq!(tag_search_query(&SearchByTagQuery { limit: Some(99), ..tag_query() }).1, 99);
}

#[test]
fn favorites_query_text() {
    let q = FavoritesQuery { limit: None, since_id: None, until_id: None };
    assert_eq!(favorites_query(&q), "SELECT * FROM favorite WHERE user_id = $user_id ORDER BY created_at DESC LIMIT 10");
    let q = FavoritesQuery { limit: Some(25), since_id: Some("a".to_string()), until_id: Some("b".to_string()) };
    assert_eq!(
        favorites_query(&q),
        "SELECT * FROM favorite WHERE user_id = $user_id AND id > 'a' AND id < 'b' ORDER BY created_at DESC LIMIT 25"
    );
}

#[test]
fn conversation_walk_skips_then_takes() {
    let mut w = ConversationWalk::new(&ConversationQuery { limit: Some(2), offset: Some(1) });
    assert_eq!(w.on_note(), WalkAction::Skip);
    assert_eq!(w.on_note(), WalkAction::Take { stop: false });
    assert_eq!(w.on_note(), WalkAction::Take { stop: true });
    let mut d = ConversationWalk::new(&ConversationQuery { limit: None, offset: None });
    assert_eq!((d.limit, d.offset), (10, 0));
    for _ in 0..9 {
        assert_eq!(d.on_note(), WalkAction::Take { stop: false });
    }
    assert_eq!(d.on_note(), WalkAction::Take { stop: true });
    let mut z = ConversationWalk::new(&ConversationQuery { limit: Some(0), offset: Some(0) });
    assert_eq!(z.on_note(), WalkAction::Take { stop: true });
}

#[test]
fn pin_and_reaction_checks() {
    assert!(check_pin_owner(1, 1, true).is_ok());
    assert!(matches!(check_pin_owner(1, 2, true), Err(AppError::Forbidden(m)) if m == "Cannot pin other user's note"));
    assert!(matches!(check_pin_owner(1, 2, false), Err(AppError::Forbidden(m)) if m == "Cannot unpin other user's note"));
    assert!(check_not_reacted(false).is_ok());
    assert!(matches!(check_not_reacted(true), Err(AppError::Conflict(m)) if m == "Already reacted with this emoji"));
}
