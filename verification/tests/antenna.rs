use mithic::db::{DragonflyClient, SurrealClient};
use mithic::services::antenna::{
    apply_antenna_update, new_antenna, Antenna, AntennaService, AntennaSource, CreateAntennaRequest, UpdateAntennaRequest,
};
use mithic::time::Timestamp;

fn service() -> AntennaService {
    AntennaService::new(SurrealClient { endpoint: "mem://".to_string() }, DragonflyClient { url: "redis://x".to_string() })
}

fn antenna(keywords: &[&str], exclude: &[&str], case_sensitive: bool) -> Antenna {
    new_antenna(
        1,
        2,
        Timestamp { secs: 0, nanos: 0 },
        CreateAntennaRequest {
            name: "watch".to_string(),
            source: AntennaSource::All,
            keywords: keywords.iter().map(|s| s.to_string()).collect(),
            exclude_keywords: exclude.iter().map(|s| s.to_string()).collect(),
            users: vec![],
            user_list_id: None,
            case_sensitive,
            with_replies: true,
            with_renotes: false,
        },
    )
}

#[test]
fn any_keyword_matches() {
    let s = service();
    let a = antenna(&["rust", "verus"], &[], false);
    assert!(s.note_matches_antenna(&a, "I like Verus"));
    assert!(!s.note_matches_antenna(&a, "I like coffee"));
}

#[test]
fn case_matters_only_when_asked() {
    let s = service();
    assert!(!s.note_matches_antenna(&antenna(&["Rust"], &[], true), "rust is nice"));
    assert!(s.note_matches_antenna(&antenna(&["Rust"], &[], false), "rust is nice"));
}

#[test]
fn an_exclude_keyword_wins() {
    let s = service();
    let a = antenna(&["rust"], &["spam"], false);
    assert!(!s.note_matches_antenna(&a, "rust SPAM"));
    assert!(s.note_matches_antenna(&a, "rust news"));
}

#[test]
fn an_empty_antenna_takes_everything() {
    assert!(service().note_matches_antenna(&antenna(&[], &[], false), "anything"));
}

#[test]
fn updates_replace_only_given_fields() {
    let a = antenna(&["rust"], &[], false);
    let u = UpdateAntennaRequest {
        name: Some("renamed".to_string()),
        source: None,
        keywords: None,
        exclude_keywords: Some(vec!["spam".to_string()]),
        users: None,
        user_list_id: Some(77),
        case_sensitive: Some(true),
        with_replies: None,
        with_renotes: None,
    };
    let b = apply_antenna_update(a, u, Timestamp { secs: 5, nanos: 0 });
    assert_eq!(b.name, "renamed");
    assert_eq!(b.keywords, vec!["rust".to_string()]);
    assert_eq!(b.exclude_keywords, vec!["spam".to_string()]);
    assert_eq!(b.user_list_id, Some(77));
    assert!(b.case_sensitive);
    assert!(b.with_replies);
    assert_eq!(b.updated_at, Some(Timestamp { secs: 5, nanos: 0 }));
}

#[test]
fn a_note_goes_to_the_antennas_it_matches() {
    let mut a = antenna(&["rust"], &[], false);
    a.id = 10;
    let mut b = antenna(&["go"], &[], false);
    b.id = 11;
    let mut c = antenna(&[], &["spam"], false);
    c.id = 12;
    let all = vec![a, b, c];
    assert_eq!(service().antennas_for_note(&all, "I like Rust"), vec![10, 12]);
    assert_eq!(service().antennas_for_note(&all, "rust spam"), vec![10]);
    assert_eq!(service().antennas_for_note(&vec![], "anything"), Vec::<u128>::new());
}
