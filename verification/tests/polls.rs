use mithic::error::AppError;
use mithic::polls::{apply_votes, check_vote_withdrawn, create_poll, poll_error_answer, summarize_poll, CreatePollRequest, Poll, PollChoice, PollError};
use mithic::time::Timestamp;

fn poll(votes: &[i32], multiple: bool, expires_at: Option<Timestamp>) -> Poll {
    Poll {
        id: 9,
        note_id: 9,
        choices: votes
            .iter()
            .enumerate()
            .map(|(i, v)| PollChoice { index: i as i32, text: format!("choice {}", i), votes: *v })
            .collect(),
        expires_at,
        multiple,
    }
}

fn at(secs: i64) -> Timestamp {
    Timestamp { secs, nanos: 0 }
}

fn counts(p: &Poll) -> Vec<i32> {
    p.choices.iter().map(|c| c.votes).collect()
}

#[test]
fn a_poll_closes_after_its_deadline() {
    let p = poll(&[0, 0], false, Some(at(100)));
    assert!(p.can_vote(at(100)));
    assert!(p.is_expired(at(101)));
    assert!(matches!(apply_votes(&p, &vec![], &vec![0], at(101)), Err(PollError::Closed)));
    let open = poll(&[0, 0], false, None);
    assert!(open.can_vote(at(i64::MAX / 2)));
}

#[test]
fn one_answer_polls_take_one_vote() {
    let p = poll(&[1, 0], false, None);
    assert!(matches!(apply_votes(&p, &vec![0], &vec![1], at(0)), Err(PollError::AlreadyVoted)));
}

#[test]
fn votes_are_counted_and_the_total_grows_by_them() {
    let p = poll(&[2, 0, 5], true, None);
    let o = apply_votes(&p, &vec![2], &vec![0, 2, 1], at(0)).ok().unwrap();
    assert_eq!(o.recorded, vec![0, 1]);
    assert_eq!(counts(&o.poll), vec![3, 1, 5]);
    assert_eq!(o.poll.total_votes(), p.total_votes() + 2);
}

#[test]
fn a_repeated_index_is_counted_each_time() {
    let p = poll(&[0, 0], true, None);
    let o = apply_votes(&p, &vec![], &vec![1, 1], at(0)).ok().unwrap();
    assert_eq!(o.recorded, vec![1, 1]);
    assert_eq!(counts(&o.poll), vec![0, 2]);
}

#[test]
fn an_unknown_index_stops_the_request() {
    let p = poll(&[0, 0], true, None);
    match apply_votes(&p, &vec![], &vec![0, 7, 1], at(0)) {
        Err(PollError::InvalidChoice { index, recorded }) => {
            assert_eq!(index, 7);
            assert_eq!(recorded, vec![0]);
        },
        other => panic!("unexpected {:?}", other),
    }
}

#[test]
fn polls_are_created_from_requests() {
    let req = CreatePollRequest { choices: vec!["a".to_string(), "b".to_string()], expires_in: Some(10), multiple: None };
    let p = create_poll(5, req, at(1000)).unwrap();
    assert_eq!(p.id, 5);
    assert_eq!(p.expires_at, Some(at(1600)));
    assert!(!p.multiple);
    assert_eq!(p.choices[1].index, 1);
    assert_eq!(p.choices[1].text, "b");
    let never = CreatePollRequest { choices: vec![], expires_in: None, multiple: Some(true) };
    let q = create_poll(6, never, at(0)).unwrap();
    assert_eq!(q.expires_at, None);
    assert!(q.multiple);
}

#[test]
fn summaries_mark_the_viewers_votes() {
    let p = poll(&[1, 3], false, Some(at(50)));
    let s = summarize_poll(&p, &vec![1], at(60));
    assert_eq!(s.total_votes, 4);
    assert!(s.is_expired);
    assert!(!s.choices[0].is_voted);
    assert!(s.choices[1].is_voted);
    assert_eq!(s.choices[1].votes, 3);
}

#[test]
fn refused_votes_answer_with_validation_errors() {
    assert!(matches!(poll_error_answer(&PollError::Closed), AppError::Validation(m) if m == "Poll is expired or closed"));
    assert!(matches!(poll_error_answer(&PollError::AlreadyVoted), AppError::Validation(m) if m == "Already voted"));
    let e = PollError::InvalidChoice { index: -4, recorded: vec![] };
    assert!(matches!(poll_error_answer(&e), AppError::Validation(m) if m == "Invalid choice index: -4"));
    let e = PollError::InvalidChoice { index: 12, recorded: vec![1] };
    assert!(matches!(poll_error_answer(&e), AppError::Validation(m) if m == "Invalid choice index: 12"));
    assert!(check_vote_withdrawn(2).is_ok());
    assert!(matches!(check_vote_withdrawn(0), Err(AppError::NotFound(m)) if m == "Vote not found"));
}
