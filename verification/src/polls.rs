//! Polls attached to notes: voting, and the tally that a vote changes.
use vstd::prelude::*;
use crate::models::{sum, sums_fit_i32};
use crate::error::{err, AppError, ErrorKind};
use crate::text::{push_signed_decimal, signed_decimal};
use crate::time::{Timestamp, later, is_later, add_seconds};

verus! {

/// One answer of a poll and how many votes it has.
#[derive(Clone, Debug)]
pub struct PollChoice {
    pub index: i32,
    pub text: String,
    pub votes: i32,
}

/// A poll. Its id is the id of the note it belongs to.
#[derive(Clone, Debug)]
pub struct Poll {
    pub id: u128,
    pub note_id: u128,
    pub choices: Vec<PollChoice>,
    pub expires_at: Option<Timestamp>,
    pub multiple: bool,
}

/// What a client asks for when it attaches a poll to a note.
#[derive(Clone, Debug)]
pub struct CreatePollRequest {
    pub choices: Vec<String>,
    /// Minutes until the poll closes; `None` for a poll that never closes.
    pub expires_in: Option<i32>,
    pub multiple: Option<bool>,
}

/// The vote counts of a list of choices, in order.
pub open spec fn choice_votes(s: Seq<PollChoice>) -> Seq<int> {
    s.map_values(|c: PollChoice| c.votes as int)
}

/// How many times `c` occurs in `s`.
pub open spec fn count(s: Seq<i32>, c: i32) -> nat
    decreases s.len(),
{
    if s.len() == 0 {
        0
    } else {
        count(s.drop_last(), c) + if s.last() == c {
            1nat
        } else {
            0nat
        }
    }
}

/// Some choice of the list has index `c`.
pub open spec fn has_choice(s: Seq<PollChoice>, c: i32) -> bool {
    exists|k: int| 0 <= k < s.len() && #[trigger] s[k].index == c
}

/// Position `k` holds the first choice of the list whose index is `c`.
pub open spec fn is_first(s: Seq<PollChoice>, c: i32, k: int) -> bool {
    &&& 0 <= k < s.len()
    &&& s[k].index == c
    &&& forall|j: int| 0 <= j < k ==> #[trigger] s[j].index != c
}

/// The votes that a request records, in order: each requested index that the
/// voter has not voted for before. Repeats within the request are all kept.
pub open spec fn recorded_votes(existing: Seq<i32>, req: Seq<i32>) -> Seq<i32>
    decreases req.len(),
{
    if req.len() == 0 {
        Seq::<i32>::empty()
    } else {
        let before = recorded_votes(existing, req.drop_last());
        if existing.contains(req.last()) {
            before
        } else {
            before.push(req.last())
        }
    }
}

/// `after` is `before` with the votes `rec` counted: each vote goes to the first
/// choice with its index; indexes and texts stay.
pub open spec fn tallied(before: Seq<PollChoice>, rec: Seq<i32>, after: Seq<PollChoice>) -> bool {
    &&& after.len() == before.len()
    &&& forall|k: int|
        0 <= k < before.len() ==> {
            &&& (#[trigger] after[k]).index == before[k].index
            &&& after[k].text == before[k].text
            &&& after[k].votes == before[k].votes + if is_first(before, before[k].index, k) {
                count(rec, before[k].index) as int
            } else {
                0int
            }
        }
}

impl Poll {
    /// The poll has closed at `now`.
    pub open spec fn spec_is_expired(&self, now: Timestamp) -> bool {
        match self.expires_at {
            Some(t) => later(now, t),
            None => false,
        }
    }

    /// Whether the poll has closed at `now`.
    pub fn is_expired(&self, now: Timestamp) -> (r: bool)
        ensures
            r == self.spec_is_expired(now),
    {
        match self.expires_at {
            Some(t) => is_later(now, t),
            None => false,
        }
    }

    /// Whether votes are taken at `now`.
    pub fn can_vote(&self, now: Timestamp) -> (r: bool)
        ensures
            r == !self.spec_is_expired(now),
    {
        !self.is_expired(now)
    }

    /// The number of votes on all choices.
    pub open spec fn spec_total_votes(&self) -> int {
        sum(choice_votes(self.choices@))
    }

    /// The number of votes on all choices (each running total must fit an
    /// `i32`).
    pub fn total_votes(&self) -> (t: i32)
        requires
            sums_fit_i32(choice_votes(self.choices@)),
        ensures
            t == self.spec_total_votes(),
    {
        let ghost s = choice_votes(self.choices@);
        let mut t: i32 = 0;
        let mut i: usize = 0;
        assert(s.take(0) =~= Seq::<int>::empty());
        while i < self.choices.len()
            invariant
                s == choice_votes(self.choices@),
                sums_fit_i32(s),
                i <= s.len(),
                t == sum(s.take(i as int)),
            decreases s.len() - i,
        {
            assert(s.take(i + 1).drop_last() =~= s.take(i as int));
            assert(i32::MIN <= sum(s.take(i + 1)) <= i32::MAX);
            t = t + self.choices[i].votes;
            i = i + 1;
        }
        assert(s.take(s.len() as int) =~= s);
        t
    }

    /// A poll for a note, with the given answers numbered from 0 and no votes.
    pub fn new(note_id: u128, choices: Vec<String>, expires_at: Option<Timestamp>, multiple: bool) -> (p: Poll)
        requires
            choices@.len() <= i32::MAX,
        ensures
            p.id == note_id,
            p.note_id == note_id,
            p.expires_at == expires_at,
            p.multiple == multiple,
            p.choices@.len() == choices@.len(),
            forall|k: int|
                0 <= k < choices@.len() ==> {
                    &&& (#[trigger] p.choices@[k]).index == k
                    &&& p.choices@[k].text == choices@[k]
                    &&& p.choices@[k].votes == 0
                },
    {
        let mut out: Vec<PollChoice> = Vec::new();
        let mut i: usize = 0;
        while i < choices.len()
            invariant
                choices@.len() <= i32::MAX,
                i <= choices@.len(),
                out@.len() == i,
                forall|k: int|
                    0 <= k < i ==> {
                        &&& (#[trigger] out@[k]).index == k
                        &&& out@[k].text == choices@[k]
                        &&& out@[k].votes == 0
                    },
            decreases choices@.len() - i,
        {
            out.push(PollChoice { index: i as i32, text: choices[i].clone(), votes: 0 });
            i = i + 1;
        }
        Poll { id: note_id, note_id, choices: out, expires_at, multiple }
    }
}

/// When a poll created at `now` with `expires_in` minutes closes, or `None`
/// when it never does.
pub open spec fn poll_deadline(now: Timestamp, expires_in: Option<i32>) -> Option<Timestamp> {
    match expires_in {
        None => None,
        Some(m) => Some(Timestamp { secs: (now.secs + 60 * m) as i64, nanos: now.nanos }),
    }
}

/// Builds the poll of a new note from the client's request: it closes
/// `expires_in` minutes after `now`, and allows one answer unless the request
/// says otherwise. `None` when the closing instant is out of range.
pub fn create_poll(note_id: u128, req: CreatePollRequest, now: Timestamp) -> (r: Option<Poll>)
    requires
        now.wf(),
        req.choices@.len() <= i32::MAX,
    ensures
        r is Some <==> (req.expires_in matches Some(m) ==> crate::time::MIN_SECS <= now.secs + 60 * m
            <= crate::time::MAX_SECS),
        r matches Some(p) ==> {
            &&& p.id == note_id
            &&& p.note_id == note_id
            &&& p.expires_at == poll_deadline(now, req.expires_in)
            &&& p.multiple == (req.multiple == Some(true))
            &&& p.choices@.len() == req.choices@.len()
            &&& forall|k: int|
                0 <= k < req.choices@.len() ==> {
                    &&& (#[trigger] p.choices@[k]).index == k
                    &&& p.choices@[k].text == req.choices@[k]
                    &&& p.choices@[k].votes == 0
                }
        },
{
    let expires_at = match req.expires_in {
        None => None,
        Some(m) => {
            let secs: i64 = (m as i64) * 60;
            match add_seconds(now, secs) {
                Some(t) => Some(t),
                None => {
                    return None;
                },
            }
        },
    };
    let multiple = match req.multiple {
        Some(b) => b,
        None => false,
    };
    Some(Poll::new(note_id, req.choices, expires_at, multiple))
}


/// `count` grows by one exactly when the pushed vote is `c`.
proof fn lemma_count_push(s: Seq<i32>, x: i32, c: i32)
    ensures
        count(s.push(x), c) == count(s, c) + if x == c {
            1nat
        } else {
            0nat
        },
{
    assert(s.push(x).drop_last() =~= s);
}

/// No value occurs more often than the sequence is long.
proof fn lemma_count_le(s: Seq<i32>, c: i32)
    ensures
        count(s, c) <= s.len(),
    decreases s.len(),
{
    if s.len() > 0 {
        lemma_count_le(s.drop_last(), c);
    }
}

/// Raising one entry by one raises the sum by one.
proof fn lemma_sum_increment(s: Seq<int>, j: int)
    requires
        0 <= j < s.len(),
    ensures
        sum(s.update(j, s[j] + 1)) == sum(s) + 1,
    decreases s.len(),
{
    let t = s.update(j, s[j] + 1);
    if j == s.len() - 1 {
        assert(t.drop_last() =~= s.drop_last());
    } else {
        assert(t.drop_last() =~= s.drop_last().update(j, s[j] + 1));
        lemma_sum_increment(s.drop_last(), j);
    }
}

/// Why a vote was refused.
#[derive(Debug)]
pub enum PollError {
    /// The poll has closed.
    Closed,
    /// The voter has voted before and the poll takes one answer.
    AlreadyVoted,
    /// A requested index names no choice. The votes in `recorded` (those
    /// requested before it) were already stored when the request stopped;
    /// the choices' counts were not updated.
    InvalidChoice { index: i32, recorded: Vec<i32> },
}

/// A vote that was taken: the votes stored, and the poll with them counted.
#[derive(Debug)]
pub struct VoteOutcome {
    pub recorded: Vec<i32>,
    pub poll: Poll,
}

/// Position `i` of the request is the first index that names no choice.
pub open spec fn first_invalid(choices: Seq<PollChoice>, req: Seq<i32>, i: int) -> bool {
    &&& 0 <= i < req.len()
    &&& !has_choice(choices, req[i])
    &&& forall|j: int| 0 <= j < i ==> has_choice(choices, #[trigger] req[j])
}

/// The position of the first choice with index `c`, if any.
fn find_choice(choices: &Vec<PollChoice>, c: i32) -> (r: Option<usize>)
    ensures
        r is None <==> !has_choice(choices@, c),
        r matches Some(k) ==> is_first(choices@, c, k as int),
{
    let mut k: usize = 0;
    while k < choices.len()
        invariant
            k <= choices@.len(),
            forall|j: int| 0 <= j < k ==> #[trigger] choices@[j].index != c,
        decreases choices@.len() - k,
    {
        if choices[k].index == c {
            return Some(k);
        }
        k = k + 1;
    }
    None
}

/// Whether `v` holds `c`.
fn contains_i32(v: &Vec<i32>, c: i32) -> (r: bool)
    ensures
        r == v@.contains(c),
{
    let mut k: usize = 0;
    while k < v.len()
        invariant
            k <= v@.len(),
            forall|j: int| 0 <= j < k ==> v@[j] != c,
        decreases v@.len() - k,
    {
        if v[k] == c {
            return true;
        }
        k = k + 1;
    }
    false
}

/// Takes a voter's request on a poll at `now`, given the indexes the voter
/// has voted for before. A closed poll refuses it; so does a one-answer poll
/// the voter has voted on. Otherwise each requested index, in order, must
/// name a choice: the first that does not stops the request with the votes
/// stored up to it. Indexes voted for before are skipped; every other one is
/// stored and counted on the first choice with that index.
pub fn apply_votes(poll: &Poll, existing: &Vec<i32>, requested: &Vec<i32>, now: Timestamp) -> (r: Result<VoteOutcome, PollError>)
    requires
        forall|k: int|
            0 <= k < poll.choices@.len() ==> (#[trigger] poll.choices@[k]).votes + requested@.len() <= i32::MAX,
    ensures
        poll.spec_is_expired(now) <==> r matches Err(PollError::Closed),
        (!poll.spec_is_expired(now) && existing@.len() > 0 && !poll.multiple) <==> r matches Err(PollError::AlreadyVoted),
        r matches Err(PollError::InvalidChoice { index, recorded }) ==> exists|i: int|
            first_invalid(poll.choices@, requested@, i) && index == requested@[i]
                && recorded@ == recorded_votes(existing@, requested@.take(i)),
        (!poll.spec_is_expired(now) && !(existing@.len() > 0 && !poll.multiple) && exists|i: int|
            first_invalid(poll.choices@, requested@, i)) ==> r is Err,
        r is Ok <==> (!poll.spec_is_expired(now) && !(existing@.len() > 0 && !poll.multiple) && forall|i: int|
            0 <= i < requested@.len() ==> has_choice(poll.choices@, #[trigger] requested@[i])),
        r matches Ok(o) ==> {
            &&& o.recorded@ == recorded_votes(existing@, requested@)
            &&& tallied(poll.choices@, o.recorded@, o.poll.choices@)
            &&& o.poll.id == poll.id
            &&& o.poll.note_id == poll.note_id
            &&& o.poll.expires_at == poll.expires_at
            &&& o.poll.multiple == poll.multiple
            &&& o.poll.spec_total_votes() == poll.spec_total_votes() + o.recorded@.len()
        },
{
    if poll.is_expired(now) {
        return Err(PollError::Closed);
    }
    if existing.len() > 0 && !poll.multiple {
        return Err(PollError::AlreadyVoted);
    }
    let ghost old_choices = poll.choices@;
    let ghost old_votes = choice_votes(old_choices);
    let mut votes: Vec<i32> = Vec::new();
    let mut k: usize = 0;
    while k < poll.choices.len()
        invariant
            old_choices == poll.choices@,
            old_votes == choice_votes(old_choices),
            k <= old_choices.len(),
            votes@.len() == k,
            forall|j: int| 0 <= j < k ==> votes@[j] == old_choices[j].votes,
        decreases old_choices.len() - k,
    {
        votes.push(poll.choices[k].votes);
        k = k + 1;
    }
    assert(votes@.map_values(|v: i32| v as int) =~= old_votes);
    let mut recorded: Vec<i32> = Vec::new();
    let mut i: usize = 0;
    assert(requested@.take(0) =~= Seq::<i32>::empty());
    while i < requested.len()
        invariant
            old_choices == poll.choices@,
            old_votes == choice_votes(old_choices),
            !poll.spec_is_expired(now),
            !(existing@.len() > 0 && !poll.multiple),
            i <= requested@.len(),
            votes@.len() == old_choices.len(),
            recorded@ == recorded_votes(existing@, requested@.take(i as int)),
            recorded@.len() <= i,
            forall|j: int| 0 <= j < i ==> has_choice(old_choices, #[trigger] requested@[j]),
            forall|k: int|
                0 <= k < old_choices.len() ==> #[trigger] votes@[k] == old_choices[k].votes + if is_first(
                    old_choices,
                    old_choices[k].index,
                    k,
                ) {
                    count(recorded@, old_choices[k].index) as int
                } else {
                    0int
                },
            sum(votes@.map_values(|v: i32| v as int)) == sum(old_votes) + recorded@.len(),
            forall|k: int|
                0 <= k < old_choices.len() ==> (#[trigger] old_choices[k]).votes + requested@.len() <= i32::MAX,
        decreases requested@.len() - i,
    {
        let c = requested[i];
        let ghost prefix = requested@.take(i as int);
        let ghost next = requested@.take(i + 1);
        assert(next.drop_last() =~= prefix);
        assert(next.last() == c);
        match find_choice(&poll.choices, c) {
            None => {
                assert(first_invalid(old_choices, requested@, i as int));
                return Err(PollError::InvalidChoice { index: c, recorded });
            },
            Some(j) => {
                if contains_i32(existing, c) {
                    assert(recorded@ == recorded_votes(existing@, next));
                } else {
                    let ghost before = recorded@;
                    let ghost vints = votes@.map_values(|v: i32| v as int);
                    proof {
                        lemma_count_le(before, c);
                        lemma_count_push(before, c, c);
                        assert forall|m: int| 0 <= m < old_choices.len() implies count(
                            before.push(c),
                            #[trigger] old_choices[m].index,
                        ) == count(before, old_choices[m].index) + if old_choices[m].index == c {
                            1nat
                        } else {
                            0nat
                        } by {
                            lemma_count_push(before, c, old_choices[m].index);
                        }
                    }
                    assert(votes@[j as int] + 1 <= i32::MAX);
                    let nv = votes[j] + 1;
                    votes.set(j, nv);
                    recorded.push(c);
                    proof {
                        lemma_sum_increment(vints, j as int);
                        assert(votes@.map_values(|v: i32| v as int) =~= vints.update(
                            j as int,
                            vints[j as int] + 1,
                        ));
                        assert forall|m: int| 0 <= m < old_choices.len() implies #[trigger] votes@[m]
                            == old_choices[m].votes + if is_first(old_choices, old_choices[m].index, m) {
                            count(recorded@, old_choices[m].index) as int
                        } else {
                            0int
                        } by {
                            if m != j as int && old_choices[m].index == c && is_first(
                                old_choices,
                                c,
                                m,
                            ) {
                                if m < j {
                                } else {
                                    assert(old_choices[j as int].index == c);
                                }
                            }
                        }
                    }
                }
                assert(has_choice(old_choices, requested@[i as int]));
            },
        }
        i = i + 1;
    }
    assert(requested@.take(requested@.len() as int) =~= requested@);
    let mut choices: Vec<PollChoice> = Vec::new();
    let mut k: usize = 0;
    while k < poll.choices.len()
        invariant
            old_choices == poll.choices@,
            votes@.len() == old_choices.len(),
            k <= old_choices.len(),
            choices@.len() == k,
            forall|m: int|
                0 <= m < k ==> {
                    &&& (#[trigger] choices@[m]).index == old_choices[m].index
                    &&& choices@[m].text == old_choices[m].text
                    &&& choices@[m].votes == votes@[m]
                },
        decreases old_choices.len() - k,
    {
        let ch = &poll.choices[k];
        choices.push(PollChoice { index: ch.index, text: ch.text.clone(), votes: votes[k] });
        k = k + 1;
    }
    assert(choice_votes(choices@) =~= votes@.map_values(|v: i32| v as int));
    let new_poll = Poll {
        id: poll.id,
        note_id: poll.note_id,
        choices,
        expires_at: poll.expires_at,
        multiple: poll.multiple,
    };
    Ok(VoteOutcome { recorded, poll: new_poll })
}


/// One answer as a client sees it: whether the viewer voted for it, and its
/// count (the share of all votes is computed by the caller from these).
#[derive(Debug)]
pub struct PollChoiceSummary {
    pub index: i32,
    pub text: String,
    pub votes: i32,
    pub is_voted: bool,
}

/// A poll as a client sees it.
#[derive(Debug)]
pub struct PollSummary {
    pub id: u128,
    pub note_id: u128,
    pub multiple: bool,
    pub expires_at: Option<Timestamp>,
    pub is_expired: bool,
    pub choices: Vec<PollChoiceSummary>,
    pub total_votes: i32,
}

/// The poll as seen at `now` by a viewer who voted for the indexes `voted`.
pub fn summarize_poll(poll: &Poll, voted: &Vec<i32>, now: Timestamp) -> (r: PollSummary)
    requires
        sums_fit_i32(choice_votes(poll.choices@)),
    ensures
        r.id == poll.id,
        r.note_id == poll.note_id,
        r.multiple == poll.multiple,
        r.expires_at == poll.expires_at,
        r.is_expired == poll.spec_is_expired(now),
        r.total_votes == poll.spec_total_votes(),
        r.choices@.len() == poll.choices@.len(),
        forall|k: int|
            0 <= k < poll.choices@.len() ==> {
                &&& (#[trigger] r.choices@[k]).index == poll.choices@[k].index
                &&& r.choices@[k].text == poll.choices@[k].text
                &&& r.choices@[k].votes == poll.choices@[k].votes
                &&& r.choices@[k].is_voted == voted@.contains(poll.choices@[k].index)
            },
{
    let total = poll.total_votes();
    let mut choices: Vec<PollChoiceSummary> = Vec::new();
    let mut k: usize = 0;
    while k < poll.choices.len()
        invariant
            k <= poll.choices@.len(),
            choices@.len() == k,
            forall|m: int|
                0 <= m < k ==> {
                    &&& (#[trigger] choices@[m]).index == poll.choices@[m].index
                    &&& choices@[m].text == poll.choices@[m].text
                    &&& choices@[m].votes == poll.choices@[m].votes
                    &&& choices@[m].is_voted == voted@.contains(poll.choices@[m].index)
                },
        decreases poll.choices@.len() - k,
    {
        let ch = &poll.choices[k];
        let is_voted = contains_i32(voted, ch.index);
        choices.push(
            PollChoiceSummary { index: ch.index, text: ch.text.clone(), votes: ch.votes, is_voted },
        );
        k = k + 1;
    }
    PollSummary {
        id: poll.id,
        note_id: poll.note_id,
        multiple: poll.multiple,
        expires_at: poll.expires_at,
        is_expired: poll.is_expired(now),
        choices,
        total_votes: total,
    }
}

/// The error a refused vote answers with.
pub open spec fn poll_error_message(e: PollError) -> Seq<char> {
    match e {
        PollError::Closed => "Poll is expired or closed"@,
        PollError::AlreadyVoted => "Already voted"@,
        PollError::InvalidChoice { index, .. } => "Invalid choice index: "@ + signed_decimal(index as int),
    }
}

/// The answer to a refused vote: a `Validation` error saying why.
pub fn poll_error_answer(e: &PollError) -> (r: AppError)
    ensures
        r.is(ErrorKind::Validation, poll_error_message(*e)),
{
    match e {
        PollError::Closed => err(ErrorKind::Validation, "Poll is expired or closed"),
        PollError::AlreadyVoted => err(ErrorKind::Validation, "Already voted"),
        PollError::InvalidChoice { index, .. } => {
            let mut m = String::from_str("Invalid choice index: ");
            push_signed_decimal(&mut m, *index as i64);
            AppError::Validation(m)
        },
    }
}

/// Refuses a withdrawal that removed no vote.
pub fn check_vote_withdrawn(removed: usize) -> (r: Result<(), AppError>)
    ensures
        r is Ok <==> removed > 0,
        r matches Err(e) ==> e.is(ErrorKind::NotFound, "Vote not found"@),
{
    if removed == 0 {
        return Err(err(ErrorKind::NotFound, "Vote not found"));
    }
    Ok(())
}

} // verus!
