//! Antennas: keyword monitors that collect the notes matching them.
use vstd::prelude::*;
use crate::db::{DragonflyClient, SurrealClient};
use crate::time::Timestamp;
use crate::text::{has_substring, lowercase, to_lowercase, contains_str};

verus! {

/// Which notes an antenna looks at.
#[derive(Clone, Copy, Debug, PartialEq, Eq, Structural)]
pub enum AntennaSource {
    Home,
    All,
    Users,
    List,
}

/// A keyword monitor of a user.
#[derive(Clone, Debug)]
pub struct Antenna {
    pub id: u128,
    pub user_id: u128,
    pub name: String,
    pub source: AntennaSource,
    /// A note must contain one of these, unless there are none.
    pub keywords: Vec<String>,
    /// A note that contains any of these never matches.
    pub exclude_keywords: Vec<String>,
    pub users: Vec<String>,
    pub user_list_id: Option<u128>,
    pub case_sensitive: bool,
    pub with_replies: bool,
    pub with_renotes: bool,
    pub created_at: Timestamp,
    pub updated_at: Option<Timestamp>,
}

/// Creation of an antenna.
#[derive(Clone, Debug)]
pub struct CreateAntennaRequest {
    pub name: String,
    pub source: AntennaSource,
    pub keywords: Vec<String>,
    pub exclude_keywords: Vec<String>,
    pub users: Vec<String>,
    pub user_list_id: Option<u128>,
    pub case_sensitive: bool,
    pub with_replies: bool,
    pub with_renotes: bool,
}

/// Changes to an antenna: each field given replaces the stored one.
#[derive(Clone, Debug)]
pub struct UpdateAntennaRequest {
    pub name: Option<String>,
    pub source: Option<AntennaSource>,
    pub keywords: Option<Vec<String>>,
    pub exclude_keywords: Option<Vec<String>>,
    pub users: Option<Vec<String>>,
    pub user_list_id: Option<u128>,
    pub case_sensitive: Option<bool>,
    pub with_replies: Option<bool>,
    pub with_renotes: Option<bool>,
}

/// A new antenna of `user_id` with id `id`, made at `now` from the request.
pub fn new_antenna(id: u128, user_id: u128, now: Timestamp, req: CreateAntennaRequest) -> (a: Antenna)
    ensures
        a.id == id,
        a.user_id == user_id,
        a.name == req.name,
        a.source == req.source,
        a.keywords == req.keywords,
        a.exclude_keywords == req.exclude_keywords,
        a.users == req.users,
        a.user_list_id == req.user_list_id,
        a.case_sensitive == req.case_sensitive,
        a.with_replies == req.with_replies,
        a.with_renotes == req.with_renotes,
        a.created_at == now,
        a.updated_at is None,
{
    Antenna {
        id,
        user_id,
        name: req.name,
        source: req.source,
        keywords: req.keywords,
        exclude_keywords: req.exclude_keywords,
        users: req.users,
        user_list_id: req.user_list_id,
        case_sensitive: req.case_sensitive,
        with_replies: req.with_replies,
        with_renotes: req.with_renotes,
        created_at: now,
        updated_at: None,
    }
}

/// The stored value, unless the change gives another.
pub open spec fn updated<T>(stored: T, change: Option<T>) -> T {
    match change {
        Some(v) => v,
        None => stored,
    }
}

/// An antenna with a change applied at `now`: each field given replaces
/// the stored one (a list id can be set, not cleared), and the update time
/// is `now`.
pub fn apply_antenna_update(a: Antenna, req: UpdateAntennaRequest, now: Timestamp) -> (r: Antenna)
    ensures
        r.id == a.id,
        r.user_id == a.user_id,
        r.name == updated(a.name, req.name),
        r.source == updated(a.source, req.source),
        r.keywords == updated(a.keywords, req.keywords),
        r.exclude_keywords == updated(a.exclude_keywords, req.exclude_keywords),
        r.users == updated(a.users, req.users),
        r.user_list_id == match req.user_list_id {
            Some(l) => Some(l),
            None => a.user_list_id,
        },
        r.case_sensitive == updated(a.case_sensitive, req.case_sensitive),
        r.with_replies == updated(a.with_replies, req.with_replies),
        r.with_renotes == updated(a.with_renotes, req.with_renotes),
        r.created_at == a.created_at,
        r.updated_at == Some(now),
{
    let mut a = a;
    if let Some(name) = req.name {
        a.name = name;
    }
    if let Some(source) = req.source {
        a.source = source;
    }
    if let Some(keywords) = req.keywords {
        a.keywords = keywords;
    }
    if let Some(exclude_keywords) = req.exclude_keywords {
        a.exclude_keywords = exclude_keywords;
    }
    if let Some(users) = req.users {
        a.users = users;
    }
    if let Some(user_list_id) = req.user_list_id {
        a.user_list_id = Some(user_list_id);
    }
    if let Some(case_sensitive) = req.case_sensitive {
        a.case_sensitive = case_sensitive;
    }
    if let Some(with_replies) = req.with_replies {
        a.with_replies = with_replies;
    }
    if let Some(with_renotes) = req.with_renotes {
        a.with_renotes = with_renotes;
    }
    a.updated_at = Some(now);
    a
}

/// A text as the antenna compares it: as is, or lowercased when the antenna
/// ignores case.
pub open spec fn folded(case_sensitive: bool, s: Seq<char>) -> Seq<char> {
    if case_sensitive {
        s
    } else {
        lowercase(s)
    }
}

/// The rule an antenna applies to a note's text: no exclude keyword occurs in
/// it, and, when the antenna has keywords, at least one of them does.
pub open spec fn antenna_matches(a: Antenna, text: Seq<char>) -> bool {
    &&& forall|i: int|
        0 <= i < a.exclude_keywords@.len() ==> !has_substring(
            folded(a.case_sensitive, text),
            folded(a.case_sensitive, #[trigger] a.exclude_keywords@[i]@),
        )
    &&& (a.keywords@.len() == 0 || exists|i: int|
        0 <= i < a.keywords@.len() && has_substring(
            folded(a.case_sensitive, text),
            folded(a.case_sensitive, #[trigger] a.keywords@[i]@),
        ))
}

/// `s` as the antenna compares it.
fn fold_text(case_sensitive: bool, s: &str) -> (r: String)
    ensures
        r@ == folded(case_sensitive, s@),
{
    if case_sensitive {
        String::from_str(s)
    } else {
        to_lowercase(s)
    }
}

/// Antenna operations.
#[derive(Clone, Debug)]
pub struct AntennaService {
    pub surreal: SurrealClient,
    pub dragonfly: DragonflyClient,
}

impl AntennaService {
    /// A service over the given stores.
    pub fn new(surreal: SurrealClient, dragonfly: DragonflyClient) -> (s: Self)
        ensures
            s.surreal == surreal,
            s.dragonfly == dragonfly,
    {
        AntennaService { surreal, dragonfly }
    }

    /// Whether a note's text matches the antenna: exclude keywords are
    /// checked first, then any one keyword suffices.
    pub fn note_matches_antenna(&self, antenna: &Antenna, note_text: &str) -> (r: bool)
        ensures
            r == antenna_matches(*antenna, note_text@),
    {
        let text = fold_text(antenna.case_sensitive, note_text);
        let mut i: usize = 0;
        while i < antenna.exclude_keywords.len()
            invariant
                text@ == folded(antenna.case_sensitive, note_text@),
                i <= antenna.exclude_keywords@.len(),
                forall|k: int|
                    0 <= k < i ==> !has_substring(
                        folded(antenna.case_sensitive, note_text@),
                        folded(antenna.case_sensitive, #[trigger] antenna.exclude_keywords@[k]@),
                    ),
            decreases antenna.exclude_keywords@.len() - i,
        {
            let pattern = fold_text(antenna.case_sensitive, antenna.exclude_keywords[i].as_str());
            if contains_str(text.as_str(), pattern.as_str()) {
                return false;
            }
            i = i + 1;
        }
        if antenna.keywords.len() == 0 {
            return true;
        }
        let mut j: usize = 0;
        while j < antenna.keywords.len()
            invariant
                text@ == folded(antenna.case_sensitive, note_text@),
                j <= antenna.keywords@.len(),
                forall|k: int|
                    0 <= k < antenna.exclude_keywords@.len() ==> !has_substring(
                        folded(antenna.case_sensitive, note_text@),
                        folded(antenna.case_sensitive, #[trigger] antenna.exclude_keywords@[k]@),
                    ),
                forall|k: int|
                    0 <= k < j ==> !has_substring(
                        folded(antenna.case_sensitive, note_text@),
                        folded(antenna.case_sensitive, #[trigger] antenna.keywords@[k]@),
                    ),
            decreases antenna.keywords@.len() - j,
        {
            let pattern = fold_text(antenna.case_sensitive, antenna.keywords[j].as_str());
            if contains_str(text.as_str(), pattern.as_str()) {
                return true;
            }
            j = j + 1;
        }
        false
    }
}


/// Exclusion wins: a note whose text holds any exclude keyword never
/// matches, whatever its other keywords.
pub proof fn lemma_exclusion_wins(a: Antenna, text: Seq<char>, i: int)
    requires
        0 <= i < a.exclude_keywords@.len(),
        has_substring(folded(a.case_sensitive, text), folded(a.case_sensitive, a.exclude_keywords@[i]@)),
    ensures
        !antenna_matches(a, text),
{
}

/// An antenna without keywords or exclusions takes every note.
pub proof fn lemma_empty_antenna_takes_all(a: Antenna, text: Seq<char>)
    requires
        a.keywords@.len() == 0,
        a.exclude_keywords@.len() == 0,
    ensures
        antenna_matches(a, text),
{
}

/// The ids of the antennas a note's text matches, in order.
pub open spec fn matching_ids(antennas: Seq<Antenna>, text: Seq<char>) -> Seq<u128>
    decreases antennas.len(),
{
    if antennas.len() == 0 {
        Seq::empty()
    } else {
        matching_ids(antennas.drop_last(), text) + if antenna_matches(antennas.last(), text) {
            seq![antennas.last().id]
        } else {
            Seq::empty()
        }
    }
}

impl AntennaService {
    /// The antennas a new note goes to: each antenna whose rules its text
    /// matches.
    pub fn antennas_for_note(&self, antennas: &Vec<Antenna>, note_text: &str) -> (r: Vec<u128>)
        ensures
            r@ == matching_ids(antennas@, note_text@),
    {
        let mut r: Vec<u128> = Vec::new();
        let mut i: usize = 0;
        while i < antennas.len()
            invariant
                i <= antennas@.len(),
                r@ == matching_ids(antennas@.take(i as int), note_text@),
            decreases antennas@.len() - i,
        {
            if self.note_matches_antenna(&antennas[i], note_text) {
                r.push(antennas[i].id);
            }
            assert(antennas@.take(i as int + 1).drop_last() =~= antennas@.take(i as int));
            i = i + 1;
        }
        assert(antennas@.take(antennas@.len() as int) =~= antennas@);
        r
    }
}

} // verus!
