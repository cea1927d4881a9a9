//! The records the server keeps: notes, actors and their visibility rules.
use vstd::prelude::*;
use crate::time::Timestamp;

verus! {

/// Who may see a note.
#[derive(Clone, Copy, Debug, PartialEq, Eq, Structural)]
pub enum NoteVisibility {
    /// Everyone, on every timeline.
    Public,
    /// Everyone, but kept off the public timelines (Mastodon's "unlisted").
    Home,
    /// Followers only.
    Followers,
    /// Only the users named on the note.
    Specified,
}

/// The sum of a sequence of integers.
pub open spec fn sum(s: Seq<int>) -> int
    decreases s.len(),
{
    if s.len() == 0 {
        0
    } else {
        sum(s.drop_last()) + s.last()
    }
}

/// Every running total of `s`, from the empty prefix to the whole, fits an
/// `i32`: the sum can be computed in `i32` without overflow.
pub open spec fn sums_fit_i32(s: Seq<int>) -> bool {
    forall|k: int| 0 <= k <= s.len() ==> i32::MIN <= #[trigger] sum(s.take(k)) <= i32::MAX
}

/// The reaction counts of a note, as integers.
pub open spec fn reaction_counts(r: Seq<(String, i32)>) -> Seq<int> {
    r.map_values(|e: (String, i32)| e.1 as int)
}

/// A note (a post), local or remote.
#[derive(Clone, Debug)]
pub struct Note {
    pub id: u128,
    pub created_at: Timestamp,
    pub reply_id: Option<u128>,
    pub renote_id: Option<u128>,
    pub text: Option<String>,
    pub cw: Option<String>,
    pub actor_id: u128,
    pub renote_count: i32,
    pub replies_count: i32,
    /// Reaction emoji and how many users reacted with it.
    pub reactions: Vec<(String, i32)>,
    pub visibility: NoteVisibility,
    pub uri: Option<String>,
    pub renote_uri: Option<String>,
    pub file_ids: Vec<String>,
    pub visible_user_ids: Vec<u128>,
    pub mentions: Vec<u128>,
    pub emojis: Vec<String>,
    pub tags: Vec<String>,
    pub has_poll: bool,
    /// The host of a remote note; `None` for a local one.
    pub host: Option<String>,
    pub reply_actor_id: Option<u128>,
    pub renote_actor_id: Option<u128>,
}

impl Note {
    /// A fresh note with no replies, renotes or reactions.
    pub fn new(
        id: u128,
        created_at: Timestamp,
        actor_id: u128,
        text: Option<String>,
        visibility: NoteVisibility,
    ) -> (n: Note)
        ensures
            n.id == id,
            n.created_at == created_at,
            n.actor_id == actor_id,
            n.text == text,
            n.visibility == visibility,
            n.reply_id is None,
            n.renote_id is None,
            n.cw is None,
            n.uri is None,
            n.renote_uri is None,
            n.host is None,
            n.renote_count == 0,
            n.replies_count == 0,
            n.reactions@.len() == 0,
            n.tags@.len() == 0,
            n.file_ids@.len() == 0,
            n.mentions@.len() == 0,
            !n.has_poll,
    {
        Note {
            id,
            created_at,
            reply_id: None,
            renote_id: None,
            text,
            cw: None,
            actor_id,
            renote_count: 0,
            replies_count: 0,
            reactions: Vec::new(),
            visibility,
            uri: None,
            renote_uri: None,
            file_ids: Vec::new(),
            visible_user_ids: Vec::new(),
            mentions: Vec::new(),
            emojis: Vec::new(),
            tags: Vec::new(),
            has_poll: false,
            host: None,
            reply_actor_id: None,
            renote_actor_id: None,
        }
    }

    /// The total number of reactions on the note.
    pub open spec fn spec_total_reactions(&self) -> int {
        sum(reaction_counts(self.reactions@))
    }

    /// The total number of reactions on the note (each running total must
    /// fit an `i32`).
    pub fn total_reactions(&self) -> (t: i32)
        requires
            sums_fit_i32(reaction_counts(self.reactions@)),
        ensures
            t == self.spec_total_reactions(),
    {
        let ghost s = reaction_counts(self.reactions@);
        let mut t: i32 = 0;
        let mut i: usize = 0;
        assert(s.take(0) =~= Seq::<int>::empty());
        while i < self.reactions.len()
            invariant
                s == reaction_counts(self.reactions@),
                sums_fit_i32(s),
                i <= s.len(),
                t == sum(s.take(i as int)),
            decreases s.len() - i,
        {
            assert(s.take(i + 1).drop_last() =~= s.take(i as int));
            assert(i32::MIN <= sum(s.take(i + 1)) <= i32::MAX);
            t = t + self.reactions[i].1;
            i = i + 1;
        }
        assert(s.take(s.len() as int) =~= s);
        t
    }
}

/// A user, local or remote.
#[derive(Clone, Debug)]
pub struct Actor {
    pub id: u128,
    pub created_at: Timestamp,
    pub updated_at: Option<Timestamp>,
    pub username: String,
    pub username_lower: String,
    pub name: Option<String>,
    pub bio: Option<String>,
    pub followers_count: i32,
    pub following_count: i32,
    pub notes_count: i32,
    pub avatar_url: Option<String>,
    pub banner_url: Option<String>,
    pub is_suspended: bool,
    pub is_locked: bool,
    pub is_bot: bool,
    pub is_admin: bool,
    /// The host of a remote actor; `None` for a local one.
    pub host: Option<String>,
    pub inbox: Option<String>,
    pub shared_inbox: Option<String>,
    pub featured: Option<String>,
    pub uri: Option<String>,
    pub public_key: Option<String>,
    pub private_key: Option<String>,
    pub token: Option<String>,
    pub password_hash: Option<String>,
    pub email: Option<String>,
}

/// The URL of a local user: `{instance}/users/{username}`.
pub open spec fn user_url(instance_url: Seq<char>, username: Seq<char>) -> Seq<char> {
    instance_url + "/users/"@ + username
}

/// `{instance}/users/{username}`.
pub fn make_user_url(instance_url: &str, username: &str) -> (r: String)
    ensures
        r@ == user_url(instance_url@, username@),
{
    let mut r = String::from_str(instance_url);
    r.append("/users/");
    r.append(username);
    r
}

impl Actor {
    /// The actor lives on this instance.
    pub open spec fn spec_is_local(&self) -> bool {
        self.host is None
    }

    /// Whether the actor lives on this instance.
    pub fn is_local(&self) -> (r: bool)
        ensures
            r == self.spec_is_local(),
    {
        self.host.is_none()
    }

    /// The ActivityPub id of the actor: its stored URI, or the local user URL.
    pub open spec fn spec_actor_uri(&self, instance_url: Seq<char>) -> Seq<char> {
        match self.uri {
            Some(u) => u@,
            None => user_url(instance_url, self.username@),
        }
    }

    /// The ActivityPub id of the actor.
    pub fn actor_uri(&self, instance_url: &str) -> (r: String)
        ensures
            r@ == self.spec_actor_uri(instance_url@),
    {
        match &self.uri {
            Some(u) => u.clone(),
            None => make_user_url(instance_url, self.username.as_str()),
        }
    }
}

} // verus!
