//! Statuses (notes) through the client API.
use vstd::prelude::*;
use crate::error::{AppError, ErrorKind, err};
use crate::ids::{parse_ulid, ulid_parsed};
use crate::models::{Note, NoteVisibility};
use crate::api::timeline::visibility_name;
use crate::text::{decimal, push_decimal};
use crate::time::Timestamp;

verus! {

/// Paging of a conversation.
#[derive(Clone, Debug)]
pub struct ConversationQuery {
    pub limit: Option<usize>,
    pub offset: Option<usize>,
}

/// Paging of a note's replies.
#[derive(Clone, Debug)]
pub struct RepliesQuery {
    pub limit: Option<usize>,
    pub since_id: Option<String>,
    pub until_id: Option<String>,
}

/// Paging of a note's renotes.
#[derive(Clone, Debug)]
pub struct RenotesQuery {
    pub limit: Option<usize>,
    pub since_id: Option<String>,
    pub until_id: Option<String>,
}

/// Listing of mentions of the viewer.
#[derive(Clone, Debug)]
pub struct MentionsQuery {
    pub limit: Option<usize>,
    pub following: Option<bool>,
    pub visibility: Option<String>,
}

/// Paging of a note's children.
#[derive(Clone, Debug)]
pub struct ChildrenQuery {
    pub limit: Option<usize>,
    pub since_id: Option<String>,
    pub until_id: Option<String>,
}

/// A reaction to a note.
#[derive(Clone, Debug)]
pub struct ReactQuery {
    pub emoji: String,
}

/// Paging of the viewer's favourites.
#[derive(Clone, Debug)]
pub struct FavoritesQuery {
    pub limit: Option<usize>,
    pub since_id: Option<String>,
    pub until_id: Option<String>,
}

/// A new status.
#[derive(Clone, Debug)]
pub struct CreateStatusRequest {
    pub status: Option<String>,
    pub in_reply_to_id: Option<String>,
    pub sensitive: Option<bool>,
    pub spoiler_text: Option<String>,
    pub visibility: Option<String>,
    pub scheduled_at: Option<String>,
}

/// A search of notes by tag.
#[derive(Clone, Debug)]
pub struct SearchByTagQuery {
    pub tag: String,
    pub limit: Option<usize>,
    pub since_id: Option<String>,
    pub until_id: Option<String>,
    pub reply: Option<bool>,
    pub renote: Option<bool>,
    pub with_files: Option<bool>,
    pub poll: Option<bool>,
}

/// The visibility a client names: `public`, `unlisted` (home), `private`
/// (followers) or `direct` (specified); anything else, or nothing, is public.
pub open spec fn named_visibility(v: Option<Seq<char>>) -> NoteVisibility {
    match v {
        Some(s) => if s == "public"@ {
            NoteVisibility::Public
        } else if s == "unlisted"@ {
            NoteVisibility::Home
        } else if s == "private"@ {
            NoteVisibility::Followers
        } else if s == "direct"@ {
            NoteVisibility::Specified
        } else {
            NoteVisibility::Public
        },
        None => NoteVisibility::Public,
    }
}

/// The names a client uses for visibilities are read back as the
/// visibilities that status answers call by them (`visibility_name`:
/// `public`, `unlisted`, `private`, `direct`), and only a name that none of
/// them has, or no name, gives `Public`.
pub proof fn lemma_named_visibility_reads_names(s: Seq<char>, w: NoteVisibility)
    ensures
        named_visibility(Some(visibility_name(w))) == w,
        s == visibility_name(w) ==> named_visibility(Some(s)) == w,
        named_visibility(Some(s)) != NoteVisibility::Public ==> visibility_name(named_visibility(Some(s))) == s,
        named_visibility(Some(s)) == NoteVisibility::Public ==> (s == visibility_name(NoteVisibility::Public)
            || forall|u: NoteVisibility| visibility_name(u) != s),
        named_visibility(None) == NoteVisibility::Public,
{
    reveal_visibility_names();
}

/// The four visibility names, told apart by their first letter.
proof fn reveal_visibility_names()
    ensures
        "public"@.len() == 6 && "public"@[0] == 'p' && "public"@[1] == 'u',
        "unlisted"@.len() == 8 && "unlisted"@[0] == 'u',
        "private"@.len() == 7 && "private"@[0] == 'p' && "private"@[1] == 'r',
        "direct"@.len() == 6 && "direct"@[0] == 'd',
{
    reveal_strlit("public");
    reveal_strlit("unlisted");
    reveal_strlit("private");
    reveal_strlit("direct");
}

/// Reads the visibility of a new status.
pub fn status_visibility(v: &Option<String>) -> (r: NoteVisibility)
    ensures
        r == named_visibility(match v {
            Some(s) => Some(s@),
            None => None,
        }),
        forall|w: NoteVisibility| (v matches Some(s) && s@ == #[trigger] visibility_name(w)) ==> r == w,
        r != NoteVisibility::Public ==> (v matches Some(s) && s@ == visibility_name(r)),
{
    proof {
        assert forall|w: NoteVisibility| (v matches Some(s) && s@ == #[trigger] visibility_name(w)) implies named_visibility(match v {
            Some(s) => Some(s@),
            None => None,
        }) == w by {
            lemma_named_visibility_reads_names(v.unwrap()@, w);
        }
        match v {
            Some(s) => lemma_named_visibility_reads_names(s@, NoteVisibility::Public),
            None => {},
        }
    }
    match v {
        Some(s) => {
            if crate::text::str_eq(s.as_str(), "public") {
                NoteVisibility::Public
            } else if crate::text::str_eq(s.as_str(), "unlisted") {
                NoteVisibility::Home
            } else if crate::text::str_eq(s.as_str(), "private") {
                NoteVisibility::Followers
            } else if crate::text::str_eq(s.as_str(), "direct") {
                NoteVisibility::Specified
            } else {
                NoteVisibility::Public
            }
        },
        None => NoteVisibility::Public,
    }
}

/// The note a new status becomes, with id `id` by `author` at `now`: its
/// text and visibility, the note it replies to (a reply id that is no ULID
/// is refused), and a content warning (the spoiler text) when the status is
/// sensitive or has one.
pub fn status_note(id: u128, now: Timestamp, author: u128, req: CreateStatusRequest) -> (r: Result<Note, AppError>)
    ensures
        (req.in_reply_to_id matches Some(t) && ulid_parsed(t@) is None) <==> (r matches Err(e) && e.is(
            ErrorKind::Validation,
            "Invalid reply ID"@,
        )),
        r matches Ok(n) ==> {
            &&& n.id == id
            &&& n.created_at == now
            &&& n.actor_id == author
            &&& n.text == req.status
            &&& n.visibility == named_visibility(match req.visibility {
                Some(s) => Some(s@),
                None => None,
            })
            &&& n.reply_id == match req.in_reply_to_id {
                Some(t) => ulid_parsed(t@),
                None => None,
            }
            &&& n.cw == if req.sensitive == Some(true) || req.spoiler_text is Some {
                req.spoiler_text
            } else {
                None
            }
        },
{
    let visibility = status_visibility(&req.visibility);
    let mut note = Note::new(id, now, author, req.status, visibility);
    if let Some(t) = &req.in_reply_to_id {
        match parse_ulid(t.as_str()) {
            Some(r) => {
                note.reply_id = Some(r);
            },
            None => {
                return Err(err(ErrorKind::Validation, "Invalid reply ID"));
            },
        }
    }
    let sensitive = match req.sensitive {
        Some(b) => b,
        None => false,
    };
    if sensitive || req.spoiler_text.is_some() {
        note.cw = req.spoiler_text;
    }
    Ok(note)
}


/// Only the author may delete a note.
pub fn check_note_owner(author_id: &str, user_id: u128) -> (r: Result<(), AppError>)
    ensures
        r is Ok <==> author_id@ == crate::ids::ulid_text(user_id),
        r matches Err(e) ==> e.is(ErrorKind::Forbidden, "Cannot delete other user's note"@),
{
    let me = crate::ids::ulid_to_string(user_id);
    if !crate::text::str_eq(author_id, me.as_str()) {
        return Err(err(ErrorKind::Forbidden, "Cannot delete other user's note"));
    }
    Ok(())
}

/// The note a renote makes: by the renoting user, without text, as visible
/// as the note renoted.
pub fn renote_note(id: u128, now: Timestamp, user_id: u128, target: &Note) -> (n: Note)
    ensures
        n.id == id,
        n.created_at == now,
        n.actor_id == user_id,
        n.text is None,
        n.visibility == target.visibility,
        n.renote_id is None,
{
    Note::new(id, now, user_id, None, target.visibility)
}

/// The most notes a tag search lists.
pub const MAX_TAG_SEARCH: usize = 100;

/// The query text of a tag search: public and home notes carrying `$tag`,
/// without replies or renotes when those are excluded, only with files or
/// polls when asked, after and before the given ids, newest first, up to
/// `$limit`.
pub open spec fn tag_search_text(q: SearchByTagQuery) -> Seq<char> {
    "SELECT * FROM note WHERE $tag INSIDE tags"@ + " AND visibility IN ['public', 'home']"@
        + (if q.reply == Some(false) { " AND reply_id IS NONE"@ } else { Seq::empty() })
        + (if q.renote == Some(false) { " AND renote_id IS NONE"@ } else { Seq::empty() })
        + (if q.with_files == Some(true) { " AND file_ids != []"@ } else { Seq::empty() })
        + (if q.poll == Some(true) { " AND poll IS NOT NONE"@ } else { Seq::empty() })
        + (if q.since_id is Some { " AND id > $since_id"@ } else { Seq::empty() })
        + (if q.until_id is Some { " AND id < $until_id"@ } else { Seq::empty() })
        + " ORDER BY created_at DESC LIMIT $limit"@
}

/// The limit of a tag search: 10 unless asked, at most 100.
pub open spec fn tag_search_limit(q: SearchByTagQuery) -> usize {
    let l = match q.limit {
        Some(l) => l,
        None => 10,
    };
    if l < MAX_TAG_SEARCH { l } else { MAX_TAG_SEARCH }
}

/// The query of a tag search and the limit bound to it.
pub fn tag_search_query(q: &SearchByTagQuery) -> (r: (String, usize))
    ensures
        r.0@ == tag_search_text(*q),
        r.1 == tag_search_limit(*q),
        r.1 <= MAX_TAG_SEARCH,
{
    let asked = match q.limit {
        Some(l) => l,
        None => 10,
    };
    let limit = if asked < MAX_TAG_SEARCH { asked } else { MAX_TAG_SEARCH };
    let mut t = String::from_str("SELECT * FROM note WHERE $tag INSIDE tags");
    t.append(" AND visibility IN ['public', 'home']");
    if q.reply == Some(false) {
        t.append(" AND reply_id IS NONE");
    }
    if q.renote == Some(false) {
        t.append(" AND renote_id IS NONE");
    }
    if q.with_files == Some(true) {
        t.append(" AND file_ids != []");
    }
    if q.poll == Some(true) {
        t.append(" AND poll IS NOT NONE");
    }
    if q.since_id.is_some() {
        t.append(" AND id > $since_id");
    }
    if q.until_id.is_some() {
        t.append(" AND id < $until_id");
    }
    t.append(" ORDER BY created_at DESC LIMIT $limit");
    assert(t@ =~= tag_search_text(*q));
    (t, limit)
}

/// The query text of the viewer's favourites: the ids given are written into
/// the text between quotes as they are, and the limit (10 unless asked) as a
/// number.
pub open spec fn favorites_text(q: FavoritesQuery) -> Seq<char> {
    "SELECT * FROM favorite WHERE user_id = $user_id"@
        + (match q.since_id { Some(s) => " AND id > '"@ + s@ + "'"@, None => Seq::empty() })
        + (match q.until_id { Some(u) => " AND id < '"@ + u@ + "'"@, None => Seq::empty() })
        + " ORDER BY created_at DESC LIMIT "@ + decimal((match q.limit { Some(l) => l, None => 10 }) as nat)
}

/// Builds the query of the viewer's favourites.
pub fn favorites_query(q: &FavoritesQuery) -> (r: String)
    ensures
        r@ == favorites_text(*q),
{
    let mut t = String::from_str("SELECT * FROM favorite WHERE user_id = $user_id");
    if let Some(s) = &q.since_id {
        t.append(" AND id > '");
        t.append(s.as_str());
        t.append("'");
    }
    if let Some(u) = &q.until_id {
        t.append(" AND id < '");
        t.append(u.as_str());
        t.append("'");
    }
    t.append(" ORDER BY created_at DESC LIMIT ");
    let limit: usize = match q.limit {
        Some(l) => l,
        None => 10,
    };
    push_decimal(&mut t, limit as u64);
    assert(t@ =~= favorites_text(*q));
    t
}

/// The walk up a conversation: from a note through the notes it replies to,
/// skipping the first `offset` and taking up to `limit` (at least one).
#[derive(Clone, Copy, Debug)]
pub struct ConversationWalk {
    pub offset: usize,
    pub limit: usize,
    pub skipped: usize,
    pub taken: usize,
}

/// What the walk does with the next note up the chain.
#[derive(Clone, Copy, Debug, PartialEq, Eq, Structural)]
pub enum WalkAction {
    /// Skip the note and go on.
    Skip,
    /// Take the note; stop after it when `stop`.
    Take { stop: bool },
}

impl ConversationWalk {
    /// Skipped no more than asked; the walk is over once it has taken a note
    /// and reached its limit.
    pub open spec fn wf(self) -> bool {
        self.skipped <= self.offset && (self.taken <= self.limit || (self.limit == 0 && self.taken == 1))
            && (self.taken > 0 ==> self.skipped == self.offset)
    }

    /// The walk has taken all it may.
    pub open spec fn finished(self) -> bool {
        self.taken > 0 && self.taken >= self.limit
    }

    /// A walk that skips `offset` notes (none unless asked) and takes up to
    /// `limit` (10 unless asked).
    pub fn new(q: &ConversationQuery) -> (w: Self)
        ensures
            w.wf(),
            w.offset == (match q.offset { Some(o) => o, None => 0 }),
            w.limit == (match q.limit { Some(l) => l, None => 10 }),
            w.skipped == 0,
            w.taken == 0,
    {
        ConversationWalk {
            offset: match q.offset {
                Some(o) => o,
                None => 0,
            },
            limit: match q.limit {
                Some(l) => l,
                None => 10,
            },
            skipped: 0,
            taken: 0,
        }
    }

    /// Decides on the next note found up the chain: skipped while fewer than
    /// `offset` were skipped, else taken, the walk stopping once it has taken
    /// `limit` notes (or one, for a limit of 0).
    pub fn on_note(&mut self) -> (a: WalkAction)
        requires
            old(self).wf(),
            !old(self).finished(),
        ensures
            final(self).wf(),
            final(self).offset == old(self).offset,
            final(self).limit == old(self).limit,
            if old(self).skipped < old(self).offset {
                a == WalkAction::Skip && final(self).skipped == old(self).skipped + 1 && final(self).taken == old(self).taken
            } else {
                a == (WalkAction::Take { stop: final(self).finished() }) && final(self).skipped == old(self).skipped
                    && final(self).taken == old(self).taken + 1
            },
    {
        if self.skipped < self.offset {
            self.skipped = self.skipped + 1;
            WalkAction::Skip
        } else {
            self.taken = self.taken + 1;
            WalkAction::Take { stop: self.taken >= self.limit }
        }
    }
}

/// Only the author pins (`pin`) or unpins a note.
pub fn check_pin_owner(author_id: u128, user_id: u128, pin: bool) -> (r: Result<(), AppError>)
    ensures
        r is Ok <==> author_id == user_id,
        r matches Err(e) ==> e.is(
            ErrorKind::Forbidden,
            if pin { "Cannot pin other user's note"@ } else { "Cannot unpin other user's note"@ },
        ),
{
    if author_id != user_id {
        if pin {
            return Err(err(ErrorKind::Forbidden, "Cannot pin other user's note"));
        } else {
            return Err(err(ErrorKind::Forbidden, "Cannot unpin other user's note"));
        }
    }
    Ok(())
}

/// Refuses a second reaction with the same emoji.
pub fn check_not_reacted(already: bool) -> (r: Result<(), AppError>)
    ensures
        r is Ok <==> !already,
        r matches Err(e) ==> e.is(ErrorKind::Conflict, "Already reacted with this emoji"@),
{
    if already {
        return Err(err(ErrorKind::Conflict, "Already reacted with this emoji"));
    }
    Ok(())
}

} // verus!