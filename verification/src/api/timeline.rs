//! Timelines and the status form of a note.
use vstd::prelude::*;
use crate::ids::{ulid_text, ulid_to_string};
use crate::json::{Json, JsonV, json_view, lemma_json_view_compound, entries_view};
use crate::models::{Note, NoteVisibility, reaction_counts, sums_fit_i32};
use crate::time::{rfc3339_text, to_rfc3339};

verus! {

/// Paging of a timeline.
#[derive(Clone, Debug)]
pub struct TimelineQuery {
    pub max_id: Option<String>,
    pub since_id: Option<String>,
    pub min_id: Option<String>,
    pub limit: Option<u32>,
}

/// A note as a client sees it in a timeline.
#[derive(Debug)]
pub struct StatusResponse {
    pub id: String,
    pub uri: String,
    pub url: Option<String>,
    pub account_id: String,
    pub content: String,
    pub created_at: String,
    pub in_reply_to_id: Option<String>,
    pub in_reply_to_account_id: Option<String>,
    pub reblog: Option<Box<StatusResponse>>,
    pub sensitive: bool,
    pub spoiler_text: String,
    pub visibility: String,
    pub replies_count: i32,
    pub reblogs_count: i32,
    pub favourites_count: i32,
    pub favourited: bool,
    pub reblogged: bool,
    pub muted: bool,
    pub bookmarked: bool,
    pub pinned: bool,
    pub media_attachments: Vec<Json>,
    pub mentions: Vec<Json>,
    pub tags: Vec<Json>,
    pub emojis: Vec<Json>,
}

/// The client's name of a visibility.
pub open spec fn visibility_name(v: NoteVisibility) -> Seq<char> {
    match v {
        NoteVisibility::Public => "public"@,
        NoteVisibility::Home => "unlisted"@,
        NoteVisibility::Followers => "private"@,
        NoteVisibility::Specified => "direct"@,
    }
}

/// The client's name of a visibility.
pub fn visibility_text(v: NoteVisibility) -> (r: String)
    ensures
        r@ == visibility_name(v),
{
    match v {
        NoteVisibility::Public => String::from_str("public"),
        NoteVisibility::Home => String::from_str("unlisted"),
        NoteVisibility::Followers => String::from_str("private"),
        NoteVisibility::Specified => String::from_str("direct"),
    }
}

/// A tag of a status: its name and its page.
pub open spec fn status_tag_view(instance_url: Seq<char>, tag: Seq<char>) -> JsonV {
    JsonV::Object(seq![("name"@, JsonV::Str(tag)), ("url"@, JsonV::Str(instance_url + "/tags/"@ + tag))])
}

fn status_tag(instance_url: &str, tag: &String) -> (j: Json)
    ensures
        json_view(j) == status_tag_view(instance_url@, tag@),
{
    let mut url = String::from_str(instance_url);
    url.append("/tags/");
    url.append(tag.as_str());
    let j = Json::Object(vec![(String::from_str("name"), Json::Str(tag.clone())), (String::from_str("url"), Json::Str(url))]);
    proof {
        lemma_json_view_compound(j);
        assert(entries_view(j->Object_0@) =~= status_tag_view(instance_url@, tag@)->Object_0);
    }
    j
}

/// The URI of a note: its stored one, else `{instance}/notes/{id}`.
pub open spec fn status_uri(note: Note, instance_url: Seq<char>) -> Seq<char> {
    match note.uri {
        Some(u) => u@,
        None => instance_url + "/notes/"@ + ulid_text(note.id),
    }
}

/// An optional id as text.
pub open spec fn id_text(id: Option<u128>) -> Option<Seq<char>> {
    match id {
        Some(i) => Some(ulid_text(i)),
        None => None,
    }
}

fn id_string(id: Option<u128>) -> (r: Option<String>)
    ensures
        match r {
            Some(s) => id_text(id) == Some(s@),
            None => id is None,
        },
{
    match id {
        Some(i) => Some(ulid_to_string(i)),
        None => None,
    }
}

/// The status form of a note: counts from the note, no viewer state, no
/// reblog resolved, its tags as links (the reaction total must fit an `i32`
/// at every step).
pub fn to_status_response(note: &Note, instance_url: &str) -> (r: StatusResponse)
    requires
        note.created_at.wf(),
        sums_fit_i32(reaction_counts(note.reactions@)),
    ensures
        r.id@ == ulid_text(note.id),
        r.uri@ == status_uri(*note, instance_url@),
        r.url matches Some(u) && u@ == status_uri(*note, instance_url@),
        r.account_id@ == ulid_text(note.actor_id),
        r.content@ == match note.text {
            Some(t) => t@,
            None => Seq::<char>::empty(),
        },
        r.created_at@ == rfc3339_text(note.created_at.secs as int, note.created_at.nanos as int),
        match r.in_reply_to_id {
            Some(s) => id_text(note.reply_id) == Some(s@),
            None => note.reply_id is None,
        },
        match r.in_reply_to_account_id {
            Some(s) => id_text(note.reply_actor_id) == Some(s@),
            None => note.reply_actor_id is None,
        },
        r.reblog is None,
        r.sensitive == note.cw is Some,
        r.spoiler_text@ == match note.cw {
            Some(c) => c@,
            None => Seq::<char>::empty(),
        },
        r.visibility@ == visibility_name(note.visibility),
        r.replies_count == note.replies_count,
        r.reblogs_count == note.renote_count,
        r.favourites_count == note.spec_total_reactions(),
        !r.favourited && !r.reblogged && !r.muted && !r.bookmarked && !r.pinned,
        r.media_attachments@.len() == 0 && r.mentions@.len() == 0 && r.emojis@.len() == 0,
        r.tags@.len() == note.tags@.len(),
        forall|k: int|
            0 <= k < note.tags@.len() ==> json_view(#[trigger] r.tags@[k]) == status_tag_view(
                instance_url@,
                note.tags@[k]@,
            ),
{
    let uri = match &note.uri {
        Some(u) => u.clone(),
        None => {
            let mut s = String::from_str(instance_url);
            s.append("/notes/");
            let t = ulid_to_string(note.id);
            s.append(t.as_str());
            s
        },
    };
    let mut tags: Vec<Json> = Vec::new();
    let mut k: usize = 0;
    while k < note.tags.len()
        invariant
            k <= note.tags@.len(),
            tags@.len() == k,
            forall|m: int|
                0 <= m < k ==> json_view(#[trigger] tags@[m]) == status_tag_view(instance_url@, note.tags@[m]@),
        decreases note.tags@.len() - k,
    {
        tags.push(status_tag(instance_url, &note.tags[k]));
        k = k + 1;
    }
    StatusResponse {
        id: ulid_to_string(note.id),
        uri: uri.clone(),
        url: Some(uri),
        account_id: ulid_to_string(note.actor_id),
        content: match &note.text {
            Some(t) => t.clone(),
            None => String::new(),
        },
        created_at: to_rfc3339(note.created_at),
        in_reply_to_id: id_string(note.reply_id),
        in_reply_to_account_id: id_string(note.reply_actor_id),
        reblog: None,
        sensitive: note.cw.is_some(),
        spoiler_text: match &note.cw {
            Some(c) => c.clone(),
            None => String::new(),
        },
        visibility: visibility_text(note.visibility),
        replies_count: note.replies_count,
        reblogs_count: note.renote_count,
        favourites_count: note.total_reactions(),
        favourited: false,
        reblogged: false,
        muted: false,
        bookmarked: false,
        pinned: false,
        media_attachments: Vec::new(),
        mentions: Vec::new(),
        tags,
        emojis: Vec::new(),
    }
}

/// The most notes a timeline page lists.
pub const MAX_TIMELINE: u32 = 40;

/// The page size of a timeline: 20 unless asked, at most 40.
pub open spec fn timeline_limit_spec(q: TimelineQuery) -> u32 {
    let l = match q.limit {
        Some(l) => l,
        None => 20,
    };
    if l < MAX_TIMELINE { l } else { MAX_TIMELINE }
}

/// The page size of a timeline.
pub fn timeline_limit(q: &TimelineQuery) -> (r: u32)
    ensures
        r == timeline_limit_spec(*q),
        r <= MAX_TIMELINE,
{
    let l = match q.limit {
        Some(l) => l,
        None => 20,
    };
    if l < MAX_TIMELINE { l } else { MAX_TIMELINE }
}

/// The ids that bound a list timeline: `since_id` and `max_id` where they are
/// ULIDs; others are ignored.
pub fn list_page_bounds(q: &TimelineQuery) -> (r: (Option<u128>, Option<u128>))
    ensures
        r.0 == match q.since_id {
            Some(s) => crate::ids::ulid_parsed(s@),
            None => None,
        },
        r.1 == match q.max_id {
            Some(m) => crate::ids::ulid_parsed(m@),
            None => None,
        },
{
    let since = match &q.since_id {
        Some(s) => crate::ids::parse_ulid(s.as_str()),
        None => None,
    };
    let until = match &q.max_id {
        Some(m) => crate::ids::parse_ulid(m.as_str()),
        None => None,
    };
    (since, until)
}

} // verus!
