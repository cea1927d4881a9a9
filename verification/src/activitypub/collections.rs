//! The actor collections (outbox, followers, following), paged.
use vstd::prelude::*;
use crate::activitypub::notes::{outbox_activity_view, note_to_activity};
use crate::ids::{ulid_text, ulid_to_string, parse_ulid, ulid_parsed};
use crate::json::{Json, JsonV, json_view, jstr, lemma_json_view_compound, entries_view, elements_view};
use crate::models::{Note, user_url, make_user_url};
use crate::text::{split_on, str_chars, split_chars, chars_to_string, views, lemma_split_on_nonempty, string_views};

verus! {

/// Query of the followers collection.
#[derive(Clone, Debug)]
pub struct FollowersQuery {
    pub page: Option<bool>,
    pub cursor: Option<String>,
}

/// Query of the following collection.
#[derive(Clone, Debug)]
pub struct FollowingQuery {
    pub page: Option<bool>,
    pub cursor: Option<String>,
}

/// Query of the outbox.
#[derive(Clone, Debug)]
pub struct OutboxQuery {
    pub page: Option<bool>,
    pub since_id: Option<String>,
    pub until_id: Option<String>,
}

/// An ordered collection's summary.
#[derive(Clone, Debug)]
pub struct OrderedCollection {
    pub context: String,
    pub id: String,
    pub collection_type: String,
    pub total_items: i32,
    pub first: Option<String>,
}

/// One page of an ordered collection of actor URLs.
#[derive(Clone, Debug)]
pub struct OrderedCollectionPage {
    pub context: String,
    pub id: String,
    pub page_type: String,
    pub part_of: String,
    pub total_items: i32,
    pub ordered_items: Vec<String>,
    pub next: Option<String>,
    pub prev: Option<String>,
}

/// How many actors a followers or following page lists.
pub const ACTOR_PAGE_SIZE: usize = 10;

/// How many activities an outbox page lists.
pub const OUTBOX_PAGE_SIZE: usize = 20;

/// The first `limit` elements of `s` (all of them when it is shorter).
pub open spec fn page_of<A>(s: Seq<A>, limit: nat) -> Seq<A> {
    if s.len() > limit {
        s.take(limit as int)
    } else {
        s
    }
}

/// The last `/`-separated piece of a text.
pub open spec fn last_segment(s: Seq<char>) -> Seq<char> {
    split_on(s, '/').last()
}

fn get_last_segment(s: &String) -> (r: String)
    ensures
        r@ == last_segment(s@),
{
    let chars = str_chars(s.as_str());
    let parts = split_chars(&chars, '/');
    proof {
        lemma_split_on_nonempty(s@, '/');
    }
    let n = parts.len();
    assert(views(parts@)[n - 1] == parts@[n - 1]@);
    chars_to_string(&parts[n - 1])
}

/// The summary of an actor collection at `url` with `count` members.
pub open spec fn collection_view(url: Seq<char>, count: int) -> JsonV {
    JsonV::Object(
        seq![
            ("@context"@, JsonV::Str("https://www.w3.org/ns/activitystreams"@)),
            ("id"@, JsonV::Str(url)),
            ("type"@, JsonV::Str("OrderedCollection"@)),
            ("totalItems"@, JsonV::Int(count)),
            ("first"@, JsonV::Str(url + "?page=true"@)),
        ],
    )
}

fn entry(k: &str, v: Json) -> (e: (String, Json))
    ensures
        e.0@ == k@,
        e.1 == v,
{
    (String::from_str(k), v)
}

fn with_suffix(base: &str, suffix: &str) -> (r: String)
    ensures
        r@ == base@ + suffix@,
{
    let mut r = String::from_str(base);
    r.append(suffix);
    r
}

/// The summary of the followers or following collection at `url`.
pub fn actor_collection(url: &str, count: i32) -> (j: Json)
    ensures
        json_view(j) == collection_view(url@, count as int),
{
    let j = Json::Object(
        vec![
            entry("@context", jstr("https://www.w3.org/ns/activitystreams")),
            entry("id", jstr(url)),
            entry("type", jstr("OrderedCollection")),
            entry("totalItems", Json::Int(count as i64)),
            entry("first", Json::Str(with_suffix(url, "?page=true"))),
        ],
    );
    proof {
        lemma_json_view_compound(j);
        assert(entries_view(j->Object_0@) =~= collection_view(url@, count as int)->Object_0);
    }
    j
}

/// The actor URLs listed on a page of ids fetched with one extra row.
pub open spec fn page_items(ids: Seq<Seq<char>>, instance_url: Seq<char>) -> Seq<Seq<char>> {
    Seq::new(
        page_of(ids, ACTOR_PAGE_SIZE as nat).len(),
        |k: int| user_url(instance_url, page_of(ids, ACTOR_PAGE_SIZE as nat)[k]),
    )
}

/// A page of the followers or following collection at `url`, from the
/// member ids fetched (one more than a page, to tell whether more follow):
/// the first ten as actor URLs, and a `next` link with the last one's id as
/// cursor when more follow.
pub open spec fn actor_page_view(ids: Seq<Seq<char>>, instance_url: Seq<char>, url: Seq<char>, count: int) -> JsonV {
    let items = page_items(ids, instance_url);
    JsonV::Object(
        seq![
            ("@context"@, JsonV::Str("https://www.w3.org/ns/activitystreams"@)),
            ("id"@, JsonV::Str(url + "?page=true"@)),
            ("type"@, JsonV::Str("OrderedCollectionPage"@)),
            ("partOf"@, JsonV::Str(url)),
            ("totalItems"@, JsonV::Int(count)),
            ("orderedItems"@, JsonV::Array(Seq::new(items.len(), |k: int| JsonV::Str(items[k])))),
            (
                "next"@,
                if ids.len() > ACTOR_PAGE_SIZE && items.len() > 0 {
                    JsonV::Str(url + "?page=true&cursor="@ + last_segment(items.last()))
                } else {
                    JsonV::Null
                },
            ),
        ],
    )
}

/// Builds a page of the followers or following collection.
pub fn actor_collection_page(ids: &Vec<String>, instance_url: &str, url: &str, count: i32) -> (j: Json)
    ensures
        json_view(j) == actor_page_view(string_views(ids@), instance_url@, url@, count as int),
{
    let ghost sv = string_views(ids@);
    let has_more = ids.len() > ACTOR_PAGE_SIZE;
    let n: usize = if has_more { ACTOR_PAGE_SIZE } else { ids.len() };
    let ghost items = page_items(sv, instance_url@);
    assert(items.len() == n);
    let mut urls: Vec<String> = Vec::new();
    let mut k: usize = 0;
    while k < n
        invariant
            sv == string_views(ids@),
            items == page_items(sv, instance_url@),
            n == items.len(),
            n <= ids@.len(),
            k <= n,
            urls@.len() == k,
            forall|m: int| 0 <= m < k ==> (#[trigger] urls@[m])@ == items[m],
        decreases n - k,
    {
        assert(sv[k as int] == ids@[k as int]@);
        urls.push(make_user_url(instance_url, ids[k].as_str()));
        k = k + 1;
    }
    let next = if has_more && urls.len() > 0 {
        let seg = get_last_segment(&urls[urls.len() - 1]);
        let mut link = with_suffix(url, "?page=true&cursor=");
        link.append(seg.as_str());
        Json::Str(link)
    } else {
        Json::Null
    };
    let mut arr: Vec<Json> = Vec::new();
    let mut m: usize = 0;
    while m < urls.len()
        invariant
            m <= urls@.len(),
            arr@.len() == m,
            forall|x: int| 0 <= x < m ==> json_view(#[trigger] arr@[x]) == JsonV::Str(urls@[x]@),
        decreases urls@.len() - m,
    {
        arr.push(Json::Str(urls[m].clone()));
        m = m + 1;
    }
    let a = Json::Array(arr);
    proof {
        lemma_json_view_compound(a);
        assert(elements_view(a->Array_0@) =~= Seq::new(items.len(), |x: int| JsonV::Str(items[x])));
    }
    let j = Json::Object(
        vec![
            entry("@context", jstr("https://www.w3.org/ns/activitystreams")),
            entry("id", Json::Str(with_suffix(url, "?page=true"))),
            entry("type", jstr("OrderedCollectionPage")),
            entry("partOf", jstr(url)),
            entry("totalItems", Json::Int(count as i64)),
            entry("orderedItems", a),
            entry("next", next),
        ],
    );
    proof {
        lemma_json_view_compound(j);
        assert(entries_view(j->Object_0@) =~= actor_page_view(sv, instance_url@, url@, count as int)->Object_0);
    }
    j
}

/// A cursor from a query: the ULID the text holds, or none when it holds
/// none.
pub fn parse_cursor(text: &Option<String>) -> (r: Option<u128>)
    ensures
        r == match *text {
            Some(t) => ulid_parsed(t@),
            None => None,
        },
{
    match text {
        Some(t) => parse_ulid(t.as_str()),
        None => None,
    }
}

/// The query that fetches an outbox page: the actor's public and home notes,
/// after `since` and before `until` when given, newest first.
pub open spec fn outbox_query_text(since: Option<u128>, until: Option<u128>) -> Seq<char> {
    "SELECT * FROM note WHERE actor_id = user:$user_id AND visibility IN ['public', 'home']"@ + (match since {
        Some(s) => " AND id > '"@ + ulid_text(s) + "'"@,
        None => Seq::empty(),
    }) + (match until {
        Some(u) => " AND id < '"@ + ulid_text(u) + "'"@,
        None => Seq::empty(),
    }) + " ORDER BY id DESC LIMIT $limit"@
}

/// Builds the outbox page query.
pub fn outbox_query(since: Option<u128>, until: Option<u128>) -> (r: String)
    ensures
        r@ == outbox_query_text(since, until),
{
    let mut q = String::from_str(
        "SELECT * FROM note WHERE actor_id = user:$user_id AND visibility IN ['public', 'home']",
    );
    let ghost base = q@;
    if let Some(s) = since {
        q.append(" AND id > '");
        let t = ulid_to_string(s);
        q.append(t.as_str());
        q.append("'");
    }
    let ghost after_since = q@;
    assert(after_since =~= base + match since {
        Some(s) => " AND id > '"@ + ulid_text(s) + "'"@,
        None => Seq::<char>::empty(),
    });
    if let Some(u) = until {
        q.append(" AND id < '");
        let t = ulid_to_string(u);
        q.append(t.as_str());
        q.append("'");
    }
    let ghost after_until = q@;
    assert(after_until =~= after_since + match until {
        Some(u) => " AND id < '"@ + ulid_text(u) + "'"@,
        None => Seq::<char>::empty(),
    });
    q.append(" ORDER BY id DESC LIMIT $limit");
    assert(q@ =~= outbox_query_text(since, until));
    q
}

/// The summary of an outbox with `count` notes.
pub open spec fn outbox_collection_view(outbox_url: Seq<char>, count: int) -> JsonV {
    JsonV::Object(
        seq![
            ("@context"@, JsonV::Str("https://www.w3.org/ns/activitystreams"@)),
            ("id"@, JsonV::Str(outbox_url)),
            ("type"@, JsonV::Str("OrderedCollection"@)),
            ("totalItems"@, JsonV::Int(count)),
            ("first"@, JsonV::Str(outbox_url + "?page=true"@)),
            ("last"@, JsonV::Str(outbox_url + "?page=true&since_id=00000000000000000000000000"@)),
        ],
    )
}

/// The summary of an outbox.
pub fn outbox_collection(outbox_url: &str, count: i32) -> (j: Json)
    ensures
        json_view(j) == outbox_collection_view(outbox_url@, count as int),
{
    let j = Json::Object(
        vec![
            entry("@context", jstr("https://www.w3.org/ns/activitystreams")),
            entry("id", jstr(outbox_url)),
            entry("type", jstr("OrderedCollection")),
            entry("totalItems", Json::Int(count as i64)),
            entry("first", Json::Str(with_suffix(outbox_url, "?page=true"))),
            entry("last", Json::Str(with_suffix(outbox_url, "?page=true&since_id=00000000000000000000000000"))),
        ],
    );
    proof {
        lemma_json_view_compound(j);
        assert(entries_view(j->Object_0@) =~= outbox_collection_view(outbox_url@, count as int)->Object_0);
    }
    j
}


/// An outbox page, from the notes fetched (one more than a page, to tell
/// whether more follow): the first twenty as `Create` activities (oldest
/// first when paging forward with `since_id`), a `next` link before the last
/// one when more follow, and a `prev` link after the first one.
pub open spec fn outbox_page_view(
    notes: Seq<Note>,
    actor_url: Seq<char>,
    instance_url: Seq<char>,
    outbox_url: Seq<char>,
    count: int,
    since_given: bool,
) -> JsonV {
    let page = page_of(notes, OUTBOX_PAGE_SIZE as nat);
    let acts = Seq::new(page.len(), |k: int| outbox_activity_view(page[k], actor_url, instance_url));
    JsonV::Object(
        seq![
            ("@context"@, JsonV::Str("https://www.w3.org/ns/activitystreams"@)),
            ("id"@, JsonV::Str(outbox_url + "?page=true"@)),
            ("type"@, JsonV::Str("OrderedCollectionPage"@)),
            ("partOf"@, JsonV::Str(outbox_url)),
            ("totalItems"@, JsonV::Int(count)),
            ("orderedItems"@, JsonV::Array(if since_given { acts.reverse() } else { acts })),
            (
                "next"@,
                if notes.len() > OUTBOX_PAGE_SIZE && page.len() > 0 {
                    JsonV::Str(outbox_url + "?page=true&until_id="@ + ulid_text(page.last().id))
                } else {
                    JsonV::Null
                },
            ),
            (
                "prev"@,
                if page.len() > 0 {
                    JsonV::Str(outbox_url + "?page=true&since_id="@ + ulid_text(page[0].id))
                } else {
                    JsonV::Null
                },
            ),
        ],
    )
}

/// Builds an outbox page.
pub fn outbox_page(
    notes: &Vec<Note>,
    actor_url: &str,
    instance_url: &str,
    outbox_url: &str,
    count: i32,
    since_given: bool,
) -> (j: Json)
    requires
        forall|k: int| 0 <= k < notes@.len() ==> (#[trigger] notes@[k]).created_at.wf(),
    ensures
        json_view(j) == outbox_page_view(notes@, actor_url@, instance_url@, outbox_url@, count as int, since_given),
{
    let has_more = notes.len() > OUTBOX_PAGE_SIZE;
    let n: usize = if has_more { OUTBOX_PAGE_SIZE } else { notes.len() };
    let ghost page = page_of(notes@, OUTBOX_PAGE_SIZE as nat);
    let ghost acts = Seq::new(page.len(), |k: int| outbox_activity_view(page[k], actor_url@, instance_url@));
    assert(page.len() == n);
    let mut items: Vec<Json> = Vec::new();
    let mut k: usize = 0;
    while k < n
        invariant
            page == page_of(notes@, OUTBOX_PAGE_SIZE as nat),
            acts == Seq::new(page.len(), |k: int| outbox_activity_view(page[k], actor_url@, instance_url@)),
            n == page.len(),
            n <= notes@.len(),
            forall|k: int| 0 <= k < notes@.len() ==> (#[trigger] notes@[k]).created_at.wf(),
            k <= n,
            items@.len() == k,
            forall|m: int| 0 <= m < k ==> json_view(#[trigger] items@[m]) == acts[m],
        decreases n - k,
    {
        assert(page[k as int] == notes@[k as int]);
        items.push(note_to_activity(&notes[k], actor_url, instance_url));
        k = k + 1;
    }
    let ghost ordered = if since_given { acts.reverse() } else { acts };
    let ordered_items = if since_given {
        let mut rev: Vec<Json> = Vec::new();
        let mut m: usize = items.len();
        let mut src = items;
        while m > 0
            invariant
                src@.len() == m,
                m <= n,
                rev@.len() == n - m,
                forall|x: int| 0 <= x < m ==> json_view(#[trigger] src@[x]) == acts[x],
                forall|x: int| 0 <= x < n - m ==> json_view(#[trigger] rev@[x]) == acts[n - 1 - x],
            decreases m,
        {
            let last = src.pop().unwrap();
            rev.push(last);
            m = m - 1;
        }
        assert forall|x: int| 0 <= x < rev@.len() implies json_view(#[trigger] rev@[x]) == ordered[x] by {}
        rev
    } else {
        items
    };
    let oi = Json::Array(ordered_items);
    proof {
        lemma_json_view_compound(oi);
        assert(elements_view(oi->Array_0@) =~= ordered);
    }
    let next = if has_more && n > 0 {
        let mut link = with_suffix(outbox_url, "?page=true&until_id=");
        let t = ulid_to_string(notes[n - 1].id);
        link.append(t.as_str());
        Json::Str(link)
    } else {
        Json::Null
    };
    let prev = if n > 0 {
        let mut link = with_suffix(outbox_url, "?page=true&since_id=");
        let t = ulid_to_string(notes[0].id);
        link.append(t.as_str());
        Json::Str(link)
    } else {
        Json::Null
    };
    let j = Json::Object(
        vec![
            entry("@context", jstr("https://www.w3.org/ns/activitystreams")),
            entry("id", Json::Str(with_suffix(outbox_url, "?page=true"))),
            entry("type", jstr("OrderedCollectionPage")),
            entry("partOf", jstr(outbox_url)),
            entry("totalItems", Json::Int(count as i64)),
            entry("orderedItems", oi),
            entry("next", next),
            entry("prev", prev),
        ],
    );
    proof {
        lemma_json_view_compound(j);
        assert(entries_view(j->Object_0@) =~= outbox_page_view(
            notes@,
            actor_url@,
            instance_url@,
            outbox_url@,
            count as int,
            since_given,
        )->Object_0);
    }
    j
}

} // verus!
