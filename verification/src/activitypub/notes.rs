//! Notes as ActivityPub objects.
use vstd::prelude::*;
use crate::error::{AppError, ErrorKind, err};
use crate::ids::{ulid_text, ulid_to_string};
use crate::json::{Json, JsonV, json_view, jstr, lemma_json_view_compound, entries_view, elements_view};
use crate::models::{Note, NoteVisibility, reaction_counts, sum};
use crate::text::string_views;
use crate::time::{rfc3339_text, to_rfc3339};

verus! {

/// Query of the note endpoint.
#[derive(Clone, Debug)]
pub struct NoteQuery {
    pub formatted: Option<bool>,
}

/// The public audience URI.
pub open spec fn public_uri() -> Seq<char> {
    "https://www.w3.org/ns/activitystreams#Public"@
}

/// `{instance}/notes/{id}`.
pub open spec fn note_url(instance_url: Seq<char>, id: u128) -> Seq<char> {
    instance_url + "/notes/"@ + ulid_text(id)
}

/// `{instance}/users/{actor id}`: how a note names its author.
pub open spec fn note_actor_url(instance_url: Seq<char>, actor_id: u128) -> Seq<char> {
    instance_url + "/users/"@ + ulid_text(actor_id)
}

/// `{instance}/notes/{id}`.
pub fn make_note_url(instance_url: &str, id: u128) -> (r: String)
    ensures
        r@ == note_url(instance_url@, id),
{
    let mut r = String::from_str(instance_url);
    r.append("/notes/");
    let t = ulid_to_string(id);
    r.append(t.as_str());
    r
}

/// `{instance}/users/{actor id}`.
pub fn make_actor_url(instance_url: &str, id: u128) -> (r: String)
    ensures
        r@ == note_actor_url(instance_url@, id),
{
    let mut r = String::from_str(instance_url);
    r.append("/users/");
    let t = ulid_to_string(id);
    r.append(t.as_str());
    r
}

/// The entries of the JSON-LD context a note is published with.
pub open spec fn ap_context_view() -> JsonV {
    JsonV::Array(
        seq![
            JsonV::Str("https://www.w3.org/ns/activitystreams"@),
            JsonV::Object(
                seq![
                    ("ostatus"@, JsonV::Str("http://ostatus.org#"@)),
                    ("atomUri"@, JsonV::Str("ostatus:atomUri"@)),
                    ("inReplyToAtomUri"@, JsonV::Str("ostatus:inReplyToAtomUri"@)),
                    ("conversation"@, JsonV::Str("ostatus:conversation"@)),
                    ("sensitive"@, JsonV::Str("as:sensitive"@)),
                    ("Hashtag"@, JsonV::Str("as:Hashtag"@)),
                    ("Emoji"@, JsonV::Str("toot:Emoji"@)),
                    ("toot"@, JsonV::Str("http://joinmastodon.org/ns#"@)),
                    ("Misskey"@, JsonV::Str("https://misskey-hub.net/ns#"@)),
                    ("_misskey_content"@, JsonV::Str("Misskey:_misskey_content"@)),
                    ("_misskey_quote"@, JsonV::Str("Misskey:_misskey_quote"@)),
                    ("_misskey_reaction"@, JsonV::Str("Misskey:_misskey_reaction"@)),
                    ("_misskey_votes"@, JsonV::Str("Misskey:_misskey_votes"@)),
                    ("_misskey_talk"@, JsonV::Str("Misskey:_misskey_talk"@)),
                ],
            ),
        ],
    )
}

fn entry(k: &str, v: Json) -> (e: (String, Json))
    ensures
        e.0@ == k@,
        e.1 == v,
{
    (String::from_str(k), v)
}

fn ap_context() -> (j: Json)
    ensures
        json_view(j) == ap_context_view(),
{
    let o = Json::Object(
        vec![
            entry("ostatus", jstr("http://ostatus.org#")),
            entry("atomUri", jstr("ostatus:atomUri")),
            entry("inReplyToAtomUri", jstr("ostatus:inReplyToAtomUri")),
            entry("conversation", jstr("ostatus:conversation")),
            entry("sensitive", jstr("as:sensitive")),
            entry("Hashtag", jstr("as:Hashtag")),
            entry("Emoji", jstr("toot:Emoji")),
            entry("toot", jstr("http://joinmastodon.org/ns#")),
            entry("Misskey", jstr("https://misskey-hub.net/ns#")),
            entry("_misskey_content", jstr("Misskey:_misskey_content")),
            entry("_misskey_quote", jstr("Misskey:_misskey_quote")),
            entry("_misskey_reaction", jstr("Misskey:_misskey_reaction")),
            entry("_misskey_votes", jstr("Misskey:_misskey_votes")),
            entry("_misskey_talk", jstr("Misskey:_misskey_talk")),
        ],
    );
    proof {
        lemma_json_view_compound(o);
        assert(entries_view(o->Object_0@) =~= ap_context_view()->Array_0[1]->Object_0);
    }
    let a = Json::Array(vec![jstr("https://www.w3.org/ns/activitystreams"), o]);
    proof {
        lemma_json_view_compound(a);
        assert(elements_view(a->Array_0@) =~= ap_context_view()->Array_0);
    }
    a
}

/// The audience of a note: public and home notes are addressed to the
/// public collection; others to no one listed.
pub open spec fn audience_view(v: NoteVisibility) -> JsonV {
    match v {
        NoteVisibility::Public | NoteVisibility::Home => JsonV::Array(seq![JsonV::Str(public_uri())]),
        _ => JsonV::Array(Seq::empty()),
    }
}

/// A note is addressed to the public collection exactly when anyone may read
/// it: an unlisted (`Home`) note is addressed as a `Public` one, and a
/// followers-only or direct note never to the public collection (nor, in
/// its `to`, to anyone else).
pub proof fn lemma_audience_public_iff_open(v: NoteVisibility)
    ensures
        audience_view(NoteVisibility::Home) == audience_view(NoteVisibility::Public),
        audience_view(v) is Array,
        audience_view(v)->Array_0.contains(JsonV::Str(public_uri())) <==> (v is Public || v is Home),
        (v is Followers || v is Specified) ==> audience_view(v)->Array_0.len() == 0,
        (v is Public || v is Home) ==> audience_view(v)->Array_0 == seq![JsonV::Str(public_uri())],
{
    if v is Public || v is Home {
        assert(audience_view(v)->Array_0[0] == JsonV::Str(public_uri()));
    }
}

/// A `Hashtag` object for a tag.
pub open spec fn hashtag_view(instance_url: Seq<char>, tag: Seq<char>) -> JsonV {
    JsonV::Object(
        seq![
            ("type"@, JsonV::Str("Hashtag"@)),
            ("href"@, JsonV::Str(instance_url + "/tags/"@ + tag)),
            ("name"@, JsonV::Str("#"@ + tag)),
        ],
    )
}

/// The entry that is present exactly when `b` holds.
pub open spec fn opt_entry(b: bool, k: Seq<char>, v: JsonV) -> Seq<(Seq<char>, JsonV)> {
    if b {
        seq![(k, v)]
    } else {
        Seq::empty()
    }
}

/// A note as an ActivityPub `Note` object.
pub open spec fn ap_note_view(note: Note, instance_url: Seq<char>) -> JsonV {
    let url = note_url(instance_url, note.id);
    let actor = note_actor_url(instance_url, note.actor_id);
    let published = rfc3339_text(note.created_at.secs as int, note.created_at.nanos as int);
    JsonV::Object(
        seq![
            ("@context"@, ap_context_view()),
            ("id"@, JsonV::Str(url)),
            ("type"@, JsonV::Str("Note"@)),
            ("attributedTo"@, JsonV::Str(actor)),
            ("content"@, JsonV::Str(match note.text {
                Some(t) => t@,
                None => Seq::empty(),
            })),
            ("published"@, JsonV::Str(published)),
            ("url"@, JsonV::Str(url)),
            ("to"@, audience_view(note.visibility)),
            ("cc"@, JsonV::Array(Seq::empty())),
            ("sensitive"@, JsonV::Bool(note.cw is Some)),
        ] + opt_entry(
            note.reply_id is Some,
            "inReplyTo"@,
            JsonV::Str(note_url(instance_url, note.reply_id.unwrap())),
        ) + opt_entry(
            note.cw is Some,
            "summary"@,
            JsonV::Str(note.cw.unwrap()@),
        ) + opt_entry(
            note.tags@.len() > 0,
            "tag"@,
            JsonV::Array(Seq::new(note.tags@.len(), |k: int| hashtag_view(instance_url, note.tags@[k]@))),
        ) + opt_entry(
            note.spec_total_reactions() > 0,
            "_misskey_reaction"@,
            JsonV::Object(
                seq![
                    ("type"@, JsonV::Str("_misskey_reactions"@)),
                    ("count"@, JsonV::Int(note.spec_total_reactions())),
                ],
            ),
        ),
    )
}

/// The `to` of a note of visibility `v`: the public collection for public
/// and home notes, else no one.
pub fn audience(v: NoteVisibility) -> (j: Json)
    ensures
        json_view(j) == audience_view(v),
        json_view(j) == JsonV::Array(seq![JsonV::Str("https://www.w3.org/ns/activitystreams#Public"@)]) <==> (v is Public
            || v is Home),
        !(v is Public || v is Home) ==> json_view(j) == JsonV::Array(Seq::empty()),
{
    let j = match v {
        NoteVisibility::Public | NoteVisibility::Home => Json::Array(
            vec![jstr("https://www.w3.org/ns/activitystreams#Public")],
        ),
        _ => Json::Array(Vec::new()),
    };
    proof {
        lemma_json_view_compound(j);
        assert(elements_view(j->Array_0@) =~= audience_view(v)->Array_0);
    }
    j
}

fn hashtag(instance_url: &str, tag: &str) -> (j: Json)
    ensures
        json_view(j) == hashtag_view(instance_url@, tag@),
{
    let mut href = String::from_str(instance_url);
    href.append("/tags/");
    href.append(tag);
    let mut name = String::from_str("#");
    name.append(tag);
    let j = Json::Object(vec![entry("type", jstr("Hashtag")), entry("href", Json::Str(href)), entry("name", Json::Str(name))]);
    proof {
        lemma_json_view_compound(j);
        assert(entries_view(j->Object_0@) =~= hashtag_view(instance_url@, tag@)->Object_0);
    }
    j
}

/// Builds the ActivityPub `Note` object of a note (its reaction total must
/// fit an `i32` at every step, as it is summed in one).
pub fn build_ap_note(note: &Note, instance_url: &str) -> (j: Json)
    requires
        note.created_at.wf(),
        crate::models::sums_fit_i32(reaction_counts(note.reactions@)),
    ensures
        json_view(j) == ap_note_view(*note, instance_url@),
{
    let url = make_note_url(instance_url, note.id);
    let actor = make_actor_url(instance_url, note.actor_id);
    let published = to_rfc3339(note.created_at);
    let content = match &note.text {
        Some(t) => t.clone(),
        None => String::new(),
    };
    let cc = Json::Array(Vec::new());
    proof {
        lemma_json_view_compound(cc);
        assert(elements_view(cc->Array_0@) =~= Seq::<JsonV>::empty());
    }
    let mut entries: Vec<(String, Json)> = vec![
        entry("@context", ap_context()),
        entry("id", Json::Str(url.clone())),
        entry("type", jstr("Note")),
        entry("attributedTo", Json::Str(actor)),
        entry("content", Json::Str(content)),
        entry("published", Json::Str(published)),
        entry("url", Json::Str(url)),
        entry("to", audience(note.visibility)),
        entry("cc", cc),
        entry("sensitive", Json::Bool(note.cw.is_some())),
    ];
    let ghost base = entries_view(entries@);
    let ghost sv = ap_note_view(*note, instance_url@)->Object_0;
    assert(base =~= sv.take(10));
    if let Some(r) = note.reply_id {
        entries.push(entry("inReplyTo", Json::Str(make_note_url(instance_url, r))));
    }
    let ghost n1 = entries@.len();
    assert(entries_view(entries@) =~= sv.take(n1 as int));
    if let Some(cw) = &note.cw {
        entries.push(entry("summary", Json::Str(cw.clone())));
    }
    let ghost n2 = entries@.len();
    assert(entries_view(entries@) =~= sv.take(n2 as int));
    if note.tags.len() > 0 {
        let mut tags: Vec<Json> = Vec::new();
        let mut k: usize = 0;
        while k < note.tags.len()
            invariant
                k <= note.tags@.len(),
                tags@.len() == k,
                forall|m: int|
                    0 <= m < k ==> json_view(#[trigger] tags@[m]) == hashtag_view(instance_url@, note.tags@[m]@),
            decreases note.tags@.len() - k,
        {
            tags.push(hashtag(instance_url, note.tags[k].as_str()));
            k = k + 1;
        }
        let ta = Json::Array(tags);
        proof {
            lemma_json_view_compound(ta);
            assert(elements_view(ta->Array_0@) =~= Seq::new(
                note.tags@.len(),
                |m: int| hashtag_view(instance_url@, note.tags@[m]@),
            ));
        }
        entries.push(entry("tag", ta));
    }
    let ghost n3 = entries@.len();
    assert(entries_view(entries@) =~= sv.take(n3 as int));
    let count = note.total_reactions();
    if count > 0 {
        let r = Json::Object(vec![entry("type", jstr("_misskey_reactions")), entry("count", Json::Int(count as i64))]);
        proof {
            lemma_json_view_compound(r);
            assert(entries_view(r->Object_0@) =~= seq![
                ("type"@, JsonV::Str("_misskey_reactions"@)),
                ("count"@, JsonV::Int(note.spec_total_reactions())),
            ]);
        }
        entries.push(entry("_misskey_reaction", r));
    }
    assert(entries_view(entries@) =~= sv);
    let j = Json::Object(entries);
    proof {
        lemma_json_view_compound(j);
    }
    j
}


/// Reads a note id from a path; the error names the text.
pub fn parse_note_id(text: &str) -> (r: Result<u128, AppError>)
    ensures
        match r {
            Ok(id) => crate::ids::ulid_parsed(text@) == Some(id),
            Err(e) => crate::ids::ulid_parsed(text@) is None && e.is(
                ErrorKind::Validation,
                "Invalid note ID: "@ + text@,
            ),
        },
{
    match crate::ids::parse_ulid(text) {
        Some(id) => Ok(id),
        None => {
            let mut m = String::from_str("Invalid note ID: ");
            m.append(text);
            Err(AppError::Validation(m))
        },
    }
}

/// Whether a stored note may be served as an ActivityPub object: it must be
/// public or home, and local.
pub fn check_note_servable(note: &Note) -> (r: Result<(), AppError>)
    ensures
        !(note.visibility is Public || note.visibility is Home) <==> (r matches Err(e) && e.is(
            ErrorKind::Forbidden,
            "error-forbidden"@,
        )),
        ((note.visibility is Public || note.visibility is Home) && note.host is Some) <==> (r matches Err(e) && e.is(
            ErrorKind::NotFound,
            "note-not-found"@,
        )),
        r is Ok <==> ((note.visibility is Public || note.visibility is Home) && note.host is None),
{
    match note.visibility {
        NoteVisibility::Public | NoteVisibility::Home => {},
        _ => {
            return Err(err(ErrorKind::Forbidden, "error-forbidden"));
        },
    }
    if note.host.is_some() {
        return Err(err(ErrorKind::NotFound, "note-not-found"));
    }
    Ok(())
}

/// The `Create` activity that publishes a note, wrapping its full object.
pub open spec fn note_activity_view(note: Note, instance_url: Seq<char>) -> JsonV {
    JsonV::Object(
        seq![
            ("@context"@, JsonV::Str("https://www.w3.org/ns/activitystreams"@)),
            ("id"@, JsonV::Str(note_url(instance_url, note.id) + "/activity"@)),
            ("type"@, JsonV::Str("Create"@)),
            ("actor"@, JsonV::Str(note_actor_url(instance_url, note.actor_id))),
            ("published"@, JsonV::Str(rfc3339_text(note.created_at.secs as int, note.created_at.nanos as int))),
            ("object"@, ap_note_view(note, instance_url)),
        ],
    )
}

/// The `Create` activity of a note.
pub fn build_note_activity(note: &Note, instance_url: &str) -> (j: Json)
    requires
        note.created_at.wf(),
        crate::models::sums_fit_i32(reaction_counts(note.reactions@)),
    ensures
        json_view(j) == note_activity_view(*note, instance_url@),
{
    let mut id = make_note_url(instance_url, note.id);
    id.append("/activity");
    let j = Json::Object(
        vec![
            entry("@context", jstr("https://www.w3.org/ns/activitystreams")),
            entry("id", Json::Str(id)),
            entry("type", jstr("Create")),
            entry("actor", Json::Str(make_actor_url(instance_url, note.actor_id))),
            entry("published", Json::Str(to_rfc3339(note.created_at))),
            entry("object", build_ap_note(note, instance_url)),
        ],
    );
    proof {
        lemma_json_view_compound(j);
        assert(entries_view(j->Object_0@) =~= note_activity_view(*note, instance_url@)->Object_0);
    }
    j
}

/// The outbox form of a note: a `Create` by `actor_url`, addressed to the
/// public, around a short `Note`.
pub open spec fn outbox_activity_view(note: Note, actor_url: Seq<char>, instance_url: Seq<char>) -> JsonV {
    let id = note_url(instance_url, note.id);
    let published = rfc3339_text(note.created_at.secs as int, note.created_at.nanos as int);
    let to = JsonV::Array(seq![JsonV::Str(public_uri())]);
    let cc = JsonV::Array(Seq::empty());
    JsonV::Object(
        seq![
            ("id"@, JsonV::Str(id + "/activity"@)),
            ("type"@, JsonV::Str("Create"@)),
            ("actor"@, JsonV::Str(actor_url)),
            ("published"@, JsonV::Str(published)),
            ("to"@, to),
            ("cc"@, cc),
            (
                "object"@,
                JsonV::Object(
                    seq![
                        ("id"@, JsonV::Str(id)),
                        ("type"@, JsonV::Str("Note"@)),
                        ("attributedTo"@, JsonV::Str(actor_url)),
                        ("content"@, JsonV::Str(match note.text {
                            Some(t) => t@,
                            None => Seq::empty(),
                        })),
                        ("published"@, JsonV::Str(published)),
                        ("to"@, to),
                        ("cc"@, cc),
                    ],
                ),
            ),
        ],
    )
}

/// The outbox form of a note.
pub fn note_to_activity(note: &Note, actor_url: &str, instance_url: &str) -> (j: Json)
    requires
        note.created_at.wf(),
    ensures
        json_view(j) == outbox_activity_view(*note, actor_url@, instance_url@),
{
    let id = make_note_url(instance_url, note.id);
    let published = to_rfc3339(note.created_at);
    let content = match &note.text {
        Some(t) => t.clone(),
        None => String::new(),
    };
    let to1 = audience(NoteVisibility::Public);
    let to2 = audience(NoteVisibility::Public);
    let cc1 = audience(NoteVisibility::Specified);
    let cc2 = audience(NoteVisibility::Specified);
    let obj = Json::Object(
        vec![
            entry("id", Json::Str(id.clone())),
            entry("type", jstr("Note")),
            entry("attributedTo", jstr(actor_url)),
            entry("content", Json::Str(content)),
            entry("published", Json::Str(published.clone())),
            entry("to", to1),
            entry("cc", cc1),
        ],
    );
    let mut aid = id;
    aid.append("/activity");
    let j = Json::Object(
        vec![
            entry("id", Json::Str(aid)),
            entry("type", jstr("Create")),
            entry("actor", jstr(actor_url)),
            entry("published", Json::Str(published)),
            entry("to", to2),
            entry("cc", cc2),
            entry("object", obj),
        ],
    );
    proof {
        lemma_json_view_compound(obj);
        assert(entries_view(obj->Object_0@) =~= outbox_activity_view(*note, actor_url@, instance_url@)->Object_0[6].1->Object_0);
        lemma_json_view_compound(j);
        assert(entries_view(j->Object_0@) =~= outbox_activity_view(*note, actor_url@, instance_url@)->Object_0);
    }
    j
}

} // verus!
