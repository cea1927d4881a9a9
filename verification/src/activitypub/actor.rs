//! Actor documents.
use vstd::prelude::*;
use crate::activitypub::notes::{audience, audience_view, make_note_url, note_url};
use crate::json::{elements_view, entries_view, json_view, jstr, lemma_json_view_compound, Json, JsonV};
use crate::models::{Actor, Note, NoteVisibility, user_url, make_user_url};
use crate::time::{rfc3339_text, to_rfc3339};

verus! {

/// Query of the actor endpoint.
#[derive(Clone, Debug)]
pub struct ActorQuery {
    pub format: String,
}

/// An image of an actor (avatar or banner).
#[derive(Clone, Debug)]
pub struct Image {
    pub image_type: String,
    pub url: String,
}

/// The key other servers check this actor's signatures with.
#[derive(Clone, Debug)]
pub struct PublicKey {
    pub id: String,
    pub owner: String,
    pub public_key_pem: String,
}

/// An actor as ActivityPub presents it (a `Person`).
#[derive(Clone, Debug)]
pub struct ActivityPubActor {
    pub context: Vec<String>,
    pub id: String,
    pub actor_type: String,
    pub preferred_username: String,
    pub name: Option<String>,
    pub summary: Option<String>,
    pub inbox: String,
    pub shared_inbox: Option<String>,
    pub outbox: String,
    pub followers: String,
    pub following: String,
    pub featured: String,
    pub url: String,
    pub manually_approves_followers: bool,
    pub discoverable: bool,
    pub public_key: PublicKey,
    pub icon: Option<Image>,
    pub image: Option<Image>,
}

/// The text of an optional string, `None` kept.
pub open spec fn opt_view(o: Option<String>) -> Option<Seq<char>> {
    match o {
        Some(s) => Some(s@),
        None => None,
    }
}

/// The view of an optional image: its type and URL.
pub open spec fn image_view(o: Option<Image>) -> Option<(Seq<char>, Seq<char>)> {
    match o {
        Some(i) => Some((i.image_type@, i.url@)),
        None => None,
    }
}

/// An image of type `Image` at each URL there is.
pub open spec fn image_of(url: Option<String>) -> Option<(Seq<char>, Seq<char>)> {
    match url {
        Some(u) => Some(("Image"@, u@)),
        None => None,
    }
}

fn image_from(url: &Option<String>) -> (r: Option<Image>)
    ensures
        image_view(r) == image_of(*url),
{
    match url {
        Some(u) => Some(Image { image_type: String::from_str("Image"), url: u.clone() }),
        None => None,
    }
}

/// `base` followed by `suffix`.
fn joined(base: &String, suffix: &str) -> (r: String)
    ensures
        r@ == base@ + suffix@,
{
    let mut r = base.clone();
    r.append(suffix);
    r
}

/// The document of a local actor requested as `username`: its URL is
/// `{instance}/users/{username}`, with the inbox, outbox, collections and
/// key under it and the shared inbox at `{instance}/inbox`.
pub fn activitypub_actor(actor: &Actor, username: &str, instance_url: &str) -> (r: ActivityPubActor)
    ensures
        ({
            let url = user_url(instance_url@, username@);
            &&& r.context@.len() == 2
            &&& r.context@[0]@ == "https://www.w3.org/ns/activitystreams"@
            &&& r.context@[1]@ == "https://w3id.org/security/v1"@
            &&& r.id@ == url
            &&& r.actor_type@ == "Person"@
            &&& r.preferred_username@ == actor.username@
            &&& opt_view(r.name) == opt_view(actor.name)
            &&& opt_view(r.summary) == opt_view(actor.bio)
            &&& r.inbox@ == url + "/inbox"@
            &&& opt_view(r.shared_inbox) == Some(instance_url@ + "/inbox"@)
            &&& r.outbox@ == url + "/outbox"@
            &&& r.followers@ == url + "/followers"@
            &&& r.following@ == url + "/following"@
            &&& r.featured@ == url + "/featured"@
            &&& r.url@ == url
            &&& r.manually_approves_followers == actor.is_locked
            &&& r.discoverable
            &&& r.public_key.id@ == url + "#main-key"@
            &&& r.public_key.owner@ == url
            &&& r.public_key.public_key_pem@ == match actor.public_key {
                Some(k) => k@,
                None => Seq::<char>::empty(),
            }
            &&& image_view(r.icon) == image_of(actor.avatar_url)
            &&& image_view(r.image) == image_of(actor.banner_url)
        }),
{
    let url = make_user_url(instance_url, username);
    let mut shared = String::from_str(instance_url);
    shared.append("/inbox");
    let pem = match &actor.public_key {
        Some(k) => k.clone(),
        None => String::new(),
    };
    ActivityPubActor {
        context: vec![
            String::from_str("https://www.w3.org/ns/activitystreams"),
            String::from_str("https://w3id.org/security/v1"),
        ],
        id: url.clone(),
        actor_type: String::from_str("Person"),
        preferred_username: actor.username.clone(),
        name: actor.name.clone(),
        summary: actor.bio.clone(),
        inbox: joined(&url, "/inbox"),
        shared_inbox: Some(shared),
        outbox: joined(&url, "/outbox"),
        followers: joined(&url, "/followers"),
        following: joined(&url, "/following"),
        featured: joined(&url, "/featured"),
        url: url.clone(),
        manually_approves_followers: actor.is_locked,
        discoverable: true,
        public_key: PublicKey { id: joined(&url, "#main-key"), owner: url.clone(), public_key_pem: pem },
        icon: image_from(&actor.avatar_url),
        image: image_from(&actor.banner_url),
    }
}

/// A pinned note as the featured collection lists it: a `Note` attributed to
/// `actor_url`, addressed to the public.
pub open spec fn featured_item_view(note: Note, instance_url: Seq<char>, actor_url: Seq<char>) -> JsonV {
    JsonV::Object(
        seq![
            ("@context"@, JsonV::Str("https://www.w3.org/ns/activitystreams"@)),
            ("type"@, JsonV::Str("Note"@)),
            ("id"@, JsonV::Str(note_url(instance_url, note.id))),
            ("content"@, JsonV::Str(match note.text {
                Some(t) => t@,
                None => Seq::empty(),
            })),
            ("attributedTo"@, JsonV::Str(actor_url)),
            ("published"@, JsonV::Str(rfc3339_text(note.created_at.secs as int, note.created_at.nanos as int))),
            ("to"@, audience_view(NoteVisibility::Public)),
        ],
    )
}

/// Builds the featured-collection entry of a pinned note.
pub fn featured_item(note: &Note, instance_url: &str, actor_url: &str) -> (j: Json)
    requires
        note.created_at.wf(),
    ensures
        json_view(j) == featured_item_view(*note, instance_url@, actor_url@),
{
    let content = match &note.text {
        Some(t) => t.clone(),
        None => String::new(),
    };
    let j = Json::Object(
        vec![
            (String::from_str("@context"), jstr("https://www.w3.org/ns/activitystreams")),
            (String::from_str("type"), jstr("Note")),
            (String::from_str("id"), Json::Str(make_note_url(instance_url, note.id))),
            (String::from_str("content"), Json::Str(content)),
            (String::from_str("attributedTo"), jstr(actor_url)),
            (String::from_str("published"), Json::Str(to_rfc3339(note.created_at))),
            (String::from_str("to"), audience(NoteVisibility::Public)),
        ],
    );
    proof {
        lemma_json_view_compound(j);
        assert(entries_view(j->Object_0@) =~= featured_item_view(*note, instance_url@, actor_url@)->Object_0);
    }
    j
}

/// The featured collection of an actor: an ordered collection of its pinned
/// notes, with their number.
pub open spec fn featured_view(actor_url: Seq<char>, items: Seq<JsonV>) -> JsonV {
    JsonV::Object(
        seq![
            ("@context"@, JsonV::Str("https://www.w3.org/ns/activitystreams"@)),
            ("id"@, JsonV::Str(actor_url + "/collections/featured"@)),
            ("type"@, JsonV::Str("OrderedCollection"@)),
            ("totalItems"@, JsonV::Int(items.len() as int)),
            ("orderedItems"@, JsonV::Array(items)),
        ],
    )
}

/// Builds the featured collection of the actor at `actor_url`.
pub fn featured_collection(actor_url: &str, items: Vec<Json>) -> (j: Json)
    requires
        items@.len() <= i64::MAX,
    ensures
        json_view(j) == featured_view(actor_url@, elements_view(items@)),
{
    let mut id = String::from_str(actor_url);
    id.append("/collections/featured");
    let n = items.len() as i64;
    let ghost iv = elements_view(items@);
    let arr = Json::Array(items);
    proof {
        lemma_json_view_compound(arr);
    }
    let j = Json::Object(
        vec![
            (String::from_str("@context"), jstr("https://www.w3.org/ns/activitystreams")),
            (String::from_str("id"), Json::Str(id)),
            (String::from_str("type"), jstr("OrderedCollection")),
            (String::from_str("totalItems"), Json::Int(n)),
            (String::from_str("orderedItems"), arr),
        ],
    );
    proof {
        lemma_json_view_compound(j);
        assert(entries_view(j->Object_0@) =~= featured_view(actor_url@, iv)->Object_0);
    }
    j
}

} // verus!
