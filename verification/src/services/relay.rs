//! Relays: servers that rebroadcast public activities.
use vstd::prelude::*;
use crate::db::{DragonflyClient, SurrealClient};
use crate::federation::as_context;
use crate::json::{Json, JsonV, json_view, jstr, field, lemma_json_view_compound, entries_view, elements_view};

verus! {

/// Relay operations, acting as the instance's relay actor.
#[derive(Clone, Debug)]
pub struct RelayService {
    pub surreal: SurrealClient,
    pub dragonfly: DragonflyClient,
    pub instance_url: String,
}

impl RelayService {
    /// A service over the given stores for the instance at `instance_url`.
    pub fn new(surreal: SurrealClient, dragonfly: DragonflyClient, instance_url: String) -> (s: Self)
        ensures
            s.surreal == surreal,
            s.dragonfly == dragonfly,
            s.instance_url == instance_url,
    {
        RelayService { surreal, dragonfly, instance_url }
    }
}

/// The actor the instance follows relays as.
pub open spec fn relay_actor(instance_url: Seq<char>) -> Seq<char> {
    instance_url + "/users/relay.actor"@
}

/// The public audience URI.
pub open spec fn public_audience() -> Seq<char> {
    "https://www.w3.org/ns/activitystreams#Public"@
}

/// The `Follow` that subscribes the instance to a relay, with id suffix
/// `uuid`.
pub open spec fn relay_follow_view(instance_url: Seq<char>, uuid: Seq<char>) -> JsonV {
    JsonV::Object(
        seq![
            ("@context"@, JsonV::Str(as_context())),
            ("type"@, JsonV::Str("Follow"@)),
            ("actor"@, JsonV::Str(relay_actor(instance_url))),
            ("object"@, JsonV::Str(public_audience())),
            ("id"@, JsonV::Str(instance_url + "/activities/follow/"@ + uuid)),
        ],
    )
}

/// The `Undo` of that follow, with id suffix `uuid`.
pub open spec fn relay_undo_view(instance_url: Seq<char>, uuid: Seq<char>) -> JsonV {
    JsonV::Object(
        seq![
            ("@context"@, JsonV::Str(as_context())),
            ("type"@, JsonV::Str("Undo"@)),
            ("actor"@, JsonV::Str(relay_actor(instance_url))),
            (
                "object"@,
                JsonV::Object(
                    seq![
                        ("type"@, JsonV::Str("Follow"@)),
                        ("actor"@, JsonV::Str(relay_actor(instance_url))),
                        ("object"@, JsonV::Str(public_audience())),
                    ],
                ),
            ),
            ("id"@, JsonV::Str(instance_url + "/activities/undo/"@ + uuid)),
        ],
    )
}

fn entry(k: &str, v: Json) -> (e: (String, Json))
    ensures
        e.0@ == k@,
        e.1 == v,
{
    (String::from_str(k), v)
}

fn joined(a: &str, b: &str) -> (r: String)
    ensures
        r@ == a@ + b@,
{
    let mut r = String::from_str(a);
    r.append(b);
    r
}

/// The relay `Follow` with the given id suffix.
pub fn relay_follow_with_id(instance_url: &str, uuid: &str) -> (j: Json)
    ensures
        json_view(j) == relay_follow_view(instance_url@, uuid@),
{
    let mut id = joined(instance_url, "/activities/follow/");
    id.append(uuid);
    let j = Json::Object(
        vec![
            entry("@context", jstr("https://www.w3.org/ns/activitystreams")),
            entry("type", jstr("Follow")),
            entry("actor", Json::Str(joined(instance_url, "/users/relay.actor"))),
            entry("object", jstr("https://www.w3.org/ns/activitystreams#Public")),
            entry("id", Json::Str(id)),
        ],
    );
    proof {
        lemma_json_view_compound(j);
        assert(entries_view(j->Object_0@) =~= relay_follow_view(instance_url@, uuid@)->Object_0);
    }
    j
}

/// The relay `Undo` with the given id suffix.
pub fn relay_undo_with_id(instance_url: &str, uuid: &str) -> (j: Json)
    ensures
        json_view(j) == relay_undo_view(instance_url@, uuid@),
{
    let mut id = joined(instance_url, "/activities/undo/");
    id.append(uuid);
    let inner = Json::Object(
        vec![
            entry("type", jstr("Follow")),
            entry("actor", Json::Str(joined(instance_url, "/users/relay.actor"))),
            entry("object", jstr("https://www.w3.org/ns/activitystreams#Public")),
        ],
    );
    proof {
        lemma_json_view_compound(inner);
        assert(entries_view(inner->Object_0@) =~= relay_undo_view(instance_url@, uuid@)->Object_0[3].1->Object_0);
    }
    let j = Json::Object(
        vec![
            entry("@context", jstr("https://www.w3.org/ns/activitystreams")),
            entry("type", jstr("Undo")),
            entry("actor", Json::Str(joined(instance_url, "/users/relay.actor"))),
            entry("object", inner),
            entry("id", Json::Str(id)),
        ],
    );
    proof {
        lemma_json_view_compound(j);
        assert(entries_view(j->Object_0@) =~= relay_undo_view(instance_url@, uuid@)->Object_0);
    }
    j
}

/// The relay `Follow`, with a fresh random id.
pub fn relay_follow(instance_url: &str) -> (j: Json)
    ensures
        exists|u: Seq<char>| json_view(j) == relay_follow_view(instance_url@, u),
{
    let uuid = crate::ids::new_uuid_v4();
    relay_follow_with_id(instance_url, uuid.as_str())
}

/// The relay `Undo`, with a fresh random id.
pub fn relay_undo(instance_url: &str) -> (j: Json)
    ensures
        exists|u: Seq<char>| json_view(j) == relay_undo_view(instance_url@, u),
{
    let uuid = crate::ids::new_uuid_v4();
    relay_undo_with_id(instance_url, uuid.as_str())
}

/// What an activity is relayed as: unchanged when it names an audience
/// (`to`); otherwise with the public audience added at the end (a `null`
/// activity becomes an object holding just that).
pub open spec fn with_public_audience_view(a: Json) -> JsonV {
    match a {
        Json::Null => JsonV::Object(seq![("to"@, JsonV::Array(seq![JsonV::Str(public_audience())]))]),
        Json::Object(v) => if field(a, "to"@) is Some {
            json_view(a)
        } else {
            JsonV::Object(
                entries_view(v@).push(("to"@, JsonV::Array(seq![JsonV::Str(public_audience())]))),
            )
        },
        _ => json_view(a),
    }
}

/// Adds the public audience to an activity that names none. The activity is
/// an object or `null` (serde_json panics on assigning a member of anything
/// else).
pub fn with_public_audience(a: Json) -> (r: Json)
    requires
        a is Null || a is Object,
    ensures
        json_view(r) == with_public_audience_view(a),
{
    let to = Json::Array(vec![jstr("https://www.w3.org/ns/activitystreams#Public")]);
    proof {
        lemma_json_view_compound(to);
        assert(elements_view(to->Array_0@) =~= seq![JsonV::Str(public_audience())]);
    }
    let has_to = a.get("to").is_some();
    match a {
        Json::Null => {
            let r = Json::Object(vec![entry("to", to)]);
            proof {
                lemma_json_view_compound(r);
                assert(entries_view(r->Object_0@) =~= seq![("to"@, JsonV::Array(seq![JsonV::Str(public_audience())]))]);
            }
            r
        },
        Json::Object(v) => {
            if has_to {
                Json::Object(v)
            } else {
                let ghost old_v = v@;
                let mut v = v;
                v.push(entry("to", to));
                let r = Json::Object(v);
                proof {
                    lemma_json_view_compound(r);
                    lemma_json_view_compound(Json::Object(a->Object_0));
                    assert(entries_view(r->Object_0@) =~= entries_view(old_v).push(
                        ("to"@, JsonV::Array(seq![JsonV::Str(public_audience())])),
                    ));
                }
                r
            }
        },
        other => other,
    }
}

/// Refuses to add a relay whose inbox is registered already.
pub fn check_new_relay(exists: bool) -> (r: Result<(), crate::error::AppError>)
    ensures
        r is Ok <==> !exists,
        r matches Err(e) ==> e.is(crate::error::ErrorKind::Conflict, "Relay already exists"@),
{
    if exists {
        return Err(crate::error::err(crate::error::ErrorKind::Conflict, "Relay already exists"));
    }
    Ok(())
}

} // verus!
