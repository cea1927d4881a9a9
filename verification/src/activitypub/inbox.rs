//! The inbox: which handler an incoming activity goes to, and what each
//! handler reads from it.
use vstd::prelude::*;
use crate::error::{AppError, ErrorKind, err};
use crate::json::{Json, field, str_field, as_str_spec};
use crate::models::Actor;
use crate::time::Timestamp;
use crate::text::{lowercase, to_lowercase, split_on, str_chars, split_chars, chars_to_string, views, lemma_split_on_nonempty, str_eq};

verus! {

/// An activity as it arrives in an inbox.
#[derive(Debug)]
pub struct Activity {
    pub context: Option<Json>,
    pub id: String,
    pub activity_type: String,
    pub actor: String,
    pub object: Option<Json>,
    pub target: Option<String>,
}

/// The handler an activity goes to.
#[derive(Clone, Copy, Debug, PartialEq, Eq, Structural)]
pub enum InboxAction {
    Create,
    Delete,
    Follow,
    Undo,
    Accept,
    Reject,
    Announce,
    Like,
    Update,
    /// Logged and dropped.
    Ignore,
}

/// The handler a user's inbox uses for an activity type.
pub open spec fn user_inbox_action(t: Seq<char>) -> InboxAction {
    if t == "Create"@ {
        InboxAction::Create
    } else if t == "Delete"@ {
        InboxAction::Delete
    } else if t == "Follow"@ {
        InboxAction::Follow
    } else if t == "Undo"@ {
        InboxAction::Undo
    } else if t == "Accept"@ {
        InboxAction::Accept
    } else if t == "Reject"@ {
        InboxAction::Reject
    } else if t == "Announce"@ {
        InboxAction::Announce
    } else if t == "Like"@ {
        InboxAction::Like
    } else if t == "Update"@ {
        InboxAction::Update
    } else {
        InboxAction::Ignore
    }
}

/// The handler the shared inbox uses: follows and undos belong to a user's
/// inbox and are dropped here, and a `Reject` goes to the `Accept` handler.
pub open spec fn shared_inbox_action(t: Seq<char>) -> InboxAction {
    if t == "Create"@ {
        InboxAction::Create
    } else if t == "Delete"@ {
        InboxAction::Delete
    } else if t == "Announce"@ {
        InboxAction::Announce
    } else if t == "Like"@ {
        InboxAction::Like
    } else if t == "Update"@ {
        InboxAction::Update
    } else if t == "Accept"@ || t == "Reject"@ {
        InboxAction::Accept
    } else {
        InboxAction::Ignore
    }
}

/// Routes an activity that arrived in a user's inbox.
pub fn route_user_inbox(activity_type: &str) -> (r: InboxAction)
    ensures
        r == user_inbox_action(activity_type@),
        r != InboxAction::Ignore ==> handled_type(r) == Some(activity_type@),
        forall|a: InboxAction| handled_type(a) == Some(activity_type@) ==> r == a,
{
    proof {
        assert forall|a: InboxAction| handled_type(a) == Some(activity_type@) implies user_inbox_action(activity_type@) == a by {
            lemma_user_inbox_routes_by_type(activity_type@, a);
        }
        lemma_user_inbox_routes_by_type(activity_type@, user_inbox_action(activity_type@));
    }
    if str_eq(activity_type, "Create") {
        InboxAction::Create
    } else if str_eq(activity_type, "Delete") {
        InboxAction::Delete
    } else if str_eq(activity_type, "Follow") {
        InboxAction::Follow
    } else if str_eq(activity_type, "Undo") {
        InboxAction::Undo
    } else if str_eq(activity_type, "Accept") {
        InboxAction::Accept
    } else if str_eq(activity_type, "Reject") {
        InboxAction::Reject
    } else if str_eq(activity_type, "Announce") {
        InboxAction::Announce
    } else if str_eq(activity_type, "Like") {
        InboxAction::Like
    } else if str_eq(activity_type, "Update") {
        InboxAction::Update
    } else {
        InboxAction::Ignore
    }
}

/// The activity type whose handler an action is: the handler's own name
/// (`Create` for `InboxAction::Create`, and so on); none for `Ignore`.
pub open spec fn handled_type(a: InboxAction) -> Option<Seq<char>> {
    match a {
        InboxAction::Create => Some("Create"@),
        InboxAction::Delete => Some("Delete"@),
        InboxAction::Follow => Some("Follow"@),
        InboxAction::Undo => Some("Undo"@),
        InboxAction::Accept => Some("Accept"@),
        InboxAction::Reject => Some("Reject"@),
        InboxAction::Announce => Some("Announce"@),
        InboxAction::Like => Some("Like"@),
        InboxAction::Update => Some("Update"@),
        InboxAction::Ignore => None,
    }
}

/// The nine handled type names, told apart by length and first letter.
proof fn reveal_activity_type_names()
    ensures
        "Create"@.len() == 6 && "Create"@[0] == 'C',
        "Delete"@.len() == 6 && "Delete"@[0] == 'D',
        "Follow"@.len() == 6 && "Follow"@[0] == 'F',
        "Undo"@.len() == 4 && "Undo"@[0] == 'U',
        "Accept"@.len() == 6 && "Accept"@[0] == 'A',
        "Reject"@.len() == 6 && "Reject"@[0] == 'R',
        "Announce"@.len() == 8 && "Announce"@[0] == 'A',
        "Like"@.len() == 4 && "Like"@[0] == 'L',
        "Update"@.len() == 6 && "Update"@[0] == 'U',
{
    reveal_strlit("Create");
    reveal_strlit("Delete");
    reveal_strlit("Follow");
    reveal_strlit("Undo");
    reveal_strlit("Accept");
    reveal_strlit("Reject");
    reveal_strlit("Announce");
    reveal_strlit("Like");
    reveal_strlit("Update");
}

/// A user's inbox hands every activity of one of the nine handled types to
/// the handler of that type, and ignores every other activity: an activity
/// of type `t` goes to handler `a` other than `Ignore` exactly when `t` is
/// the type `a` handles.
pub proof fn lemma_user_inbox_routes_by_type(t: Seq<char>, a: InboxAction)
    ensures
        handled_type(a) == Some(t) ==> user_inbox_action(t) == a,
        user_inbox_action(t) == a && a != InboxAction::Ignore ==> handled_type(a) == Some(t),
        user_inbox_action(t) == InboxAction::Ignore <==> forall|b: InboxAction| handled_type(b) != Some(t),
{
    reveal_activity_type_names();
    if user_inbox_action(t) == InboxAction::Ignore {
        assert forall|b: InboxAction| handled_type(b) != Some(t) by {
            reveal_activity_type_names();
        }
    } else {
        assert(handled_type(user_inbox_action(t)) == Some(t));
    }
}

/// Routes an activity that arrived in the shared inbox.
pub fn route_shared_inbox(activity_type: &str) -> (r: InboxAction)
    ensures
        r == shared_inbox_action(activity_type@),
{
    if str_eq(activity_type, "Create") {
        InboxAction::Create
    } else if str_eq(activity_type, "Delete") {
        InboxAction::Delete
    } else if str_eq(activity_type, "Announce") {
        InboxAction::Announce
    } else if str_eq(activity_type, "Like") {
        InboxAction::Like
    } else if str_eq(activity_type, "Update") {
        InboxAction::Update
    } else if str_eq(activity_type, "Accept") || str_eq(activity_type, "Reject") {
        InboxAction::Accept
    } else {
        InboxAction::Ignore
    }
}

/// The host part of an actor URI: its third `/`-separated piece
/// (`https://host/...`), or `unknown` when there is none.
pub open spec fn host_of_uri(uri: Seq<char>) -> Seq<char> {
    if split_on(uri, '/').len() > 2 {
        split_on(uri, '/')[2]
    } else {
        "unknown"@
    }
}

/// The host part of an actor URI.
pub fn extract_host_from_uri(uri: &str) -> (r: String)
    ensures
        r@ == host_of_uri(uri@),
{
    let chars = str_chars(uri);
    let parts = split_chars(&chars, '/');
    if parts.len() > 2 {
        assert(views(parts@)[2] == parts@[2]@);
        chars_to_string(&parts[2])
    } else {
        String::from_str("unknown")
    }
}

/// The `type` of an object, or `Unknown` when it has none.
pub open spec fn object_type(obj: Json) -> Seq<char> {
    match str_field(obj, "type"@) {
        Some(t) => t,
        None => "Unknown"@,
    }
}

/// The `type` of an object, or `Unknown`.
pub fn get_object_type(obj: &Json) -> (r: String)
    ensures
        r@ == object_type(*obj),
{
    match obj.get("type") {
        Some(t) => match t.as_str() {
            Some(s) => String::from_str(s),
            None => String::from_str("Unknown"),
        },
        None => String::from_str("Unknown"),
    }
}

/// The member `key` of an object when it is a string.
pub fn get_str_field(obj: &Json, key: &str) -> (r: Option<String>)
    ensures
        match r {
            Some(s) => str_field(*obj, key@) == Some(s@),
            None => str_field(*obj, key@) is None,
        },
{
    match obj.get(key) {
        Some(v) => match v.as_str() {
            Some(s) => Some(String::from_str(s)),
            None => None,
        },
        None => None,
    }
}

/// What a `Create` of a note carries: its content, its author, its id.
#[derive(Debug)]
pub struct CreatedNote {
    pub content: String,
    pub actor_uri: String,
    pub note_uri: String,
}

/// Reads a `Create` activity: it must carry an object; a `Note` object gives
/// its content (empty when absent), author (`attributedTo`, else the
/// activity's actor) and id (empty when absent); other objects are ignored
/// (`Ok(None)`).
pub fn read_create(activity: &Activity) -> (r: Result<Option<CreatedNote>, AppError>)
    ensures
        activity.object is None <==> (r matches Err(e) && e.is(
            ErrorKind::Validation,
            "Missing object in Create activity"@,
        )),
        r matches Ok(None) ==> activity.object matches Some(o) && object_type(o) != "Note"@,
        r matches Ok(Some(n)) ==> activity.object matches Some(o) && object_type(o) == "Note"@ && n.content@
            == match str_field(o, "content"@) {
            Some(c) => c,
            None => Seq::<char>::empty(),
        } && n.actor_uri@ == match str_field(o, "attributedTo"@) {
            Some(a) => a,
            None => activity.actor@,
        } && n.note_uri@ == match str_field(o, "id"@) {
            Some(i) => i,
            None => Seq::<char>::empty(),
        },
        activity.object matches Some(o) ==> (r is Ok && (r matches Ok(Some(_)) <==> object_type(o) == "Note"@)),
{
    let object = match &activity.object {
        Some(o) => o,
        None => {
            return Err(err(ErrorKind::Validation, "Missing object in Create activity"));
        },
    };
    let t = get_object_type(object);
    if !str_eq(t.as_str(), "Note") {
        return Ok(None);
    }
    let content = match get_str_field(object, "content") {
        Some(c) => c,
        None => String::new(),
    };
    let actor_uri = match get_str_field(object, "attributedTo") {
        Some(a) => a,
        None => activity.actor.clone(),
    };
    let note_uri = match get_str_field(object, "id") {
        Some(i) => i,
        None => String::new(),
    };
    Ok(Some(CreatedNote { content, actor_uri, note_uri }))
}

/// The URI an `Announce` or `Like` points at: the object itself when it is a
/// string, else its `id`.
pub open spec fn pointed_uri(obj: Json) -> Option<Seq<char>> {
    match as_str_spec(obj) {
        Some(s) => Some(s),
        None => str_field(obj, "id"@),
    }
}

/// The URI an object points at, or a validation error with `missing`.
pub fn read_pointed_uri(obj: &Json, missing: &str) -> (r: Result<String, AppError>)
    ensures
        r matches Ok(s) ==> pointed_uri(*obj) == Some(s@),
        pointed_uri(*obj) is None <==> (r matches Err(e) && e.is(ErrorKind::Validation, missing@)),
{
    match obj.as_str() {
        Some(s) => Ok(String::from_str(s)),
        None => match get_str_field(obj, "id") {
            Some(i) => Ok(i),
            None => Err(err(ErrorKind::Validation, missing)),
        },
    }
}

/// The two parties of a `Follow` object (`actor` and `object`), when the
/// object is a follow and names both as strings.
pub open spec fn follow_parties(obj: Json) -> Option<(Seq<char>, Seq<char>)> {
    if object_type(obj) == "Follow"@ && str_field(obj, "actor"@) is Some && str_field(obj, "object"@) is Some {
        Some((str_field(obj, "actor"@).unwrap(), str_field(obj, "object"@).unwrap()))
    } else {
        None
    }
}

/// The parties of the follow that an `Accept` or `Reject` answers.
pub fn read_follow_parties(obj: &Json) -> (r: Option<(String, String)>)
    ensures
        match r {
            Some(p) => follow_parties(*obj) == Some((p.0@, p.1@)),
            None => follow_parties(*obj) is None,
        },
{
    let t = get_object_type(obj);
    if !str_eq(t.as_str(), "Follow") {
        return None;
    }
    match (get_str_field(obj, "actor"), get_str_field(obj, "object")) {
        (Some(a), Some(o)) => Some((a, o)),
        _ => None,
    }
}

/// What an `Undo` takes back.
#[derive(Debug)]
pub enum UndoAction {
    /// Remove the follow of the actor at this URI.
    Unfollow(String),
    /// Logged only: likes, announces, unknown objects, or a follow without
    /// an actor.
    Nothing,
}

/// Reads the object of an `Undo`: a `Follow` with a string `actor` is
/// undone; anything else is only logged.
pub fn read_undo(obj: &Json) -> (r: UndoAction)
    ensures
        match r {
            UndoAction::Unfollow(a) => object_type(*obj) == "Follow"@ && str_field(*obj, "actor"@) == Some(a@),
            UndoAction::Nothing => !(object_type(*obj) == "Follow"@ && str_field(*obj, "actor"@) is Some),
        },
{
    let t = get_object_type(obj);
    if str_eq(t.as_str(), "Follow") {
        match get_str_field(obj, "actor") {
            Some(a) => UndoAction::Unfollow(a),
            None => UndoAction::Nothing,
        }
    } else {
        UndoAction::Nothing
    }
}

/// The actor an `Update` refreshes: for a `Person`, `Service` or
/// `Application` object, its `id`, else the activity's actor; `None` for
/// other objects.
pub open spec fn updated_actor(obj: Json, activity_actor: Seq<char>) -> Option<Seq<char>> {
    let t = object_type(obj);
    if t == "Person"@ || t == "Service"@ || t == "Application"@ {
        Some(
            match str_field(obj, "id"@) {
                Some(i) => i,
                None => activity_actor,
            },
        )
    } else {
        None
    }
}

/// Reads the object of an `Update`.
pub fn read_update(obj: &Json, activity_actor: &str) -> (r: Option<String>)
    ensures
        match r {
            Some(a) => updated_actor(*obj, activity_actor@) == Some(a@),
            None => updated_actor(*obj, activity_actor@) is None,
        },
{
    let t = get_object_type(obj);
    if str_eq(t.as_str(), "Person") || str_eq(t.as_str(), "Service") || str_eq(t.as_str(), "Application") {
        match get_str_field(obj, "id") {
            Some(i) => Some(i),
            None => Some(String::from_str(activity_actor)),
        }
    } else {
        None
    }
}


/// The string at `outer.inner` of an object.
pub open spec fn nested_str(j: Json, outer: Seq<char>, inner: Seq<char>) -> Option<Seq<char>> {
    match field(j, outer) {
        Some(o) => str_field(o, inner),
        None => None,
    }
}

pub fn get_nested_str(j: &Json, outer: &str, inner: &str) -> (r: Option<String>)
    ensures
        match r {
            Some(s) => nested_str(*j, outer@, inner@) == Some(s@),
            None => nested_str(*j, outer@, inner@) is None,
        },
{
    match j.get(outer) {
        Some(o) => get_str_field(o, inner),
        None => None,
    }
}

/// An optional text as an optional string view.
pub open spec fn opt_text(o: Option<String>) -> Option<Seq<char>> {
    match o {
        Some(s) => Some(s@),
        None => None,
    }
}

/// The record of a remote actor, built from its fetched ActivityPub document
/// at `actor_uri`: given id `id`, created and updated at `now`, with no
/// counts, flags, banner or private key.
pub fn remote_actor_from_json(id: u128, now: Timestamp, actor_uri: &str, data: &Json) -> (a: Actor)
    ensures
        a.id == id,
        a.created_at == now,
        a.updated_at == Some(now),
        a.username@ == match str_field(*data, "preferredUsername"@) {
            Some(u) => u,
            None => "unknown"@,
        },
        a.username_lower@ == lowercase(a.username@),
        opt_text(a.name) == str_field(*data, "name"@),
        opt_text(a.bio) == str_field(*data, "summary"@),
        opt_text(a.inbox) == str_field(*data, "inbox"@),
        opt_text(a.shared_inbox) == nested_str(*data, "endpoints"@, "sharedInbox"@),
        opt_text(a.avatar_url) == nested_str(*data, "icon"@, "url"@),
        opt_text(a.public_key) == nested_str(*data, "publicKey"@, "publicKeyPem"@),
        opt_text(a.host) == Some(host_of_uri(actor_uri@)),
        opt_text(a.uri) == Some(actor_uri@),
        a.banner_url is None,
        a.featured is None,
        a.private_key is None,
        a.token is None,
        a.password_hash is None,
        a.email is None,
        a.followers_count == 0 && a.following_count == 0 && a.notes_count == 0,
        !a.is_suspended && !a.is_locked && !a.is_bot && !a.is_admin,
{
    let username = match get_str_field(data, "preferredUsername") {
        Some(u) => u,
        None => String::from_str("unknown"),
    };
    let username_lower = to_lowercase(username.as_str());
    Actor {
        id,
        created_at: now,
        updated_at: Some(now),
        username,
        username_lower,
        name: get_str_field(data, "name"),
        bio: get_str_field(data, "summary"),
        followers_count: 0,
        following_count: 0,
        notes_count: 0,
        avatar_url: get_nested_str(data, "icon", "url"),
        banner_url: None,
        is_suspended: false,
        is_locked: false,
        is_bot: false,
        is_admin: false,
        host: Some(extract_host_from_uri(actor_uri)),
        inbox: get_str_field(data, "inbox"),
        shared_inbox: get_nested_str(data, "endpoints", "sharedInbox"),
        featured: None,
        uri: Some(String::from_str(actor_uri)),
        public_key: get_nested_str(data, "publicKey", "publicKeyPem"),
        private_key: None,
        token: None,
        password_hash: None,
        email: None,
    }
}

/// What a local actor does with a follow it receives: it is accepted at once
/// unless the actor approves followers by hand.
pub open spec fn follow_is_accepted(is_locked: bool) -> bool {
    !is_locked
}

/// Whether a follow a local actor receives is accepted at once.
pub fn accepts_follow_at_once(is_locked: bool) -> (r: bool)
    ensures
        r == follow_is_accepted(is_locked),
{
    !is_locked
}

/// The local actor that signs the `Accept` of a follow: the followee
/// `target_username` (id read from its stored id text, 0 when that is no
/// ULID), with its inbox and keys, and its URI under this instance.
pub fn accepting_actor(
    followee_id: &str,
    target_username: &str,
    is_locked: bool,
    inbox: String,
    public_key: Option<String>,
    private_key: String,
    instance_url: &str,
    now: Timestamp,
) -> (a: Actor)
    ensures
        a.id == match crate::ids::ulid_parsed(followee_id@) {
            Some(i) => i,
            None => 0,
        },
        a.username@ == target_username@,
        a.username_lower@ == lowercase(target_username@),
        a.is_locked == is_locked,
        a.inbox == Some(inbox),
        a.public_key == public_key,
        a.private_key == Some(private_key),
        opt_text(a.uri) == Some(crate::models::user_url(instance_url@, target_username@)),
        a.host is None,
        a.created_at == now,
{
    let id = match crate::ids::parse_ulid(followee_id) {
        Some(i) => i,
        None => 0,
    };
    Actor {
        id,
        username: String::from_str(target_username),
        name: None,
        username_lower: to_lowercase(target_username),
        bio: None,
        password_hash: None,
        email: None,
        created_at: now,
        updated_at: None,
        followers_count: 0,
        following_count: 0,
        notes_count: 0,
        avatar_url: None,
        banner_url: None,
        is_suspended: false,
        is_locked,
        is_bot: false,
        is_admin: false,
        host: None,
        token: None,
        inbox: Some(inbox),
        shared_inbox: None,
        featured: None,
        uri: Some(crate::models::make_user_url(instance_url, target_username)),
        public_key,
        private_key: Some(private_key),
    }
}

/// The inbox an answer to a follower goes to: its inbox, else `{uri}/inbox`
/// (with an empty URI when it has none).
pub open spec fn follower_inbox(follower: Actor) -> Seq<char> {
    match follower.inbox {
        Some(i) => i@,
        None => (match follower.uri {
            Some(u) => u@,
            None => Seq::<char>::empty(),
        }) + "/inbox"@,
    }
}

/// The inbox to send the answer to a follow to.
pub fn get_follower_inbox(follower: &Actor) -> (r: String)
    ensures
        r@ == follower_inbox(*follower),
{
    match &follower.inbox {
        Some(i) => i.clone(),
        None => {
            let mut r = match &follower.uri {
                Some(u) => u.clone(),
                None => String::new(),
            };
            r.append("/inbox");
            r
        },
    }
}

/// The note an `Announce` makes: a public renote by the announcer, with the
/// activity's id as its URI and the announced object's URI as what it renotes.
pub fn announce_note(id: u128, now: Timestamp, announcer: u128, activity_id: &str, announced_uri: String) -> (n: crate::models::Note)
    ensures
        n.id == id,
        n.created_at == now,
        n.actor_id == announcer,
        n.text is None,
        n.visibility == crate::models::NoteVisibility::Public,
        n.uri matches Some(u) && u@ == activity_id@,
        n.renote_uri == Some(announced_uri),
        n.renote_id is None,
        n.reply_id is None,
        n.renote_count == 0 && n.replies_count == 0 && n.reactions@.len() == 0,
{
    let mut n = crate::models::Note::new(id, now, announcer, None, crate::models::NoteVisibility::Public);
    n.uri = Some(String::from_str(activity_id));
    n.renote_uri = Some(announced_uri);
    n
}

/// The reaction a `Like` stands for.
pub fn like_emoji() -> (r: &'static str)
    ensures
        r@ == "⭐"@,
{
    "⭐"
}

} // verus!
