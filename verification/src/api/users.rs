//! Accounts: their public view, their relations to the viewer, and changes
//! to one's own.
use vstd::prelude::*;
use crate::error::{AppError, ErrorKind, err};
use crate::ids::{ulid_text, ulid_to_string, parse_ulid, ulid_parsed};
use crate::json::{Json, JsonV, json_view, lemma_json_view_compound, entries_view};
use crate::models::{Actor, user_url, make_user_url};
use crate::text::{split_on, str_chars, split_chars, views, chars_to_string, string_views, join, join_strings,
    bool_text, sql_quoted, quoted_assignment, bool_assignment};
use crate::time::{rfc3339_text, to_rfc3339};

verus! {

/// A password change.
#[derive(Clone, Debug)]
pub struct ChangePasswordRequest {
    pub current_password: String,
    pub new_password: String,
}

/// An account as clients see it.
#[derive(Clone, Debug)]
pub struct AccountResponse {
    pub id: String,
    pub username: String,
    pub acct: String,
    pub display_name: Option<String>,
    pub locked: bool,
    pub bot: bool,
    pub discoverable: bool,
    pub group: bool,
    pub created_at: String,
    pub note: String,
    pub url: String,
    pub avatar: String,
    pub avatar_static: String,
    pub header: String,
    pub header_static: String,
    pub followers_count: i32,
    pub following_count: i32,
    pub statuses_count: i32,
    pub last_status_at: Option<String>,
}

/// Changes to one's own profile.
#[derive(Clone, Debug)]
pub struct UpdateCredentialsRequest {
    pub display_name: Option<String>,
    pub note: Option<String>,
    pub locked: Option<bool>,
    pub bot: Option<bool>,
    pub avatar_id: Option<String>,
    pub header_id: Option<String>,
}

/// The accounts whose relation to the viewer is asked for.
#[derive(Clone, Debug)]
pub struct RelationsQuery {
    pub id: Vec<String>,
}

/// The relation between the viewer and one account.
#[derive(Clone, Debug)]
pub struct RelationResponse {
    pub id: String,
    pub following: bool,
    pub followed_by: bool,
    pub blocking: bool,
    pub blocked_by: bool,
    pub muting: bool,
    pub requested: bool,
}

/// Deletion of one's own account, confirmed by password.
#[derive(Clone, Debug)]
pub struct DeleteAccountRequest {
    pub password: String,
}

/// The `acct` of an account: the username for a local one,
/// `username@host` for a remote one.
pub open spec fn acct_of(actor: Actor) -> Seq<char> {
    match actor.host {
        None => actor.username@,
        Some(h) => actor.username@ + "@"@ + h@,
    }
}

/// The profile URL of an account: the local user URL, or the remote URI
/// (empty when unknown).
pub open spec fn profile_url(actor: Actor, instance_url: Seq<char>) -> Seq<char> {
    match actor.host {
        None => user_url(instance_url, actor.username@),
        Some(_) => match actor.uri {
            Some(u) => u@,
            None => Seq::empty(),
        },
    }
}

/// A stored image URL, or the instance's default image `name`.
pub open spec fn image_or_default(url: Option<String>, instance_url: Seq<char>, name: Seq<char>) -> Seq<char> {
    match url {
        Some(u) => u@,
        None => instance_url + "/static/"@ + name,
    }
}

fn image_or(url: &Option<String>, instance_url: &str, name: &str) -> (r: String)
    ensures
        r@ == image_or_default(*url, instance_url@, name@),
{
    match url {
        Some(u) => u.clone(),
        None => {
            let mut r = String::from_str(instance_url);
            r.append("/static/");
            r.append(name);
            r
        },
    }
}

/// An account as clients see it.
pub fn to_account_response(actor: &Actor, instance_url: &str) -> (r: AccountResponse)
    requires
        actor.created_at.wf(),
    ensures
        r.id@ == ulid_text(actor.id),
        r.username == actor.username,
        r.acct@ == acct_of(*actor),
        r.display_name == actor.name,
        r.locked == actor.is_locked,
        r.bot == actor.is_bot,
        r.discoverable,
        !r.group,
        r.created_at@ == rfc3339_text(actor.created_at.secs as int, actor.created_at.nanos as int),
        r.note@ == match actor.bio {
            Some(b) => b@,
            None => Seq::<char>::empty(),
        },
        r.url@ == profile_url(*actor, instance_url@),
        r.avatar@ == image_or_default(actor.avatar_url, instance_url@, "avatar.png"@),
        r.avatar_static@ == r.avatar@,
        r.header@ == image_or_default(actor.banner_url, instance_url@, "header.png"@),
        r.header_static@ == r.header@,
        r.followers_count == actor.followers_count,
        r.following_count == actor.following_count,
        r.statuses_count == actor.notes_count,
        r.last_status_at is None,
{
    let acct = match &actor.host {
        None => actor.username.clone(),
        Some(h) => {
            let mut a = actor.username.clone();
            a.append("@");
            a.append(h.as_str());
            a
        },
    };
    let url = match &actor.host {
        None => make_user_url(instance_url, actor.username.as_str()),
        Some(_) => match &actor.uri {
            Some(u) => u.clone(),
            None => String::new(),
        },
    };
    let note = match &actor.bio {
        Some(b) => b.clone(),
        None => String::new(),
    };
    AccountResponse {
        id: ulid_to_string(actor.id),
        username: actor.username.clone(),
        acct,
        display_name: actor.name.clone(),
        locked: actor.is_locked,
        bot: actor.is_bot,
        discoverable: true,
        group: false,
        created_at: to_rfc3339(actor.created_at),
        note,
        url,
        avatar: image_or(&actor.avatar_url, instance_url, "avatar.png"),
        avatar_static: image_or(&actor.avatar_url, instance_url, "avatar.png"),
        header: image_or(&actor.banner_url, instance_url, "header.png"),
        header_static: image_or(&actor.banner_url, instance_url, "header.png"),
        followers_count: actor.followers_count,
        following_count: actor.following_count,
        statuses_count: actor.notes_count,
        last_status_at: None,
    }
}

/// The ids in a comma-separated list that are ULIDs, in order; the others
/// are skipped.
pub open spec fn relation_ids(pieces: Seq<Seq<char>>) -> Seq<u128>
    decreases pieces.len(),
{
    if pieces.len() == 0 {
        Seq::empty()
    } else {
        let before = relation_ids(pieces.drop_last());
        match ulid_parsed(pieces.last()) {
            Some(id) => before.push(id),
            None => before,
        }
    }
}

/// The accounts a relations query asks about.
pub fn relation_targets(ids: &str) -> (r: Vec<u128>)
    ensures
        r@ == relation_ids(split_on(ids@, ',')),
{
    let chars = str_chars(ids);
    let parts = split_chars(&chars, ',');
    let ghost pv = views(parts@);
    let mut r: Vec<u128> = Vec::new();
    let mut i: usize = 0;
    while i < parts.len()
        invariant
            pv == views(parts@),
            pv == split_on(ids@, ','),
            i <= parts@.len(),
            r@ == relation_ids(pv.take(i as int)),
        decreases parts@.len() - i,
    {
        let ghost next = pv.take(i + 1);
        assert(next.drop_last() =~= pv.take(i as int));
        assert(next.last() == parts@[i as int]@);
        let piece = chars_to_string(&parts[i]);
        match parse_ulid(piece.as_str()) {
            Some(id) => r.push(id),
            None => {},
        }
        i = i + 1;
    }
    assert(pv.take(parts@.len() as int) =~= pv);
    r
}

/// The relation of the viewer to one account, from what the stores answer;
/// no request is pending.
pub fn relation_response(
    target: u128,
    following: bool,
    followed_by: bool,
    blocking: bool,
    blocked_by: bool,
    muting: bool,
) -> (r: RelationResponse)
    ensures
        r.id@ == ulid_text(target),
        r.following == following,
        r.followed_by == followed_by,
        r.blocking == blocking,
        r.blocked_by == blocked_by,
        r.muting == muting,
        !r.requested,
{
    RelationResponse { id: ulid_to_string(target), following, followed_by, blocking, blocked_by, muting, requested: false }
}

/// The assignments a profile change makes, in order: name, bio, locked, bot,
/// avatar and banner URLs (the URLs of the files found for the ids given,
/// empty when a file has none).
pub open spec fn credential_assignments(
    display_name: Option<Seq<char>>,
    note: Option<Seq<char>>,
    locked: Option<bool>,
    bot: Option<bool>,
    avatar_url: Option<Seq<char>>,
    banner_url: Option<Seq<char>>,
) -> Seq<Seq<char>> {
    (match display_name {
        Some(n) => seq!["name"@ + " = "@ + sql_quoted(n)],
        None => Seq::empty(),
    }) + (match note {
        Some(b) => seq!["bio"@ + " = "@ + sql_quoted(b)],
        None => Seq::empty(),
    }) + (match locked {
        Some(l) => seq!["is_locked"@ + " = "@ + bool_text(l)],
        None => Seq::empty(),
    }) + (match bot {
        Some(b) => seq!["is_bot"@ + " = "@ + bool_text(b)],
        None => Seq::empty(),
    }) + (match avatar_url {
        Some(u) => seq!["avatar_url"@ + " = "@ + sql_quoted(u)],
        None => Seq::empty(),
    }) + (match banner_url {
        Some(u) => seq!["banner_url"@ + " = "@ + sql_quoted(u)],
        None => Seq::empty(),
    })
}

/// The text of an optional string.
pub open spec fn opt_seq(o: Option<String>) -> Option<Seq<char>> {
    match o {
        Some(s) => Some(s@),
        None => None,
    }
}

/// Appends `{field} = '{value}'` when a value is given.
pub fn push_quoted_opt(parts: &mut Vec<String>, field: &str, value: &Option<String>)
    ensures
        string_views(final(parts)@) == string_views(old(parts)@) + match opt_seq(*value) {
            Some(v) => seq![field@ + " = "@ + sql_quoted(v)],
            None => Seq::<Seq<char>>::empty(),
        },
{
    let ghost before = string_views(parts@);
    if let Some(v) = value {
        parts.push(quoted_assignment(field, v.as_str()));
    }
    assert(string_views(parts@) =~= before + match opt_seq(*value) {
        Some(v) => seq![field@ + " = "@ + sql_quoted(v)],
        None => Seq::<Seq<char>>::empty(),
    });
}

/// Appends `{field} = true|false` when a value is given.
pub fn push_bool_opt(parts: &mut Vec<String>, field: &str, value: Option<bool>)
    ensures
        string_views(final(parts)@) == string_views(old(parts)@) + match value {
            Some(v) => seq![field@ + " = "@ + bool_text(v)],
            None => Seq::<Seq<char>>::empty(),
        },
{
    let ghost before = string_views(parts@);
    if let Some(v) = value {
        parts.push(bool_assignment(field, v));
    }
    assert(string_views(parts@) =~= before + match value {
        Some(v) => seq![field@ + " = "@ + bool_text(v)],
        None => Seq::<Seq<char>>::empty(),
    });
}

/// The statement that applies a profile change to user `id`, stamping the
/// update time; `None` when the change is empty.
pub open spec fn credentials_update_text(id: Seq<char>, assignments: Seq<Seq<char>>) -> Option<Seq<char>> {
    if assignments.len() == 0 {
        None
    } else {
        Some("UPDATE user:"@ + id + " SET "@ + join(assignments.push("updated_at = time::now()"@), ", "@))
    }
}

/// Builds the statement of a profile change. `avatar_url` and `banner_url`
/// are the URLs of the files the request's ids name, when they were found.
pub fn credentials_update(
    user_id: u128,
    req: &UpdateCredentialsRequest,
    avatar_url: &Option<String>,
    banner_url: &Option<String>,
) -> (r: Option<String>)
    ensures
        ({
            let a = credential_assignments(
                opt_seq(req.display_name),
                opt_seq(req.note),
                req.locked,
                req.bot,
                opt_seq(*avatar_url),
                opt_seq(*banner_url),
            );
            match r {
                Some(q) => credentials_update_text(ulid_text(user_id), a) == Some(q@),
                None => credentials_update_text(ulid_text(user_id), a) is None,
            }
        }),
{
    let mut parts: Vec<String> = Vec::new();
    push_quoted_opt(&mut parts, "name", &req.display_name);
    push_quoted_opt(&mut parts, "bio", &req.note);
    push_bool_opt(&mut parts, "is_locked", req.locked);
    push_bool_opt(&mut parts, "is_bot", req.bot);
    push_quoted_opt(&mut parts, "avatar_url", avatar_url);
    push_quoted_opt(&mut parts, "banner_url", banner_url);
    let ghost a = credential_assignments(
        opt_seq(req.display_name),
        opt_seq(req.note),
        req.locked,
        req.bot,
        opt_seq(*avatar_url),
        opt_seq(*banner_url),
    );
    assert(string_views(parts@) =~= a);
    if parts.len() == 0 {
        return None;
    }
    parts.push(String::from_str("updated_at = time::now()"));
    assert(string_views(parts@) =~= a.push("updated_at = time::now()"@));
    let mut q = String::from_str("UPDATE user:");
    let id = ulid_to_string(user_id);
    q.append(id.as_str());
    q.append(" SET ");
    let body = join_strings(&parts, ", ");
    q.append(body.as_str());
    Some(q)
}


/// Reads an account id from a path.
pub fn parse_actor_id(text: &str) -> (r: Result<u128, AppError>)
    ensures
        match r {
            Ok(id) => ulid_parsed(text@) == Some(id),
            Err(e) => ulid_parsed(text@) is None && e.is(ErrorKind::Validation, "Invalid actor ID"@),
        },
{
    match parse_ulid(text) {
        Some(id) => Ok(id),
        None => Err(err(ErrorKind::Validation, "Invalid actor ID")),
    }
}

/// Refuses an action aimed at oneself with `message`.
pub fn check_not_self(user_id: u128, target_id: u128, message: &str) -> (r: Result<(), AppError>)
    ensures
        r is Ok <==> user_id != target_id,
        r matches Err(e) ==> e.is(ErrorKind::Forbidden, message@),
{
    if user_id == target_id {
        return Err(err(ErrorKind::Forbidden, message));
    }
    Ok(())
}

/// Refuses to create a block or mute that exists, with `message`.
pub fn check_not_existing(exists: bool, message: &str) -> (r: Result<(), AppError>)
    ensures
        r is Ok <==> !exists,
        r matches Err(e) ==> e.is(ErrorKind::Conflict, message@),
{
    if exists {
        return Err(err(ErrorKind::Conflict, message));
    }
    Ok(())
}

/// What a follow of an account does.
#[derive(Clone, Copy, Debug, PartialEq, Eq, Structural)]
pub enum FollowAction {
    /// Follow at once.
    Follow,
    /// Ask the account, which approves followers by hand.
    Request,
    /// A request is already pending; nothing changes.
    AlreadyRequested,
}

/// The follow of an account that approves followers by hand becomes a
/// request (once); any other follow takes effect at once.
pub fn follow_action(target_is_locked: bool, request_exists: bool) -> (r: FollowAction)
    ensures
        !target_is_locked ==> r == FollowAction::Follow,
        target_is_locked && request_exists ==> r == FollowAction::AlreadyRequested,
        target_is_locked && !request_exists ==> r == FollowAction::Request,
{
    if !target_is_locked {
        FollowAction::Follow
    } else if request_exists {
        FollowAction::AlreadyRequested
    } else {
        FollowAction::Request
    }
}

/// The relationship answered after a follow or unfollow: whether it is in
/// effect, requested, and whether reblogs show; the other relations are
/// reported as absent. The `id` is the viewer's.
pub open spec fn relationship_view(viewer: u128, following: bool, requested: bool, showing_reblogs: bool) -> JsonV {
    JsonV::Object(
        seq![
            ("id"@, JsonV::Str(ulid_text(viewer))),
            ("following"@, JsonV::Bool(following)),
            ("requested"@, JsonV::Bool(requested)),
            ("showing_reblogs"@, JsonV::Bool(showing_reblogs)),
            ("notifying"@, JsonV::Bool(false)),
            ("followed_by"@, JsonV::Bool(false)),
            ("blocking"@, JsonV::Bool(false)),
            ("blocked_by"@, JsonV::Bool(false)),
            ("muting"@, JsonV::Bool(false)),
            ("muting_notifications"@, JsonV::Bool(false)),
            ("domain_blocking"@, JsonV::Bool(false)),
            ("endorsed"@, JsonV::Bool(false)),
        ],
    )
}

fn flag(k: &str, b: bool) -> (e: (String, Json))
    ensures
        e.0@ == k@,
        json_view(e.1) == JsonV::Bool(b),
{
    (String::from_str(k), Json::Bool(b))
}

/// The relationship answered after a follow or unfollow.
pub fn relationship(viewer: u128, following: bool, requested: bool, showing_reblogs: bool) -> (j: Json)
    ensures
        json_view(j) == relationship_view(viewer, following, requested, showing_reblogs),
{
    let j = Json::Object(
        vec![
            (String::from_str("id"), Json::Str(ulid_to_string(viewer))),
            flag("following", following),
            flag("requested", requested),
            flag("showing_reblogs", showing_reblogs),
            flag("notifying", false),
            flag("followed_by", false),
            flag("blocking", false),
            flag("blocked_by", false),
            flag("muting", false),
            flag("muting_notifications", false),
            flag("domain_blocking", false),
            flag("endorsed", false),
        ],
    );
    proof {
        lemma_json_view_compound(j);
        assert(entries_view(j->Object_0@) =~= relationship_view(viewer, following, requested, showing_reblogs)->Object_0);
    }
    j
}

/// The answer to a follow: following at once, or requested.
pub fn follow_result(viewer: u128, action: FollowAction) -> (j: Json)
    ensures
        json_view(j) == match action {
            FollowAction::Follow => relationship_view(viewer, true, false, true),
            _ => relationship_view(viewer, false, true, true),
        },
{
    match action {
        FollowAction::Follow => relationship(viewer, true, false, true),
        _ => relationship(viewer, false, true, true),
    }
}

/// What `bcrypt` answers when a password is checked against a stored hash:
/// whether it matches, or `None` when the hash cannot be read.
pub uninterp spec fn bcrypt_verdict(password: Seq<char>, hash: Seq<char>) -> Option<bool>;

/// `bcrypt::verify`: `Some(true)` when the password matches the modular-crypt
/// hash, `Some(false)` when it does not, `None` when the hash cannot be read
/// (bad prefix, cost, salt or length). Checking recomputes the hash with the
/// stored cost and salt, so the result depends on the two texts alone; the
/// algorithm is not restated here.
#[verifier::external_body]
fn bcrypt_verify(password: &str, hash: &str) -> (r: Option<bool>)
    ensures
        r == bcrypt_verdict(password@, hash@),
{
    bcrypt::verify(password, hash).ok()
}

/// What a deletion's password check answers: `Internal` when the account has
/// no password, `Internal` when the hash cannot be read, `Forbidden` for a wrong
/// password, `Ok` for the right one.
pub open spec fn password_check_outcome(has_hash: bool, verdict: Option<bool>, r: Result<(), AppError>) -> bool {
    if !has_hash {
        r matches Err(e) && e.is(ErrorKind::Internal, "No password set"@)
    } else {
        match verdict {
            None => r matches Err(e) && e.is(ErrorKind::Internal, "Password verification failed"@),
            Some(false) => r matches Err(e) && e.is(ErrorKind::Forbidden, "Incorrect password"@),
            Some(true) => r is Ok,
        }
    }
}

/// The answer to a deletion's password check, given whether the account has a
/// password hash and what checking the password against it gave.
pub fn password_check(has_hash: bool, verdict: Option<bool>) -> (r: Result<(), AppError>)
    ensures
        password_check_outcome(has_hash, verdict, r),
{
    if !has_hash {
        return Err(err(ErrorKind::Internal, "No password set"));
    }
    match verdict {
        None => Err(err(ErrorKind::Internal, "Password verification failed")),
        Some(false) => Err(err(ErrorKind::Forbidden, "Incorrect password")),
        Some(true) => Ok(()),
    }
}

/// Checks the password that confirms an account's deletion against the
/// account's stored hash.
pub fn check_account_password(password_hash: &Option<String>, password: &str) -> (r: Result<(), AppError>)
    ensures
        password_check_outcome(
            password_hash is Some,
            match password_hash {
                Some(h) => bcrypt_verdict(password@, h@),
                None => None,
            },
            r,
        ),
{
    match password_hash {
        Some(h) => {
            let v = bcrypt_verify(password, h.as_str());
            password_check(true, v)
        },
        None => password_check(false, None),
    }
}

/// The strings among JSON values, in order.
pub open spec fn strings_in(v: Seq<Json>) -> Seq<Seq<char>>
    decreases v.len(),
{
    if v.len() == 0 {
        Seq::empty()
    } else {
        strings_in(v.drop_last()) + match v.last() {
            Json::Str(s) => seq![s@],
            _ => Seq::empty(),
        }
    }
}

fn collect_strings(v: &Vec<Json>) -> (r: Vec<String>)
    ensures
        string_views(r@) == strings_in(v@),
{
    let mut r: Vec<String> = Vec::new();
    let mut i: usize = 0;
    while i < v.len()
        invariant
            i <= v@.len(),
            string_views(r@) == strings_in(v@.take(i as int)),
        decreases v@.len() - i,
    {
        if let Json::Str(s) = &v[i] {
            r.push(s.clone());
        }
        assert(v@.take(i as int + 1).drop_last() =~= v@.take(i as int));
        assert(string_views(r@) =~= strings_in(v@.take(i as int + 1)));
        i = i + 1;
    }
    assert(v@.take(v@.len() as int) =~= v@);
    r
}

/// The accounts a follow import names: the strings of its `user_ids` array.
pub open spec fn import_ids_spec(req: Json) -> Seq<Seq<char>> {
    match crate::json::field(req, "user_ids"@) {
        Some(Json::Array(v)) => strings_in(v@),
        _ => Seq::empty(),
    }
}

/// The ids a follow import names, or `Validation` when it names none.
pub fn import_user_ids(req: &Json) -> (r: Result<Vec<String>, AppError>)
    ensures
        match r {
            Ok(ids) => string_views(ids@) == import_ids_spec(*req) && ids@.len() > 0,
            Err(e) => import_ids_spec(*req).len() == 0 && e.is(ErrorKind::Validation, "No user IDs provided"@),
        },
{
    let ids = match req.get("user_ids") {
        Some(Json::Array(v)) => collect_strings(v),
        _ => Vec::new(),
    };
    if ids.len() == 0 {
        return Err(err(ErrorKind::Validation, "No user IDs provided"));
    }
    Ok(ids)
}

/// The name of an imported list: its `name` when that is a string, else
/// `Untitled`.
pub open spec fn list_name_of(item: Json) -> Seq<char> {
    match crate::json::str_field(item, "name"@) {
        Some(n) => n,
        None => "Untitled"@,
    }
}

/// The names of the lists a list import gives, in order, or `Validation`
/// when it gives none.
pub fn import_list_names(req: &Json) -> (r: Result<Vec<String>, AppError>)
    ensures
        match crate::json::field(*req, "lists"@) {
            Some(Json::Array(v)) if v@.len() > 0 => r matches Ok(names)
                && string_views(names@) == v@.map_values(|j: Json| list_name_of(j)),
            _ => r matches Err(e) && e.is(ErrorKind::Validation, "No lists provided"@),
        },
{
    let lists = match req.get("lists") {
        Some(Json::Array(v)) => v,
        _ => return Err(err(ErrorKind::Validation, "No lists provided")),
    };
    if lists.len() == 0 {
        return Err(err(ErrorKind::Validation, "No lists provided"));
    }
    let mut names: Vec<String> = Vec::new();
    let mut i: usize = 0;
    while i < lists.len()
        invariant
            i <= lists@.len(),
            string_views(names@) == lists@.take(i as int).map_values(|j: Json| list_name_of(j)),
        decreases lists@.len() - i,
    {
        let name = match crate::activitypub::inbox::get_str_field(&lists[i], "name") {
            Some(n) => n,
            None => String::from_str("Untitled"),
        };
        assert(name@ == list_name_of(lists@[i as int]));
        let ghost prev = names@;
        names.push(name);
        assert(string_views(names@) =~= string_views(prev).push(list_name_of(lists@[i as int])));
        assert(lists@.take(i as int + 1).map_values(|j: Json| list_name_of(j)) =~= lists@.take(i as int).map_values(
            |j: Json| list_name_of(j),
        ).push(list_name_of(lists@[i as int])));
        i = i + 1;
    }
    assert(lists@.take(lists@.len() as int) =~= lists@);
    Ok(names)
}

} // verus!