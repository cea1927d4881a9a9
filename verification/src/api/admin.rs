//! Administration requests.
use vstd::prelude::*;
use crate::api::auth::{AuthUser, argon2_hash, argon2_verdict};
use crate::activitypub::inbox::{get_nested_str, get_str_field, nested_str};
use crate::api::checks::parse_id;
use crate::error::{AppError, ErrorKind, err};
use crate::ids::{ulid_parsed, ulid_text, ulid_to_string};
use crate::json::Json;
use crate::text::{bool_assignment, bool_text, join, join_strings, quoted_assignment, sql_quoted, string_views, trim_start_all, trim_start_matches};

verus! {

/// Listing of the delivery queue.
#[derive(Clone, Debug)]
pub struct QueueJobsQuery {
    pub limit: Option<usize>,
    pub host: Option<String>,
}

/// Listing of users.
#[derive(Clone, Debug)]
pub struct UsersQuery {
    pub limit: Option<usize>,
    pub offset: Option<usize>,
    pub sort: Option<String>,
    pub query: Option<String>,
}

/// Listing of drive files.
#[derive(Clone, Debug)]
pub struct AdminDriveFilesQuery {
    pub limit: Option<usize>,
    pub offset: Option<usize>,
    pub user_id: Option<String>,
}

/// Deletion of all of a user's files.
#[derive(Clone, Debug)]
pub struct DeleteUserFilesRequest {
    pub user_id: String,
}

/// Creation of a local user by an administrator.
#[derive(Clone, Debug)]
pub struct CreateUserRequest {
    pub username: String,
    pub password: String,
    pub email: Option<String>,
}

/// A password reset by an administrator.
#[derive(Clone, Debug)]
pub struct AdminChangePasswordRequest {
    pub user_id: String,
    pub new_password: String,
}

/// Changes to the instance's public information.
#[derive(Clone, Debug)]
pub struct UpdateMetaRequest {
    pub name: Option<String>,
    pub description: Option<String>,
    pub banner_url: Option<String>,
    pub icon_url: Option<String>,
    pub maintainer_name: Option<String>,
    pub maintainer_email: Option<String>,
    pub langs: Option<Vec<String>>,
    pub tos_url: Option<String>,
    pub repository_url: Option<String>,
    pub feedback_url: Option<String>,
    pub disable_registration: Option<bool>,
    pub disable_local_timeline: Option<bool>,
    pub disable_global_timeline: Option<bool>,
    pub enable_email: Option<bool>,
}

/// A refresh of a remote user.
#[derive(Clone, Debug)]
pub struct UpdateRemoteUserRequest {
    pub user_id: String,
}

/// A refresh of a federated instance.
#[derive(Clone, Debug)]
pub struct UpdateInstanceRequest {
    pub host: String,
}

/// Addition of a custom emoji from a drive file.
#[derive(Clone, Debug)]
pub struct AddEmojiRequest {
    pub name: String,
    pub file_id: String,
    pub category: Option<String>,
    pub aliases: Option<Vec<String>>,
}

/// Changes to a custom emoji.
#[derive(Clone, Debug)]
pub struct UpdateEmojiRequest {
    pub name: Option<String>,
    pub category: Option<String>,
    pub aliases: Option<Vec<String>>,
}

/// Lookup of a drive file by id or URL.
#[derive(Clone, Debug)]
pub struct ShowDriveFileRequest {
    pub file_id: Option<String>,
    pub url: Option<String>,
}

/// Only administrators pass.
pub fn require_admin(auth_user: &AuthUser) -> (r: Result<(), AppError>)
    ensures
        r is Ok <==> auth_user.is_admin,
        r matches Err(e) ==> e.is(ErrorKind::Forbidden, "Admin access required"@),
{
    if !auth_user.is_admin {
        return Err(err(ErrorKind::Forbidden, "Admin access required"));
    }
    Ok(())
}

/// An assignment of a quoted text, when a value is given.
pub open spec fn quoted_part(field: Seq<char>, value: Option<String>) -> Seq<Seq<char>> {
    match value {
        Some(v) => seq![field + " = "@ + sql_quoted(v@)],
        None => Seq::empty(),
    }
}

/// An assignment of a flag, when a value is given.
pub open spec fn bool_part(field: Seq<char>, value: Option<bool>) -> Seq<Seq<char>> {
    match value {
        Some(b) => seq![field + " = "@ + bool_text(b)],
        None => Seq::empty(),
    }
}

/// Appends the assignment of a quoted text, when a value is given.
pub fn push_quoted_part(parts: &mut Vec<String>, field: &str, value: &Option<String>)
    ensures
        string_views(final(parts)@) == string_views(old(parts)@) + quoted_part(field@, *value),
{
    let ghost before = string_views(parts@);
    if let Some(v) = value {
        parts.push(quoted_assignment(field, v.as_str()));
    }
    assert(string_views(parts@) =~= before + quoted_part(field@, *value));
}

/// Appends the assignment of a flag, when a value is given.
pub fn push_bool_part(parts: &mut Vec<String>, field: &str, value: Option<bool>)
    ensures
        string_views(final(parts)@) == string_views(old(parts)@) + bool_part(field@, value),
{
    let ghost before = string_views(parts@);
    if let Some(b) = value {
        parts.push(bool_assignment(field, b));
    }
    assert(string_views(parts@) =~= before + bool_part(field@, value));
}

/// The assignments a change of the instance's information makes, in order:
/// name, description, banner, icon, then the three switches.
pub open spec fn meta_assignments(req: UpdateMetaRequest) -> Seq<Seq<char>> {
    quoted_part("name"@, req.name) + quoted_part("description"@, req.description) + quoted_part("banner_url"@, req.banner_url)
        + quoted_part("icon_url"@, req.icon_url) + bool_part("disable_registration"@, req.disable_registration)
        + bool_part("disable_local_timeline"@, req.disable_local_timeline)
        + bool_part("disable_global_timeline"@, req.disable_global_timeline)
}

/// The statement that applies a change of the instance's information; `None`
/// when nothing changes. The other fields of the request are not stored.
pub fn meta_update_query(req: &UpdateMetaRequest) -> (r: Option<String>)
    ensures
        match r {
            Some(q) => meta_assignments(*req).len() > 0 && q@ == "UPDATE instance_config SET "@ + join(meta_assignments(*req), ", "@),
            None => meta_assignments(*req).len() == 0,
        },
{
    let mut parts: Vec<String> = Vec::new();
    push_quoted_part(&mut parts, "name", &req.name);
    push_quoted_part(&mut parts, "description", &req.description);
    push_quoted_part(&mut parts, "banner_url", &req.banner_url);
    push_quoted_part(&mut parts, "icon_url", &req.icon_url);
    push_bool_part(&mut parts, "disable_registration", req.disable_registration);
    push_bool_part(&mut parts, "disable_local_timeline", req.disable_local_timeline);
    push_bool_part(&mut parts, "disable_global_timeline", req.disable_global_timeline);
    assert(string_views(parts@) =~= meta_assignments(*req));
    if parts.len() == 0 {
        return None;
    }
    let mut q = String::from_str("UPDATE instance_config SET ");
    let body = join_strings(&parts, ", ");
    q.append(body.as_str());
    Some(q)
}

/// The assignments a change of a custom emoji makes: name, then category.
pub open spec fn emoji_assignments(req: UpdateEmojiRequest) -> Seq<Seq<char>> {
    quoted_part("name"@, req.name) + quoted_part("category"@, req.category)
}

/// The statement that applies a change of custom emoji `id`; `None` when
/// nothing changes. Aliases are not stored by this change.
pub fn emoji_update_query(id: u128, req: &UpdateEmojiRequest) -> (r: Option<String>)
    ensures
        match r {
            Some(q) => emoji_assignments(*req).len() > 0
                && q@ == "UPDATE emoji:"@ + ulid_text(id) + " SET "@ + join(emoji_assignments(*req), ", "@),
            None => emoji_assignments(*req).len() == 0,
        },
{
    let mut parts: Vec<String> = Vec::new();
    push_quoted_part(&mut parts, "name", &req.name);
    push_quoted_part(&mut parts, "category", &req.category);
    assert(string_views(parts@) =~= emoji_assignments(*req));
    if parts.len() == 0 {
        return None;
    }
    let mut q = String::from_str("UPDATE emoji:");
    let t = ulid_to_string(id);
    q.append(t.as_str());
    q.append(" SET ");
    let body = join_strings(&parts, ", ");
    q.append(body.as_str());
    Some(q)
}

/// The id of a custom emoji from a path, or `BadRequest`.
pub fn parse_emoji_id(text: &str) -> (r: Result<u128, AppError>)
    ensures
        match r {
            Ok(id) => ulid_parsed(text@) == Some(id),
            Err(e) => ulid_parsed(text@) is None && e.is(ErrorKind::BadRequest, "Invalid emoji ID"@),
        },
{
    parse_id(text, ErrorKind::BadRequest, "Invalid emoji ID")
}

/// The key prefix of a host's delivery queue.
pub open spec fn deliver_queue_prefix() -> Seq<char> {
    "federation:queue:deliver:"@
}

/// The host of a delivery queue key: the key without its leading prefix.
pub fn delayed_host(key: &str) -> (r: String)
    ensures
        r@ == trim_start_all(key@, deliver_queue_prefix()),
{
    trim_start_matches(key, "federation:queue:deliver:")
}

/// The host of an inbox queue key: the key without its leading prefix.
pub fn delayed_inbox_host(key: &str) -> (r: String)
    ensures
        r@ == trim_start_all(key@, "federation:queue:inbox:"@),
{
    trim_start_matches(key, "federation:queue:inbox:")
}

/// Where a host publishes its node information.
pub fn nodeinfo_url(host: &str) -> (r: String)
    ensures
        r@ == "https://"@ + host@ + "/.well-known/nodeinfo"@,
{
    let mut r = String::from_str("https://");
    r.append(host);
    r.append("/.well-known/nodeinfo");
    r
}

/// The software a node information document names, or `unknown`.
pub fn software_name(nodeinfo: &Json) -> (r: String)
    ensures
        r@ == match nested_str(*nodeinfo, "software"@, "name"@) {
            Some(n) => n,
            None => "unknown"@,
        },
{
    match get_nested_str(nodeinfo, "software", "name") {
        Some(n) => n,
        None => String::from_str("unknown"),
    }
}

/// The listing of drive files: of one owner when given, else of all.
pub fn drive_files_query(user_id: &Option<String>) -> (q: &'static str)
    ensures
        q@ == (if user_id is Some {
            "SELECT * FROM drive_file WHERE owner_id = $user_id LIMIT $limit START $offset"@
        } else {
            "SELECT * FROM drive_file LIMIT $limit START $offset"@
        }),
{
    if user_id.is_some() {
        "SELECT * FROM drive_file WHERE owner_id = $user_id LIMIT $limit START $offset"
    } else {
        "SELECT * FROM drive_file LIMIT $limit START $offset"
    }
}

/// How a drive file is looked up.
#[derive(Clone, Debug)]
pub enum FileLookup {
    ById(u128),
    ByUrl(String),
}

/// The lookup a request asks for: by id when it gives one (`BadRequest` when
/// the id is no ULID), else by URL, else `BadRequest`.
pub fn file_lookup(req: &ShowDriveFileRequest) -> (r: Result<FileLookup, AppError>)
    ensures
        match req.file_id {
            Some(t) => match ulid_parsed(t@) {
                Some(id) => r matches Ok(FileLookup::ById(i)) && i == id,
                None => r matches Err(e) && e.is(ErrorKind::BadRequest, "Invalid file ID"@),
            },
            None => match req.url {
                Some(u) => r matches Ok(FileLookup::ByUrl(v)) && v@ == u@,
                None => r matches Err(e) && e.is(ErrorKind::BadRequest, "file_id or url is required"@),
            },
        },
{
    if let Some(t) = &req.file_id {
        let id = parse_id(t.as_str(), ErrorKind::BadRequest, "Invalid file ID")?;
        return Ok(FileLookup::ById(id));
    }
    match &req.url {
        Some(u) => Ok(FileLookup::ByUrl(u.clone())),
        None => Err(err(ErrorKind::BadRequest, "file_id or url is required")),
    }
}

/// The integer a result row holds under `key`, or 0 without one (a
/// `count()` row holds its count under `count`).
pub fn row_int(row: &Option<Json>, key: &str) -> (r: i64)
    ensures
        r == match *row {
            Some(j) => match crate::json::field(j, key@) {
                Some(c) => match crate::json::as_i64_spec(c) {
                    Some(n) => n,
                    None => 0,
                },
                None => 0,
            },
            None => 0,
        },
{
    match row {
        Some(j) => match j.get(key) {
            Some(c) => match c.as_i64() {
                Some(n) => n,
                None => 0,
            },
            None => 0,
        },
        None => 0,
    }
}

/// The URI a stored remote user has, or the empty text.
pub fn stored_uri(row: &Json) -> (r: String)
    ensures
        r@ == match crate::json::str_field(*row, "uri"@) {
            Some(u) => u,
            None => Seq::empty(),
        },
{
    match get_str_field(row, "uri") {
        Some(u) => u,
        None => String::new(),
    }
}

/// The display name and bio that a refreshed remote actor document gives:
/// its `name` and `summary`, where they are strings.
pub fn remote_profile(remote: &Json) -> (r: (Option<String>, Option<String>))
    ensures
        crate::activitypub::inbox::opt_text(r.0) == crate::json::str_field(*remote, "name"@),
        crate::activitypub::inbox::opt_text(r.1) == crate::json::str_field(*remote, "summary"@),
{
    (get_str_field(remote, "name"), get_str_field(remote, "summary"))
}

/// An administrator's creation of a user is refused with `Conflict` when the
/// lowercased name is taken.
pub fn check_admin_username_free(taken: bool) -> (r: Result<(), AppError>)
    ensures
        r is Ok <==> !taken,
        r matches Err(e) ==> e.is(ErrorKind::Conflict, "Username already taken"@),
{
    if taken {
        return Err(err(ErrorKind::Conflict, "Username already taken"));
    }
    Ok(())
}

/// The error a failed password hash answers with.
pub fn hash_failure(detail: &str) -> (e: AppError)
    ensures
        e.is(ErrorKind::Internal, "Failed to hash password: "@ + detail@),
{
    let mut m = String::from_str("Failed to hash password: ");
    m.append(detail);
    AppError::Internal(m)
}

/// Hashes the password an administrator sets for a user, under a fresh
/// random salt: an Argon2id PHC string that the same password checks
/// against at sign-in. The hasher's failure answers as `hash_failure` of its
/// text.
pub fn admin_password_hash(password: &str) -> (r: Result<String, AppError>)
    ensures
        r matches Ok(h) ==> argon2_verdict(password@, h@) matches Ok(true),
        r matches Ok(h) ==> "$argon2id$v=19$"@.is_prefix_of(h@),
        r matches Err(e) ==> e.kind() == ErrorKind::Internal
            && "Failed to hash password: "@.is_prefix_of(e.message()),
{
    match argon2_hash(password) {
        Ok(h) => Ok(h),
        Err(m) => Err(hash_failure(m.as_str())),
    }
}

/// The user id an administrator's request names, or `BadRequest`.
pub fn parse_admin_user_id(text: &str) -> (r: Result<u128, AppError>)
    ensures
        match r {
            Ok(id) => ulid_parsed(text@) == Some(id),
            Err(e) => ulid_parsed(text@) is None && e.is(ErrorKind::BadRequest, "Invalid user ID"@),
        },
{
    parse_id(text, ErrorKind::BadRequest, "Invalid user ID")
}

} // verus!
