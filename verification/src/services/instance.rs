//! Instance configuration and statistics.
use vstd::prelude::*;
use crate::api::admin::{bool_part, push_bool_part, push_quoted_part, quoted_part};
use crate::db::{DragonflyClient, SurrealClient};
use crate::ids::{ulid_text, ulid_to_string};
use crate::text::{join, join_strings, push_signed_decimal, signed_decimal, string_views};
use crate::time::Timestamp;

verus! {

/// Instance configuration operations.
#[derive(Clone, Debug)]
pub struct InstanceService {
    pub surreal: SurrealClient,
    pub dragonfly: DragonflyClient,
}

impl InstanceService {
    /// A service over the given stores.
    pub fn new(surreal: SurrealClient, dragonfly: DragonflyClient) -> (s: Self)
        ensures
            s.surreal == surreal,
            s.dragonfly == dragonfly,
    {
        InstanceService { surreal, dragonfly }
    }
}

/// Counts of the instance.
#[derive(Clone, Copy, Debug, PartialEq, Eq, Structural)]
pub struct InstanceStats {
    pub notes_count: i64,
    pub original_notes_count: i64,
    pub users_count: i64,
    pub original_users_count: i64,
    pub remote_users_count: i64,
    pub instances: i64,
    pub drive_usage_local: i64,
    pub drive_usage_remote: i64,
}

impl InstanceStats {
    /// The statistics reported when the store has none: all zero.
    pub fn empty() -> (s: Self)
        ensures
            s.notes_count == 0 && s.original_notes_count == 0 && s.users_count == 0,
            s.original_users_count == 0 && s.remote_users_count == 0 && s.instances == 0,
            s.drive_usage_local == 0 && s.drive_usage_remote == 0,
    {
        InstanceStats {
            notes_count: 0,
            original_notes_count: 0,
            users_count: 0,
            original_users_count: 0,
            remote_users_count: 0,
            instances: 0,
            drive_usage_local: 0,
            drive_usage_remote: 0,
        }
    }
}

/// Who may register.
#[derive(Clone, Copy, Debug, PartialEq, Eq, Structural)]
pub enum RegistrationMode {
    Open,
    Invite,
    Closed,
}

/// The stored name of a registration mode.
pub open spec fn mode_name(m: RegistrationMode) -> Seq<char> {
    match m {
        RegistrationMode::Open => "open"@,
        RegistrationMode::Invite => "invite"@,
        RegistrationMode::Closed => "closed"@,
    }
}

/// The instance's settings.
#[derive(Clone, Debug)]
pub struct InstanceConfig {
    pub id: u128,
    pub created_at: Timestamp,
    pub updated_at: Option<Timestamp>,
    pub registration_mode: RegistrationMode,
    pub maintenance_mode: bool,
    pub name: String,
    pub description: Option<String>,
    pub max_file_size: i64,
    pub max_note_length: i32,
    pub email_verification_required: bool,
    pub captcha_enabled: bool,
}

/// A change of the instance's settings: each field given replaces the stored
/// one.
#[derive(Clone, Debug)]
pub struct UpdateInstanceConfigRequest {
    pub registration_mode: Option<RegistrationMode>,
    pub maintenance_mode: Option<bool>,
    pub name: Option<String>,
    pub description: Option<String>,
    pub max_file_size: Option<i64>,
    pub max_note_length: Option<i32>,
    pub email_verification_required: Option<bool>,
    pub captcha_enabled: Option<bool>,
}

/// The settings of a new instance, with id `id` and made at `now`: open
/// registration, no maintenance, named "Mithic Instance", files up to 100 MiB,
/// notes up to 5000 characters, no email verification and no captcha.
pub fn default_instance_config(id: u128, now: Timestamp) -> (c: InstanceConfig)
    ensures
        c.id == id,
        c.created_at == now,
        c.updated_at is None,
        c.registration_mode == RegistrationMode::Open,
        !c.maintenance_mode,
        c.name@ == "Mithic Instance"@,
        c.description matches Some(d) && d@ == "Welcome to Mithic"@,
        c.max_file_size == 104857600,
        c.max_note_length == 5000,
        !c.email_verification_required,
        !c.captcha_enabled,
{
    InstanceConfig {
        id,
        created_at: now,
        updated_at: None,
        registration_mode: RegistrationMode::Open,
        maintenance_mode: false,
        name: String::from_str("Mithic Instance"),
        description: Some(String::from_str("Welcome to Mithic")),
        max_file_size: 104857600,
        max_note_length: 5000,
        email_verification_required: false,
        captcha_enabled: false,
    }
}

/// An assignment of a number, when a value is given.
pub open spec fn number_part(field: Seq<char>, value: Option<int>) -> Seq<Seq<char>> {
    match value {
        Some(n) => seq![field + " = "@ + signed_decimal(n)],
        None => Seq::empty(),
    }
}

/// The assignments a change of the settings makes, in order.
pub open spec fn config_assignments(req: UpdateInstanceConfigRequest) -> Seq<Seq<char>> {
    (match req.registration_mode {
        Some(m) => seq!["registration_mode = '"@ + mode_name(m) + "'"@],
        None => Seq::empty(),
    }) + bool_part("maintenance_mode"@, req.maintenance_mode) + quoted_part("name"@, req.name)
        + quoted_part("description"@, req.description)
        + number_part("max_file_size"@, match req.max_file_size { Some(n) => Some(n as int), None => None })
        + number_part("max_note_length"@, match req.max_note_length { Some(n) => Some(n as int), None => None })
        + bool_part("email_verification_required"@, req.email_verification_required)
        + bool_part("captcha_enabled"@, req.captcha_enabled)
}

fn push_number_part(parts: &mut Vec<String>, field: &str, value: Option<i64>)
    ensures
        string_views(final(parts)@) == string_views(old(parts)@) + number_part(
            field@,
            match value { Some(n) => Some(n as int), None => None },
        ),
{
    let ghost before = string_views(parts@);
    if let Some(n) = value {
        let mut a = String::from_str(field);
        a.append(" = ");
        push_signed_decimal(&mut a, n);
        parts.push(a);
    }
    assert(string_views(parts@) =~= before + number_part(field@, match value { Some(n) => Some(n as int), None => None }));
}

/// The statement that applies a change to the settings record `config_id`,
/// stamping the update time; `None` when nothing changes.
pub fn config_update_query(config_id: u128, req: &UpdateInstanceConfigRequest) -> (r: Option<String>)
    ensures
        match r {
            Some(q) => config_assignments(*req).len() > 0 && q@ == "UPDATE instance_config:"@ + ulid_text(config_id) + " SET "@
                + join(config_assignments(*req).push("updated_at = time::now()"@), ", "@),
            None => config_assignments(*req).len() == 0,
        },
{
    let mut parts: Vec<String> = Vec::new();
    if let Some(m) = req.registration_mode {
        let mut a = String::from_str("registration_mode = '");
        match m {
            RegistrationMode::Open => a.append("open"),
            RegistrationMode::Invite => a.append("invite"),
            RegistrationMode::Closed => a.append("closed"),
        }
        a.append("'");
        parts.push(a);
    }
    let ghost p0 = string_views(parts@);
    assert(p0 =~= match req.registration_mode {
        Some(m) => seq!["registration_mode = '"@ + mode_name(m) + "'"@],
        None => Seq::<Seq<char>>::empty(),
    });
    push_bool_part(&mut parts, "maintenance_mode", req.maintenance_mode);
    push_quoted_part(&mut parts, "name", &req.name);
    push_quoted_part(&mut parts, "description", &req.description);
    push_number_part(&mut parts, "max_file_size", req.max_file_size);
    let note_len: Option<i64> = match req.max_note_length {
        Some(n) => Some(n as i64),
        None => None,
    };
    push_number_part(&mut parts, "max_note_length", note_len);
    push_bool_part(&mut parts, "email_verification_required", req.email_verification_required);
    push_bool_part(&mut parts, "captcha_enabled", req.captcha_enabled);
    assert(string_views(parts@) =~= config_assignments(*req));
    if parts.len() == 0 {
        return None;
    }
    let ghost assigned = string_views(parts@);
    parts.push(String::from_str("updated_at = time::now()"));
    assert(string_views(parts@) =~= assigned.push("updated_at = time::now()"@));
    let mut q = String::from_str("UPDATE instance_config:");
    let t = ulid_to_string(config_id);
    q.append(t.as_str());
    q.append(" SET ");
    let body = join_strings(&parts, ", ");
    q.append(body.as_str());
    Some(q)
}

} // verus!
