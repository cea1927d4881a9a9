//! Clips: named collections of notes that a user keeps, public or private.
use vstd::prelude::*;
use crate::api::checks::{check_owner, found};
use crate::error::{err, AppError, ErrorKind};
use crate::time::Timestamp;

verus! {

/// A clip.
#[derive(Clone, Debug)]
pub struct Clip {
    pub id: u128,
    pub user_id: u128,
    pub name: String,
    pub is_public: bool,
    pub description: Option<String>,
    pub created_at: Timestamp,
    pub updated_at: Option<Timestamp>,
}

/// The longest clip name, in bytes of UTF-8.
pub const MAX_CLIP_NAME_BYTES: usize = 100;

/// The number of bytes of the UTF-8 form of a text.
pub open spec fn byte_len(s: Seq<char>) -> nat {
    vstd::utf8::encode_utf8(s).len()
}

/// Refuses an empty clip name and one over 100 bytes.
pub fn check_clip_name(name: &str) -> (r: Result<(), AppError>)
    ensures
        r is Ok <==> name@.len() > 0 && byte_len(name@) <= MAX_CLIP_NAME_BYTES,
        r matches Err(e) ==> if name@.len() == 0 {
            e.is(ErrorKind::Validation, "Clip name cannot be empty"@)
        } else {
            e.is(ErrorKind::Validation, "Clip name too long (max 100 chars)"@)
        },
{
    if name.unicode_len() == 0 {
        return Err(err(ErrorKind::Validation, "Clip name cannot be empty"));
    }
    if name.as_bytes().len() > MAX_CLIP_NAME_BYTES {
        return Err(err(ErrorKind::Validation, "Clip name too long (max 100 chars)"));
    }
    Ok(())
}

/// Checks the new name of a clip, when the change gives one.
pub fn check_clip_rename(name: &Option<String>) -> (r: Result<(), AppError>)
    ensures
        match name {
            None => r is Ok,
            Some(n) => (r is Ok <==> n@.len() > 0 && byte_len(n@) <= MAX_CLIP_NAME_BYTES) && (r matches Err(e) ==> if n@.len() == 0 {
                e.is(ErrorKind::Validation, "Clip name cannot be empty"@)
            } else {
                e.is(ErrorKind::Validation, "Clip name too long (max 100 chars)"@)
            }),
        },
{
    match name {
        Some(n) => check_clip_name(n.as_str()),
        None => Ok(()),
    }
}

/// The clip a lookup found, when `user_id` may see it: its owner always, others
/// when it is public. `NotFound` without a clip, `Forbidden` for a private clip
/// of another user.
pub fn visible_clip(record: Option<Clip>, user_id: u128) -> (r: Result<Clip, AppError>)
    ensures
        match record {
            None => r matches Err(e) && e.is(ErrorKind::NotFound, "Clip not found"@),
            Some(c) => if c.user_id == user_id || c.is_public {
                r matches Ok(d) && d == c
            } else {
                r matches Err(e) && e.is(ErrorKind::Forbidden, "You don't have access to this clip"@)
            },
        },
{
    let clip = found(record, "Clip not found")?;
    if clip.user_id != user_id && !clip.is_public {
        return Err(err(ErrorKind::Forbidden, "You don't have access to this clip"));
    }
    Ok(clip)
}

/// The clip a lookup found, when `user_id` owns it: `NotFound` without a
/// clip, `Forbidden` for a clip of another user.
pub fn owned_clip(record: Option<Clip>, user_id: u128) -> (r: Result<Clip, AppError>)
    ensures
        match record {
            None => r matches Err(e) && e.is(ErrorKind::NotFound, "Clip not found"@),
            Some(c) => if c.user_id == user_id {
                r matches Ok(d) && d == c
            } else {
                r matches Err(e) && e.is(ErrorKind::Forbidden, "You don't own this clip"@)
            },
        },
{
    let clip = found(record, "Clip not found")?;
    check_owner(clip.user_id, user_id, "You don't own this clip")?;
    Ok(clip)
}

/// Refuses to add a note that the clip holds already.
pub fn check_not_clipped(already: bool) -> (r: Result<(), AppError>)
    ensures
        r is Ok <==> !already,
        r matches Err(e) ==> e.is(ErrorKind::Conflict, "Note is already in this clip"@),
{
    if already {
        return Err(err(ErrorKind::Conflict, "Note is already in this clip"));
    }
    Ok(())
}

} // verus!
