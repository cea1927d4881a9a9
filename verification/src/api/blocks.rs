//! Blocks and mutes: the rules for making and undoing them, and when a mute
//! lapses.
use vstd::prelude::*;
use crate::api::checks::{check_owner, found};
use crate::error::{err, AppError, ErrorKind};
use crate::time::{add_seconds, later, MAX_SECS, MIN_SECS, Timestamp};

verus! {

/// A block of one account by another.
#[derive(Clone, Debug)]
pub struct Block {
    pub id: u128,
    pub blocker_id: u128,
    pub blockee_id: u128,
    pub created_at: Timestamp,
}

/// A mute of one account by another, lapsing at `expires_at` when it has one.
#[derive(Clone, Debug)]
pub struct Mute {
    pub id: u128,
    pub muter_id: u128,
    pub mutee_id: u128,
    pub created_at: Timestamp,
    pub expires_at: Option<Timestamp>,
}

/// The result of the checks before a block or mute of `target` by `user_id`:
/// the target's id, or `NotFound` without a target, `Validation` with
/// `self_message` for oneself, `Validation` with `exists_message` when it is
/// in place already.
pub open spec fn target_checked(
    user_id: u128,
    target: Option<u128>,
    already: bool,
    self_message: Seq<char>,
    exists_message: Seq<char>,
    r: Result<u128, AppError>,
) -> bool {
    match target {
        None => r matches Err(e) && e.is(ErrorKind::NotFound, "User not found"@),
        Some(t) => if t == user_id {
            r matches Err(e) && e.is(ErrorKind::Validation, self_message)
        } else if already {
            r matches Err(e) && e.is(ErrorKind::Validation, exists_message)
        } else {
            r == Ok::<u128, AppError>(t)
        },
    }
}

fn check_target(user_id: u128, target: Option<u128>, already: bool, self_message: &str, exists_message: &str) -> (r: Result<u128, AppError>)
    ensures
        target_checked(user_id, target, already, self_message@, exists_message@, r),
{
    let t = found(target, "User not found")?;
    if t == user_id {
        return Err(err(ErrorKind::Validation, self_message));
    }
    if already {
        return Err(err(ErrorKind::Validation, exists_message));
    }
    Ok(t)
}

/// Checks a block of `target` (the account found, if any) by `user_id`, when
/// `already` says whether the block exists.
pub fn block_target(user_id: u128, target: Option<u128>, already: bool) -> (r: Result<u128, AppError>)
    ensures
        target_checked(user_id, target, already, "Cannot block yourself"@, "Already blocked"@, r),
{
    check_target(user_id, target, already, "Cannot block yourself", "Already blocked")
}

/// Checks a mute of `target` (the account found, if any) by `user_id`, when
/// `already` says whether the mute exists.
pub fn mute_target(user_id: u128, target: Option<u128>, already: bool) -> (r: Result<u128, AppError>)
    ensures
        target_checked(user_id, target, already, "Cannot mute yourself"@, "Already muted"@, r),
{
    check_target(user_id, target, already, "Cannot mute yourself", "Already muted")
}

/// The block a lookup found, when `user_id` made it: `NotFound` without one,
/// `Forbidden` for a block by another user.
pub fn owned_block(record: Option<Block>, user_id: u128) -> (r: Result<Block, AppError>)
    ensures
        match record {
            None => r matches Err(e) && e.is(ErrorKind::NotFound, "Block not found"@),
            Some(b) => if b.blocker_id == user_id {
                r matches Ok(c) && c == b
            } else {
                r matches Err(e) && e.is(ErrorKind::Forbidden, "Not authorized"@)
            },
        },
{
    let block = found(record, "Block not found")?;
    check_owner(block.blocker_id, user_id, "Not authorized")?;
    Ok(block)
}

/// The mute a lookup found, when `user_id` made it: `NotFound` without one,
/// `Forbidden` for a mute by another user.
pub fn owned_mute(record: Option<Mute>, user_id: u128) -> (r: Result<Mute, AppError>)
    ensures
        match record {
            None => r matches Err(e) && e.is(ErrorKind::NotFound, "Mute not found"@),
            Some(m) => if m.muter_id == user_id {
                r matches Ok(n) && n == m
            } else {
                r matches Err(e) && e.is(ErrorKind::Forbidden, "Not authorized"@)
            },
        },
{
    let mute = found(record, "Mute not found")?;
    check_owner(mute.muter_id, user_id, "Not authorized")?;
    Ok(mute)
}

/// When a mute asked for at `now` lapses: `expires_in` seconds later, or never
/// without a duration. The instant must stay in `chrono`'s range.
pub fn mute_expiry(now: Timestamp, expires_in: Option<i64>) -> (r: Option<Timestamp>)
    requires
        now.wf(),
        expires_in matches Some(s) ==> MIN_SECS <= now.secs + s <= MAX_SECS,
    ensures
        r == match expires_in {
            Some(s) => Some(Timestamp { secs: (now.secs + s) as i64, nanos: now.nanos }),
            None => None::<Timestamp>,
        },
{
    match expires_in {
        Some(s) => add_seconds(now, s),
        None => None,
    }
}

/// The mute has lapsed at `now`: its end lies before `now`. Lapsed mutes are
/// the ones the cleanup deletes.
pub open spec fn mute_lapsed(m: Mute, now: Timestamp) -> bool {
    match m.expires_at {
        Some(e) => later(now, e),
        None => false,
    }
}

/// Whether a mute lapsed at `now`, the cleanup's test.
pub fn is_mute_lapsed(m: &Mute, now: Timestamp) -> (r: bool)
    ensures
        r == mute_lapsed(*m, now),
{
    match m.expires_at {
        Some(e) => now.secs > e.secs || (now.secs == e.secs && now.nanos > e.nanos),
        None => false,
    }
}

/// The mute is in force at `now`: it has no end, or its end is not past.
pub open spec fn mute_active(m: Mute, now: Timestamp) -> bool {
    match m.expires_at {
        Some(e) => !later(now, e),
        None => true,
    }
}

/// Whether a mute is in force at `now`.
pub fn is_mute_active(m: &Mute, now: Timestamp) -> (r: bool)
    ensures
        r == mute_active(*m, now),
{
    match m.expires_at {
        Some(e) => !(now.secs > e.secs || (now.secs == e.secs && now.nanos > e.nanos)),
        None => true,
    }
}

/// A mute is in force exactly as long as the cleanup keeps it, and a mute
/// made without a duration never lapses.
pub proof fn lemma_mute_active_until_cleanup(m: Mute, now: Timestamp)
    ensures
        mute_active(m, now) <==> !mute_lapsed(m, now),
        m.expires_at is None ==> mute_active(m, now),
{
}

} // verus!
