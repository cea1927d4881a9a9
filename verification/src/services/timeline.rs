//! Timelines and their cache.
use vstd::prelude::*;
use crate::db::{DragonflyClient, SurrealClient};

verus! {

/// Timelines and their cache: the service over the two stores.
#[derive(Clone, Debug)]
pub struct TimelineService {
    pub surreal: SurrealClient,
    pub dragonfly: DragonflyClient,
}

impl TimelineService {
    /// A service over the given stores.
    pub fn new(surreal: SurrealClient, dragonfly: DragonflyClient) -> (s: Self)
        ensures
            s.surreal == surreal,
            s.dragonfly == dragonfly,
    {
        TimelineService { surreal, dragonfly }
    }
}

/// The cache commands after a note is pushed onto a cached timeline: the
/// list's key, the last index kept by the trim (the newest `trim_stop + 1`
/// stay) and the time to live in seconds.
#[derive(Clone, Debug)]
pub struct CachePush {
    pub key: String,
    pub trim_stop: i64,
    pub ttl_secs: i64,
}

/// The cache key of a user's home timeline.
pub open spec fn home_key(actor_id: Seq<char>) -> Seq<char> {
    "timeline:home:"@ + actor_id
}

/// The cache key of a user's home timeline.
pub fn home_timeline_key(actor_id: &str) -> (r: String)
    ensures
        r@ == home_key(actor_id@),
{
    let mut r = String::from_str("timeline:home:");
    r.append(actor_id);
    r
}

/// Pushing onto a home timeline keeps its 200 newest notes for an hour.
pub fn home_cache_push(actor_id: &str) -> (r: CachePush)
    ensures
        r.key@ == home_key(actor_id@),
        r.trim_stop == 199,
        r.ttl_secs == 3600,
{
    CachePush { key: home_timeline_key(actor_id), trim_stop: 199, ttl_secs: 3600 }
}

/// Pushing onto the public timeline keeps its 500 newest notes for an hour.
pub fn public_cache_push() -> (r: CachePush)
    ensures
        r.key@ == "timeline:public"@,
        r.trim_stop == 499,
        r.ttl_secs == 3600,
{
    CachePush { key: String::from_str("timeline:public"), trim_stop: 499, ttl_secs: 3600 }
}

/// The last index a read of the `limit` newest cached notes asks for. A
/// limit of 0 is refused: the index would go below zero.
pub fn cache_read_stop(limit: usize) -> (r: usize)
    requires
        limit > 0,
    ensures
        r == limit - 1,
{
    limit - 1
}

} // verus!
