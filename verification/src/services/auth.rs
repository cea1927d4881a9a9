//! Authentication, with its token cache.
use vstd::prelude::*;
use crate::db::{DragonflyClient, SurrealClient};

verus! {

/// Authentication, with its token cache: the service over the two stores.
#[derive(Clone, Debug)]
pub struct AuthService {
    pub surreal: SurrealClient,
    pub dragonfly: DragonflyClient,
}

impl AuthService {
    /// A service over the given stores.
    pub fn new(surreal: SurrealClient, dragonfly: DragonflyClient) -> (s: Self)
        ensures
            s.surreal == surreal,
            s.dragonfly == dragonfly,
    {
        AuthService { surreal, dragonfly }
    }
}

/// The cache key an access token's actor is kept under.
pub open spec fn token_key(token: Seq<char>) -> Seq<char> {
    "token:"@ + token
}

/// Builds the cache key of an access token.
pub fn token_cache_key(token: &str) -> (r: String)
    ensures
        r@ == token_key(token@),
{
    let mut r = String::from_str("token:");
    r.append(token);
    r
}

/// Keys of different tokens differ, so a token's cache entry is its own.
pub proof fn lemma_token_keys_distinct(a: Seq<char>, b: Seq<char>)
    requires
        a != b,
    ensures
        token_key(a) != token_key(b),
{
    reveal_strlit("token:");
    if token_key(a) == token_key(b) {
        assert(token_key(a).skip(6) =~= a);
        assert(token_key(b).skip(6) =~= b);
    }
}

} // verus!
