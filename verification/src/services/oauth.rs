//! OAuth applications.
use vstd::prelude::*;
use crate::db::{DragonflyClient, SurrealClient};

verus! {

/// OAuth applications: the service over the two stores.
#[derive(Clone, Debug)]
pub struct OAuthService {
    pub surreal: SurrealClient,
    pub dragonfly: DragonflyClient,
}

impl OAuthService {
    /// A service over the given stores.
    pub fn new(surreal: SurrealClient, dragonfly: DragonflyClient) -> (s: Self)
        ensures
            s.surreal == surreal,
            s.dragonfly == dragonfly,
    {
        OAuthService { surreal, dragonfly }
    }
}

} // verus!
