//! Where the server's two stores are reached. The connections themselves are
//! opened by the program around the library.
use vstd::prelude::*;

verus! {

/// The document database (SurrealDB): its endpoint.
#[derive(Clone, Debug)]
pub struct SurrealClient {
    pub endpoint: String,
}

/// The cache and queue server (Dragonfly, Redis protocol): its URL.
#[derive(Clone, Debug)]
pub struct DragonflyClient {
    pub url: String,
}

} // verus!
