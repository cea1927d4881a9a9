//! Bookmarks of notes.
use vstd::prelude::*;
use crate::db::{DragonflyClient, SurrealClient};

verus! {

/// Bookmarks of notes: the service over the two stores.
#[derive(Clone, Debug)]
pub struct BookmarkService {
    pub surreal: SurrealClient,
    pub dragonfly: DragonflyClient,
}

impl BookmarkService {
    /// A service over the given stores.
    pub fn new(surreal: SurrealClient, dragonfly: DragonflyClient) -> (s: Self)
        ensures
            s.surreal == surreal,
            s.dragonfly == dragonfly,
    {
        BookmarkService { surreal, dragonfly }
    }
}

/// Refuses a second bookmark of the same note.
pub fn check_not_bookmarked(already: bool) -> (r: Result<(), crate::error::AppError>)
    ensures
        r is Ok <==> !already,
        r matches Err(e) ==> e.is(crate::error::ErrorKind::BadRequest, "Note already bookmarked"@),
{
    if already {
        return Err(crate::error::err(crate::error::ErrorKind::BadRequest, "Note already bookmarked"));
    }
    Ok(())
}

} // verus!
