//! Bookmark listing.
use vstd::prelude::*;

verus! {

/// How many bookmarks a page lists unless the query says.
pub fn default_limit() -> (r: i64)
    ensures
        r == 40,
{
    40
}

/// Query of the bookmark list; a missing limit is `default_limit()` and a
/// missing offset 0.
#[derive(Clone, Debug)]
pub struct BookmarkListQuery {
    pub limit: i64,
    pub offset: i64,
}

impl BookmarkListQuery {
    /// The query with whichever of the two values the client left out filled
    /// in.
    pub fn with_defaults(limit: Option<i64>, offset: Option<i64>) -> (q: Self)
        ensures
            q.limit == match limit {
                Some(l) => l,
                None => 40,
            },
            q.offset == match offset {
                Some(o) => o,
                None => 0,
            },
    {
        BookmarkListQuery {
            limit: match limit {
                Some(l) => l,
                None => default_limit(),
            },
            offset: match offset {
                Some(o) => o,
                None => 0,
            },
        }
    }
}

} // verus!
