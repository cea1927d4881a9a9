//! Search.
use vstd::prelude::*;
use crate::ids::{ulid_text, ulid_to_string};
use crate::models::Actor;
use crate::error::{AppError, ErrorKind, err};
use crate::text::{lowercase, to_lowercase, trim_start_all, trim_start_matches, str_eq};

verus! {

/// A search: the text, and optionally which kind of result (accounts,
/// statuses or hashtags).
#[derive(Clone, Debug)]
pub struct SearchQuery {
    pub q: String,
    pub search_type: Option<String>,
    pub limit: Option<i64>,
    pub offset: Option<i64>,
}

/// An account found by a search.
#[derive(Clone, Debug)]
pub struct AccountResult {
    pub id: String,
    pub username: String,
    pub display_name: Option<String>,
    pub avatar: Option<String>,
    pub is_bot: bool,
}

/// The search result for an actor.
pub fn account_result(actor: &Actor) -> (r: AccountResult)
    ensures
        r.id@ == ulid_text(actor.id),
        r.username == actor.username,
        r.display_name == actor.name,
        r.avatar == actor.avatar_url,
        r.is_bot == actor.is_bot,
{
    AccountResult {
        id: ulid_to_string(actor.id),
        username: actor.username.clone(),
        display_name: actor.name.clone(),
        avatar: actor.avatar_url.clone(),
        is_bot: actor.is_bot,
    }
}


/// How many results of each kind a search lists: 20 unless the query says,
/// and never more than 40.
pub open spec fn search_limit(limit: Option<i64>) -> i64 {
    let l = match limit {
        Some(l) => l,
        None => 20,
    };
    if l < 40 {
        l
    } else {
        40
    }
}

/// What a search looks for, and with which terms.
#[derive(Clone, Debug)]
pub struct SearchPlan {
    pub limit: i64,
    /// Accounts whose lowercased name contains `account_term`.
    pub accounts: bool,
    pub account_term: String,
    /// Public and home notes whose text contains the query.
    pub statuses: bool,
    pub status_term: String,
    /// Tags of public and home notes containing the query without its
    /// leading `#`s.
    pub hashtags: bool,
    pub hashtag_term: String,
}

/// A search kind is looked for when none is named or it is the one named.
pub open spec fn wants(kind: Option<String>, name: Seq<char>) -> bool {
    match kind {
        None => true,
        Some(k) => k@ == name,
    }
}

/// The three kinds a search looks for.
pub open spec fn is_search_kind(name: Seq<char>) -> bool {
    name == "accounts"@ || name == "statuses"@ || name == "hashtags"@
}

/// A search that names no kind looks for every kind; one that names a kind
/// looks for that kind only: for every kind, it is looked for exactly when
/// it is the one named, so no two kinds are looked for at once.
pub proof fn lemma_named_kind_only(kind: Option<String>, a: Seq<char>, b: Seq<char>)
    requires
        is_search_kind(a),
        is_search_kind(b),
    ensures
        kind is None ==> wants(kind, a),
        kind matches Some(k) ==> (wants(kind, a) <==> k@ == a),
        (kind is Some && wants(kind, a) && wants(kind, b)) ==> a == b,
{
}

/// The three kind names differ.
pub proof fn lemma_search_kind_names_differ()
    ensures
        "accounts"@ != "statuses"@,
        "accounts"@ != "hashtags"@,
        "statuses"@ != "hashtags"@,
{
    reveal_strlit("accounts");
    reveal_strlit("statuses");
    reveal_strlit("hashtags");
    assert("accounts"@[0] != "statuses"@[0]);
    assert("accounts"@[0] != "hashtags"@[0]);
    assert("statuses"@[0] != "hashtags"@[0]);
}

fn wants_kind(kind: &Option<String>, name: &str) -> (r: bool)
    ensures
        r == wants(*kind, name@),
{
    match kind {
        None => true,
        Some(k) => str_eq(k.as_str(), name),
    }
}

/// Plans a search; an empty query is refused.
pub fn search_plan(query: &SearchQuery) -> (r: Result<SearchPlan, AppError>)
    ensures
        query.q@.len() == 0 <==> (r matches Err(e) && e.is(ErrorKind::Validation, "Search query is required"@)),
        r matches Ok(p) ==> (query.search_type is None ==> p.accounts && p.statuses && p.hashtags),
        r matches Ok(p) ==> (query.search_type matches Some(k) ==> {
            &&& p.accounts <==> k@ == "accounts"@
            &&& p.statuses <==> k@ == "statuses"@
            &&& p.hashtags <==> k@ == "hashtags"@
            &&& !(p.accounts && p.statuses) && !(p.accounts && p.hashtags) && !(p.statuses && p.hashtags)
        }),
        r matches Ok(p) ==> {
            &&& p.limit == search_limit(query.limit)
            &&& p.accounts == wants(query.search_type, "accounts"@)
            &&& p.account_term@ == lowercase(query.q@)
            &&& p.statuses == wants(query.search_type, "statuses"@)
            &&& p.status_term@ == query.q@
            &&& p.hashtags == wants(query.search_type, "hashtags"@)
            &&& p.hashtag_term@ == trim_start_all(query.q@, "#"@)
        },
{
    if query.q.unicode_len() == 0 {
        return Err(err(ErrorKind::Validation, "Search query is required"));
    }
    let l: i64 = match query.limit {
        Some(l) => l,
        None => 20,
    };
    let limit: i64 = if l < 40 { l } else { 40 };
    proof {
        lemma_search_kind_names_differ();
    }
    Ok(SearchPlan {
        limit,
        accounts: wants_kind(&query.search_type, "accounts"),
        account_term: to_lowercase(query.q.as_str()),
        statuses: wants_kind(&query.search_type, "statuses"),
        status_term: query.q.clone(),
        hashtags: wants_kind(&query.search_type, "hashtags"),
        hashtag_term: trim_start_matches(query.q.as_str(), "#"),
    })
}

/// The tags a search lists: at most `limit` (read as an unsigned count, as
/// the store's answer is cut), in order.
pub fn cut_tags(tags: Vec<String>, limit: i64) -> (r: Vec<String>)
    ensures
        r@ == tags@.take(if tags@.len() < (limit as usize) { tags@.len() as int } else { (limit as usize) as int }),
{
    let n: usize = limit as usize;
    let mut out: Vec<String> = Vec::new();
    let mut k: usize = 0;
    let bound: usize = if tags.len() < n { tags.len() } else { n };
    while k < bound
        invariant
            bound <= tags@.len(),
            k <= bound,
            out@ == tags@.take(k as int),
        decreases bound - k,
    {
        out.push(tags[k].clone());
        k = k + 1;
        assert(out@ =~= tags@.take(k as int));
    }
    out
}

/// The tag a hashtag search looks for: the query without its leading `#`s,
/// lowercased; an empty query is refused.
pub fn hashtag_term(query: &SearchQuery) -> (r: Result<String, AppError>)
    ensures
        query.q@.len() == 0 <==> (r matches Err(e) && e.is(ErrorKind::Validation, "Hashtag is required"@)),
        r matches Ok(t) ==> t@ == lowercase(trim_start_all(query.q@, "#"@)),
{
    if query.q.unicode_len() == 0 {
        return Err(err(ErrorKind::Validation, "Hashtag is required"));
    }
    let t = trim_start_matches(query.q.as_str(), "#");
    Ok(to_lowercase(t.as_str()))
}

} // verus!
