//! Word filters: which notes a user has hidden from a context.
use vstd::prelude::*;
use crate::db::{DragonflyClient, SurrealClient};
use crate::ids::{ulid_text, ulid_to_string};
use crate::text::{has_substring, lowercase, to_lowercase, contains_str, string_views, contains_string, join,
    join_strings, escape_quotes, escape_sql_quotes, bool_text, sql_quoted, quoted_assignment, bool_assignment};
use crate::time::{Timestamp, later, is_later, add_seconds, rfc3339_text, to_rfc3339, MIN_SECS, MAX_SECS};

verus! {

/// Filter operations.
#[derive(Clone, Debug)]
pub struct FilterService {
    pub surreal: SurrealClient,
    pub dragonfly: DragonflyClient,
}

impl FilterService {
    /// A service over the given stores.
    pub fn new(surreal: SurrealClient, dragonfly: DragonflyClient) -> (s: Self)
        ensures
            s.surreal == surreal,
            s.dragonfly == dragonfly,
    {
        FilterService { surreal, dragonfly }
    }
}

/// A word filter of a user.
#[derive(Clone, Debug)]
pub struct Filter {
    pub id: u128,
    pub created_at: Timestamp,
    pub updated_at: Option<Timestamp>,
    pub user_id: u128,
    pub phrase: String,
    pub is_regex: bool,
    pub hide_completely: bool,
    pub expires_at: Option<Timestamp>,
    /// Where it applies (`home`, `notifications`, ...).
    pub context: Vec<String>,
}

/// Creation of a filter.
#[derive(Clone, Debug)]
pub struct CreateFilterRequest {
    pub phrase: String,
    pub is_regex: Option<bool>,
    pub hide_completely: Option<bool>,
    /// Seconds until the filter lapses.
    pub expires_in: Option<i64>,
    pub context: Option<Vec<String>>,
}

/// Changes to a filter.
#[derive(Clone, Debug)]
pub struct UpdateFilterRequest {
    pub phrase: Option<String>,
    pub is_regex: Option<bool>,
    pub hide_completely: Option<bool>,
    pub expires_in: Option<i64>,
    pub context: Option<Vec<String>>,
}

/// The instant `secs` seconds after `now`, when it is within `chrono`'s
/// range (where adding panics otherwise).
pub open spec fn in_range_after(now: Timestamp, secs: i64) -> bool {
    MIN_SECS <= now.secs + secs <= MAX_SECS
}

/// A new filter with id `id`, made at `now`: plain text unless the request
/// says regex, hiding completely unless it says otherwise, lapsing
/// `expires_in` seconds after `now`, and applying to `home` and
/// `notifications` unless contexts are given.
pub fn new_filter(id: u128, now: Timestamp, user_id: u128, req: CreateFilterRequest) -> (f: Filter)
    requires
        now.wf(),
        req.expires_in matches Some(s) ==> in_range_after(now, s),
    ensures
        f.id == id,
        f.created_at == now,
        f.updated_at is None,
        f.user_id == user_id,
        f.phrase == req.phrase,
        f.is_regex == (req.is_regex == Some(true)),
        f.hide_completely == (req.hide_completely != Some(false)),
        f.expires_at == match req.expires_in {
            Some(s) => Some(Timestamp { secs: (now.secs + s) as i64, nanos: now.nanos }),
            None => None,
        },
        string_views(f.context@) == match req.context {
            Some(c) => string_views(c@),
            None => seq!["home"@, "notifications"@],
        },
{
    let expires_at = match req.expires_in {
        Some(s) => add_seconds(now, s),
        None => None,
    };
    let context = match req.context {
        Some(c) => c,
        None => vec![String::from_str("home"), String::from_str("notifications")],
    };
    assert(string_views(context@) =~= match req.context {
        Some(c) => string_views(c@),
        None => seq!["home"@, "notifications"@],
    });
    Filter {
        id,
        created_at: now,
        updated_at: None,
        user_id,
        phrase: req.phrase,
        is_regex: match req.is_regex {
            Some(b) => b,
            None => false,
        },
        hide_completely: match req.hide_completely {
            Some(b) => b,
            None => true,
        },
        expires_at,
        context,
    }
}

/// A filter is in force at `now` until it lapses.
pub open spec fn is_active(f: Filter, now: Timestamp) -> bool {
    match f.expires_at {
        Some(e) => later(e, now),
        None => true,
    }
}

/// The filters in force at `now`, in order.
pub open spec fn active_only(s: Seq<Filter>, now: Timestamp) -> Seq<Filter>
    decreases s.len(),
{
    if s.len() == 0 {
        Seq::empty()
    } else {
        (if is_active(s[0], now) {
            seq![s[0]]
        } else {
            Seq::empty()
        }) + active_only(s.drop_first(), now)
    }
}

/// Drops the filters that have lapsed at `now`, keeping the order.
pub fn active_filters(filters: Vec<Filter>, now: Timestamp) -> (r: Vec<Filter>)
    ensures
        r@ == active_only(filters@, now),
{
    let ghost all = filters@;
    let mut rest = filters;
    let mut out: Vec<Filter> = Vec::new();
    while rest.len() > 0
        invariant
            out@ + active_only(rest@, now) == active_only(all, now),
        decreases rest@.len(),
    {
        let ghost before = rest@;
        let f = rest.remove(0);
        assert(rest@ =~= before.drop_first());
        let keep = match f.expires_at {
            Some(e) => is_later(e, now),
            None => true,
        };
        if keep {
            out.push(f);
        }
        assert(out@ + active_only(rest@, now) =~= active_only(all, now));
    }
    assert(active_only(rest@, now) =~= Seq::<Filter>::empty());
    assert(out@ =~= active_only(all, now));
    out
}

/// Whether the regex `pattern` matches somewhere in `text` (`Some`), or
/// `None` when `regex` rejects the pattern.
pub uninterp spec fn regex_is_match(pattern: Seq<char>, text: Seq<char>) -> Option<bool>;

/// `regex::Regex::new` followed by `is_match`: whether the pattern matches
/// anywhere in the text, or `None` when the pattern does not compile. The
/// regex language is not restated here.
#[verifier::external_body]
fn regex_match(pattern: &str, text: &str) -> (r: Option<bool>)
    ensures
        r == regex_is_match(pattern@, text@),
{
    match regex::Regex::new(pattern) {
        Ok(re) => Some(re.is_match(text)),
        Err(_) => None,
    }
}

/// A filter hides `content` in `context`: it applies there, and its phrase
/// matches (as a regex that compiles, or as text ignoring case).
pub open spec fn filter_hides(f: Filter, content: Seq<char>, context: Seq<char>) -> bool {
    &&& string_views(f.context@).contains(context)
    &&& if f.is_regex {
        regex_is_match(f.phrase@, content) == Some(true)
    } else {
        has_substring(lowercase(content), lowercase(f.phrase@))
    }
}

/// Whether any of the user's filters hides `content` in `context`.
pub fn content_matches_filters(filters: &Vec<Filter>, content: &str, context: &str) -> (r: bool)
    ensures
        r <==> exists|k: int| 0 <= k < filters@.len() && filter_hides(#[trigger] filters@[k], content@, context@),
{
    let lowered = to_lowercase(content);
    let mut k: usize = 0;
    while k < filters.len()
        invariant
            lowered@ == lowercase(content@),
            k <= filters@.len(),
            forall|m: int| 0 <= m < k ==> !filter_hides(#[trigger] filters@[m], content@, context@),
        decreases filters@.len() - k,
    {
        let f = &filters[k];
        if contains_string(&f.context, context) {
            let hit = if f.is_regex {
                match regex_match(f.phrase.as_str(), content) {
                    Some(b) => b,
                    None => false,
                }
            } else {
                let p = to_lowercase(f.phrase.as_str());
                contains_str(lowered.as_str(), p.as_str())
            };
            if hit {
                assert(filter_hides(filters@[k as int], content@, context@));
                return true;
            }
        }
        k = k + 1;
    }
    false
}

/// `['a', 'b']`: a list of quoted, escaped texts.
pub open spec fn quoted_list(items: Seq<Seq<char>>) -> Seq<char> {
    "["@ + join(Seq::new(items.len(), |k: int| sql_quoted(items[k])), ", "@) + "]"@
}

fn make_quoted_list(items: &Vec<String>) -> (r: String)
    ensures
        r@ == quoted_list(string_views(items@)),
{
    let mut parts: Vec<String> = Vec::new();
    let mut k: usize = 0;
    while k < items.len()
        invariant
            k <= items@.len(),
            parts@.len() == k,
            forall|m: int| 0 <= m < k ==> (#[trigger] parts@[m])@ == sql_quoted(items@[m]@),
        decreases items@.len() - k,
    {
        let mut q = String::from_str("'");
        let e = escape_sql_quotes(items[k].as_str());
        q.append(e.as_str());
        q.append("'");
        parts.push(q);
        k = k + 1;
    }
    assert(string_views(parts@) =~= Seq::new(
        items@.len(),
        |m: int| sql_quoted(string_views(items@)[m]),
    ));
    let mut r = String::from_str("[");
    let body = join_strings(&parts, ", ");
    r.append(body.as_str());
    r.append("]");
    r
}

/// The assignments a filter change makes, in order: phrase, regex flag,
/// hiding, lapse (`expires_in` seconds after `now`), contexts.
pub open spec fn filter_assignments(req: UpdateFilterRequest, now: Timestamp) -> Seq<Seq<char>> {
    (match req.phrase {
        Some(p) => seq!["phrase"@ + " = "@ + sql_quoted(p@)],
        None => Seq::empty(),
    }) + (match req.is_regex {
        Some(b) => seq!["is_regex"@ + " = "@ + bool_text(b)],
        None => Seq::empty(),
    }) + (match req.hide_completely {
        Some(b) => seq!["hide_completely"@ + " = "@ + bool_text(b)],
        None => Seq::empty(),
    }) + (match req.expires_in {
        Some(s) => seq![
            "expires_at"@ + " = "@ + "'"@ + rfc3339_text(now.secs + s, now.nanos as int) + "'"@,
        ],
        None => Seq::empty(),
    }) + (match req.context {
        Some(c) => seq!["context = "@ + quoted_list(string_views(c@))],
        None => Seq::empty(),
    })
}

/// The statement that applies a filter change, stamping the update time;
/// `None` when the change is empty.
pub open spec fn filter_update_text(id: u128, assignments: Seq<Seq<char>>) -> Option<Seq<char>> {
    if assignments.len() == 0 {
        None
    } else {
        Some("UPDATE filter:"@ + ulid_text(id) + " SET "@ + join(assignments.push("updated_at = time::now()"@), ", "@))
    }
}

/// Builds the statement of a filter change made at `now`.
pub fn filter_update(filter_id: u128, req: &UpdateFilterRequest, now: Timestamp) -> (r: Option<String>)
    requires
        now.wf(),
        req.expires_in matches Some(s) ==> in_range_after(now, s),
    ensures
        match r {
            Some(q) => filter_update_text(filter_id, filter_assignments(*req, now)) == Some(q@),
            None => filter_update_text(filter_id, filter_assignments(*req, now)) is None,
        },
{
    let mut parts: Vec<String> = Vec::new();
    if let Some(p) = &req.phrase {
        parts.push(quoted_assignment("phrase", p.as_str()));
    }
    let ghost p1 = string_views(parts@);
    if let Some(b) = req.is_regex {
        parts.push(bool_assignment("is_regex", b));
    }
    let ghost p2 = string_views(parts@);
    assert(p2 =~= p1 + match req.is_regex {
        Some(b) => seq!["is_regex"@ + " = "@ + bool_text(b)],
        None => Seq::<Seq<char>>::empty(),
    });
    if let Some(b) = req.hide_completely {
        parts.push(bool_assignment("hide_completely", b));
    }
    let ghost p3 = string_views(parts@);
    assert(p3 =~= p2 + match req.hide_completely {
        Some(b) => seq!["hide_completely"@ + " = "@ + bool_text(b)],
        None => Seq::<Seq<char>>::empty(),
    });
    if let Some(s) = req.expires_in {
        let at = add_seconds(now, s).unwrap();
        let t = to_rfc3339(at);
        let mut a = String::from_str("expires_at");
        a.append(" = ");
        a.append("'");
        a.append(t.as_str());
        a.append("'");
        parts.push(a);
    }
    let ghost p4 = string_views(parts@);
    assert(p4 =~= p3 + match req.expires_in {
        Some(s) => seq!["expires_at"@ + " = "@ + "'"@ + rfc3339_text(now.secs + s, now.nanos as int) + "'"@],
        None => Seq::<Seq<char>>::empty(),
    });
    if let Some(c) = &req.context {
        let mut a = String::from_str("context = ");
        let l = make_quoted_list(c);
        a.append(l.as_str());
        parts.push(a);
    }
    let ghost p5 = string_views(parts@);
    assert(p5 =~= p4 + match req.context {
        Some(c) => seq!["context = "@ + quoted_list(string_views(c@))],
        None => Seq::<Seq<char>>::empty(),
    });
    assert(p1 =~= match req.phrase {
        Some(p) => seq!["phrase"@ + " = "@ + sql_quoted(p@)],
        None => Seq::<Seq<char>>::empty(),
    });
    assert(p5 =~= filter_assignments(*req, now));
    if parts.len() == 0 {
        return None;
    }
    parts.push(String::from_str("updated_at = time::now()"));
    assert(string_views(parts@) =~= filter_assignments(*req, now).push("updated_at = time::now()"@));
    let mut q = String::from_str("UPDATE filter:");
    let id = ulid_to_string(filter_id);
    q.append(id.as_str());
    q.append(" SET ");
    let body = join_strings(&parts, ", ");
    q.append(body.as_str());
    Some(q)
}


/// Dropping lapsed filters keeps only filters in force, and doing it again
/// changes nothing.
pub proof fn lemma_active_only_stable(s: Seq<Filter>, now: Timestamp)
    ensures
        forall|k: int| 0 <= k < active_only(s, now).len() ==> is_active(#[trigger] active_only(s, now)[k], now),
        active_only(active_only(s, now), now) == active_only(s, now),
    decreases s.len(),
{
    if s.len() > 0 {
        let t = s.drop_first();
        lemma_active_only_stable(t, now);
        let head: Seq<Filter> = if is_active(s[0], now) {
            seq![s[0]]
        } else {
            Seq::empty()
        };
        let a = active_only(s, now);
        assert(a == head + active_only(t, now));
        if is_active(s[0], now) {
            assert(a[0] == s[0]);
            assert(a.drop_first() =~= active_only(t, now));
            assert(active_only(a, now) == seq![s[0]] + active_only(a.drop_first(), now));
        } else {
            assert(a =~= active_only(t, now));
        }
        assert forall|k: int| 0 <= k < a.len() implies is_active(#[trigger] a[k], now) by {
            if is_active(s[0], now) && k == 0 {
            } else if is_active(s[0], now) {
                assert(a[k] == active_only(t, now)[k - 1]);
            } else {
                assert(a[k] == active_only(t, now)[k]);
            }
        }
    } else {
        assert(active_only(s, now) =~= Seq::<Filter>::empty());
    }
}

} // verus!
