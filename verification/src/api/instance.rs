//! Federated instances: the admin listing and the per-host lookups.
use vstd::prelude::*;
use crate::error::{err, AppError, ErrorKind};
use crate::text::{bool_text, push_bool, str_eq};

verus! {

/// Listing of the instances this one federates with.
#[derive(Clone, Debug)]
pub struct FederatedInstancesQuery {
    pub limit: Option<usize>,
    pub offset: Option<usize>,
    pub host: Option<String>,
    pub blocked: Option<bool>,
    pub suspended: Option<bool>,
    pub not_responding: Option<bool>,
    pub sort: Option<String>,
}

/// A listing as it goes to the store: the query text and its bound values.
#[derive(Clone, Debug)]
pub struct InstancesPlan {
    pub text: String,
    pub limit: usize,
    pub offset: usize,
    /// The pattern bound to `$host`, when the listing filters by host.
    pub host: Option<String>,
}

/// The order of a listing: by last or first retrieval, newest first, or by
/// host; by last retrieval for any other or no choice.
pub open spec fn instances_order(sort: Option<Seq<char>>) -> Seq<char> {
    match sort {
        Some(s) => if s == "first_retrieved_at"@ {
            "ORDER BY first_retrieved_at DESC"@
        } else if s == "host"@ {
            "ORDER BY host ASC"@
        } else {
            "ORDER BY last_retrieved_at DESC"@
        },
        None => "ORDER BY last_retrieved_at DESC"@,
    }
}

/// A condition on a flag, when the listing gives one.
pub open spec fn flag_clause(field: Seq<char>, value: Option<bool>) -> Seq<char> {
    match value {
        Some(b) => " AND "@ + field + " = "@ + bool_text(b),
        None => Seq::empty(),
    }
}

/// The query text of a listing: the base query, then a condition for each
/// filter given, then the order, each appended as it stands.
pub open spec fn instances_query_text(q: FederatedInstancesQuery) -> Seq<char> {
    "SELECT * FROM federated_instance LIMIT $limit START $offset"@
        + (if q.host is Some { " AND host ~ $host"@ } else { Seq::empty() })
        + flag_clause("is_blocked"@, q.blocked)
        + flag_clause("is_suspended"@, q.suspended)
        + flag_clause("is_not_responding"@, q.not_responding)
        + instances_order(match q.sort { Some(s) => Some(s@), None => None })
}

fn push_flag_clause(s: &mut String, field: &str, value: Option<bool>)
    ensures
        final(s)@ == old(s)@ + flag_clause(field@, value),
{
    if let Some(b) = value {
        s.append(" AND ");
        s.append(field);
        s.append(" = ");
        push_bool(s, b);
    }
}

/// The listing of federated instances: 50 from the start unless the query says
/// otherwise, the host pattern bound when given.
pub fn federated_instances_query(q: &FederatedInstancesQuery) -> (p: InstancesPlan)
    ensures
        p.text@ == instances_query_text(*q),
        p.limit == (match q.limit { Some(l) => l, None => 50 }),
        p.offset == (match q.offset { Some(o) => o, None => 0 }),
        p.host == q.host,
{
    let mut text = String::from_str("SELECT * FROM federated_instance LIMIT $limit START $offset");
    if q.host.is_some() {
        text.append(" AND host ~ $host");
    }
    push_flag_clause(&mut text, "is_blocked", q.blocked);
    push_flag_clause(&mut text, "is_suspended", q.suspended);
    push_flag_clause(&mut text, "is_not_responding", q.not_responding);
    let order = match &q.sort {
        Some(s) => if str_eq(s.as_str(), "first_retrieved_at") {
            "ORDER BY first_retrieved_at DESC"
        } else if str_eq(s.as_str(), "host") {
            "ORDER BY host ASC"
        } else {
            "ORDER BY last_retrieved_at DESC"
        },
        None => "ORDER BY last_retrieved_at DESC",
    };
    text.append(order);
    assert(text@ =~= instances_query_text(*q));
    InstancesPlan {
        text,
        limit: match q.limit {
            Some(l) => l,
            None => 50,
        },
        offset: match q.offset {
            Some(o) => o,
            None => 0,
        },
        host: match &q.host {
            Some(h) => Some(h.clone()),
            None => None,
        },
    }
}

/// The `host` parameter of a per-host lookup, which it requires.
pub fn required_host(host: Option<String>) -> (r: Result<String, AppError>)
    ensures
        match host {
            Some(h) => r matches Ok(g) && g == h,
            None => r matches Err(e) && e.is(ErrorKind::Validation, "Host parameter required"@),
        },
{
    crate::api::checks::require_param(host, "Host parameter required")
}

/// The value of a decimal digit.
pub open spec fn digit_value(c: char) -> int {
    c as int - '0' as int
}

/// The text is one or more ASCII digits.
pub open spec fn all_digits(s: Seq<char>) -> bool {
    s.len() > 0 && forall|i: int| 0 <= i < s.len() ==> '0' <= #[trigger] s[i] <= '9'
}

/// The number that a string of digits writes.
pub open spec fn digits_value(s: Seq<char>) -> nat
    decreases s.len(),
{
    if s.len() == 0 {
        0
    } else {
        (digits_value(s.drop_last()) * 10 + digit_value(s.last())) as nat
    }
}

/// The digits of an unsigned number in Rust's syntax: an optional `+`, then
/// the digits.
pub open spec fn unsigned_digits(s: Seq<char>) -> Seq<char> {
    if s.len() > 0 && s[0] == '+' {
        s.drop_first()
    } else {
        s
    }
}

/// The `usize` that Rust's `str::parse` reads from a text, if it reads one.
pub open spec fn parsed_usize(s: Seq<char>) -> Option<usize> {
    let d = unsigned_digits(s);
    if all_digits(d) && digits_value(d) <= usize::MAX {
        Some(digits_value(d) as usize)
    } else {
        None
    }
}

proof fn lemma_digits_value_grows(s: Seq<char>, i: int)
    requires
        0 <= i <= s.len(),
        all_digits(s),
    ensures
        digits_value(s.take(i)) <= digits_value(s),
    decreases s.len() - i,
{
    if i < s.len() {
        lemma_digits_value_grows(s, i + 1);
        assert(s.take(i + 1).drop_last() =~= s.take(i));
    } else {
        assert(s.take(i) =~= s);
    }
}

/// Reads a `usize` as `str::parse` does.
pub fn parse_usize(text: &str) -> (r: Option<usize>)
    ensures
        r == parsed_usize(text@),
{
    let chars = crate::text::str_chars(text);
    let n = chars.len();
    let mut start: usize = 0;
    if n > 0 && chars[0] == '+' {
        start = 1;
    }
    let ghost d = unsigned_digits(text@);
    assert(d =~= chars@.skip(start as int));
    if start == n {
        return None;
    }
    let mut value: usize = 0;
    let mut i: usize = start;
    while i < n
        invariant
            start <= i <= n,
            n == chars@.len(),
            chars@ == text@,
            d =~= chars@.skip(start as int),
            d == unsigned_digits(text@),
            d.len() > 0,
            forall|k: int| 0 <= k < i - start ==> '0' <= #[trigger] d[k] <= '9',
            value == digits_value(d.take(i - start)),
        decreases n - i,
    {
        let c = chars[i];
        if c < '0' || c > '9' {
            assert(d[i - start] == c);
            assert(!all_digits(d));
            return None;
        }
        let v = (c as u32 - '0' as u32) as usize;
        assert(d.take(i - start + 1).drop_last() =~= d.take(i - start));
        assert(d.take(i - start + 1).last() == c);
        if value > (usize::MAX - v) / 10 {
            proof {
                assert(digits_value(d.take(i - start + 1)) == value * 10 + v);
                assert(value * 10 + v > usize::MAX) by (nonlinear_arith)
                    requires
                        value > (usize::MAX - v) / 10,
                        v <= 9,
                ;
                if all_digits(d) {
                    lemma_digits_value_grows(d, i - start + 1);
                }
            }
            return None;
        }
        value = value * 10 + v;
        i = i + 1;
    }
    assert(d.take(d.len() as int) =~= d);
    Some(value)
}

/// A `limit` query parameter: its value when it reads as a number, else
/// `default` (50 for the per-host lookups and account listings, 20 for a
/// user's notes).
pub fn limit_param(limit: Option<&str>, default: usize) -> (r: usize)
    ensures
        r == match limit {
            Some(l) => match parsed_usize(l@) {
                Some(v) => v,
                None => default,
            },
            None => default,
        },
{
    match limit {
        Some(l) => match parse_usize(l) {
            Some(v) => v,
            None => default,
        },
        None => default,
    }
}

} // verus!
