//! Notifications as the client sees them.
use vstd::prelude::*;
use crate::ids::{ulid_text, ulid_to_string};
use crate::error::{AppError, ErrorKind, err};
use crate::text::{join, join_strings, string_views, signed_decimal, push_signed_decimal, str_eq};
use crate::time::{Timestamp, rfc3339_text, to_rfc3339};

verus! {

/// Listing of notifications.
#[derive(Clone, Debug)]
pub struct NotificationsQuery {
    pub limit: Option<i64>,
    pub since_id: Option<String>,
    pub until_id: Option<String>,
    pub unread_only: Option<bool>,
    pub following: Option<bool>,
    pub mark_as_read: bool,
    pub include_types: Vec<String>,
    pub exclude_types: Vec<String>,
}

/// What a notification is about.
#[derive(Clone, Copy, Debug, PartialEq, Eq, Structural)]
pub enum NotificationType {
    Mention,
    Reply,
    Renote,
    Quote,
    Reaction,
    Follow,
    FollowRequest,
    FollowRequestAccepted,
    PollEnded,
    UserSignup,
}

/// A notification of a user.
#[derive(Clone, Debug)]
pub struct Notification {
    pub id: u128,
    pub created_at: Timestamp,
    pub notification_type: NotificationType,
    pub recipient_id: u128,
    pub sender_id: Option<u128>,
    pub note_id: Option<u128>,
    pub reaction: Option<String>,
    pub is_read: bool,
}

/// A notification as the client sees it.
#[derive(Clone, Debug)]
pub struct NotificationResponse {
    pub id: String,
    pub notification_type: String,
    pub created_at: String,
    pub sender_id: Option<String>,
    pub note_id: Option<String>,
    pub reaction: Option<String>,
    pub is_read: bool,
}

/// The name of a notification type in responses: its variant name in lower
/// case, words run together.
pub open spec fn notification_kind_name(t: NotificationType) -> Seq<char> {
    match t {
        NotificationType::Mention => "mention"@,
        NotificationType::Reply => "reply"@,
        NotificationType::Renote => "renote"@,
        NotificationType::Quote => "quote"@,
        NotificationType::Reaction => "reaction"@,
        NotificationType::Follow => "follow"@,
        NotificationType::FollowRequest => "followrequest"@,
        NotificationType::FollowRequestAccepted => "followrequestaccepted"@,
        NotificationType::PollEnded => "pollended"@,
        NotificationType::UserSignup => "usersignup"@,
    }
}

/// The response name of a notification type.
pub fn notification_type_name(t: NotificationType) -> (r: String)
    ensures
        r@ == notification_kind_name(t),
{
    match t {
        NotificationType::Mention => String::from_str("mention"),
        NotificationType::Reply => String::from_str("reply"),
        NotificationType::Renote => String::from_str("renote"),
        NotificationType::Quote => String::from_str("quote"),
        NotificationType::Reaction => String::from_str("reaction"),
        NotificationType::Follow => String::from_str("follow"),
        NotificationType::FollowRequest => String::from_str("followrequest"),
        NotificationType::FollowRequestAccepted => String::from_str("followrequestaccepted"),
        NotificationType::PollEnded => String::from_str("pollended"),
        NotificationType::UserSignup => String::from_str("usersignup"),
    }
}

/// An optional id as text.
pub open spec fn opt_id_text(id: Option<u128>) -> Option<Seq<char>> {
    match id {
        Some(i) => Some(ulid_text(i)),
        None => None,
    }
}

fn opt_id_string(id: Option<u128>) -> (r: Option<String>)
    ensures
        match r {
            Some(s) => opt_id_text(id) == Some(s@),
            None => id is None,
        },
{
    match id {
        Some(i) => Some(ulid_to_string(i)),
        None => None,
    }
}

/// The client's view of a notification.
pub fn notification_response(n: &Notification) -> (r: NotificationResponse)
    requires
        n.created_at.wf(),
    ensures
        r.id@ == ulid_text(n.id),
        r.notification_type@ == notification_kind_name(n.notification_type),
        r.created_at@ == rfc3339_text(n.created_at.secs as int, n.created_at.nanos as int),
        match r.sender_id {
            Some(s) => opt_id_text(n.sender_id) == Some(s@),
            None => n.sender_id is None,
        },
        match r.note_id {
            Some(s) => opt_id_text(n.note_id) == Some(s@),
            None => n.note_id is None,
        },
        r.reaction == n.reaction,
        r.is_read == n.is_read,
{
    NotificationResponse {
        id: ulid_to_string(n.id),
        notification_type: notification_type_name(n.notification_type),
        created_at: to_rfc3339(n.created_at),
        sender_id: opt_id_string(n.sender_id),
        note_id: opt_id_string(n.note_id),
        reaction: n.reaction.clone(),
        is_read: n.is_read,
    }
}


/// How many notifications a page lists: 20 unless the query says, never
/// more than 100.
pub open spec fn notifications_limit(limit: Option<i64>) -> i64 {
    let l = match limit {
        Some(l) => l,
        None => 20,
    };
    if l < 100 {
        l
    } else {
        100
    }
}

/// `'t'` for each type, joined with `, ` (the types are inserted as given).
pub open spec fn type_list(types: Seq<Seq<char>>) -> Seq<char> {
    join(Seq::new(types.len(), |k: int| "'"@ + types[k] + "'"@), ", "@)
}

fn make_type_list(types: &Vec<String>) -> (r: String)
    ensures
        r@ == type_list(string_views(types@)),
{
    let mut parts: Vec<String> = Vec::new();
    let mut k: usize = 0;
    while k < types.len()
        invariant
            k <= types@.len(),
            parts@.len() == k,
            forall|m: int| 0 <= m < k ==> (#[trigger] parts@[m])@ == "'"@ + types@[m]@ + "'"@,
        decreases types@.len() - k,
    {
        let mut q = String::from_str("'");
        q.append(types[k].as_str());
        q.append("'");
        parts.push(q);
        k = k + 1;
    }
    assert(string_views(parts@) =~= Seq::new(
        types@.len(),
        |m: int| "'"@ + string_views(types@)[m] + "'"@,
    ));
    join_strings(&parts, ", ")
}

/// The query that lists a user's notifications, newest first: unread only,
/// after `since_id`, before `until_id`, from followed senders only, of the
/// included types (or not of the excluded ones) when asked.
pub open spec fn notifications_query_text(q: NotificationsQuery) -> Seq<char> {
    "SELECT * FROM notification WHERE recipient_id = $recipient_id"@ + (if q.unread_only == Some(true) {
        " AND is_read = false"@
    } else {
        Seq::empty()
    }) + (match q.since_id {
        Some(s) => " AND id > '"@ + s@ + "'"@,
        None => Seq::empty(),
    }) + (match q.until_id {
        Some(u) => " AND id < '"@ + u@ + "'"@,
        None => Seq::empty(),
    }) + (if q.following == Some(true) {
        " AND sender_id IN (SELECT out FROM follow WHERE in = $recipient_id)"@
    } else {
        Seq::empty()
    }) + type_filter_text(q) + " ORDER BY created_at DESC LIMIT "@ + signed_decimal(notifications_limit(q.limit) as int)
}

/// Appends `{prefix}{id}'` when an id is given.
fn push_id_bound(sql: &mut String, prefix: &str, id: &Option<String>)
    ensures
        final(sql)@ == old(sql)@ + match *id {
            Some(s) => prefix@ + s@ + "'"@,
            None => Seq::<char>::empty(),
        },
{
    if let Some(s) = id {
        sql.append(prefix);
        sql.append(s.as_str());
        sql.append("'");
    }
    assert(final(sql)@ =~= old(sql)@ + match *id {
        Some(s) => prefix@ + s@ + "'"@,
        None => Seq::<char>::empty(),
    });
}

/// The type filter of the listing.
pub open spec fn type_filter_text(q: NotificationsQuery) -> Seq<char> {
    if q.include_types@.len() > 0 {
        " AND notification_type IN ("@ + type_list(string_views(q.include_types@)) + ")"@
    } else if q.exclude_types@.len() > 0 {
        " AND notification_type NOT IN ("@ + type_list(string_views(q.exclude_types@)) + ")"@
    } else {
        Seq::empty()
    }
}

/// The position of the last `c` in `s`, or -1 when there is none.
pub open spec fn last_index_of(s: Seq<char>, c: char) -> int
    decreases s.len(),
{
    if s.len() == 0 {
        -1
    } else if s.last() == c {
        s.len() - 1
    } else {
        last_index_of(s.drop_last(), c)
    }
}

/// The last position of a character lies within the text, or is -1.
pub proof fn lemma_last_index_bounds(s: Seq<char>, c: char)
    ensures
        -1 <= last_index_of(s, c) < s.len(),
    decreases s.len(),
{
    if s.len() > 0 && s.last() != c {
        lemma_last_index_bounds(s.drop_last(), c);
    }
}

/// The items of an SQL list of single-quoted strings separated by `, `
/// (`'a', 'b'`), read from the end; empty when the text is no such list.
pub open spec fn quoted_items(s: Seq<char>) -> Seq<Seq<char>>
    decreases s.len(),
{
    if s.len() < 2 || s.last() != '\'' {
        Seq::empty()
    } else {
        let body = s.drop_last();
        let q = last_index_of(body, '\'');
        proof {
            lemma_last_index_bounds(body, '\'');
        }
        if q < 0 {
            Seq::empty()
        } else {
            let item = body.subrange(q + 1, body.len() as int);
            let before = body.take(q);
            if before.len() == 0 {
                seq![item]
            } else if before.len() >= 2 && before.last() == ' ' && before[before.len() - 2] == ',' {
                quoted_items(before.take(before.len() - 2)).push(item)
            } else {
                Seq::empty()
            }
        }
    }
}

/// Whether a notification of type `t` passes a type condition of the
/// listing query, read as SQL: no condition passes every type,
/// `AND notification_type IN (list)` the listed types, and
/// `AND notification_type NOT IN (list)` every other type.
pub open spec fn type_condition_admits(clause: Seq<char>, t: Seq<char>) -> bool {
    let inc = " AND notification_type IN ("@;
    let exc = " AND notification_type NOT IN ("@;
    if clause.len() == 0 {
        true
    } else if clause.len() > exc.len() && clause.take(exc.len() as int) == exc && clause.last() == ')' {
        !quoted_items(clause.subrange(exc.len() as int, clause.len() - 1)).contains(t)
    } else if clause.len() > inc.len() && clause.take(inc.len() as int) == inc && clause.last() == ')' {
        quoted_items(clause.subrange(inc.len() as int, clause.len() - 1)).contains(t)
    } else {
        false
    }
}

/// No type of the list holds a single quote (the query writes them between
/// quotes as given).
pub open spec fn quote_free_types(types: Seq<Seq<char>>) -> bool {
    forall|i: int| 0 <= i < types.len() ==> !(#[trigger] types[i]).contains('\'')
}

proof fn lemma_last_quote(prefix: Seq<char>, item: Seq<char>)
    requires
        !item.contains('\''),
    ensures
        last_index_of(prefix.push('\'') + item, '\'') == prefix.len(),
    decreases item.len(),
{
    let s = prefix.push('\'') + item;
    if item.len() == 0 {
        assert(s =~= prefix.push('\''));
    } else {
        assert(item.last() != '\'') by {
            assert(item.contains(item.last()) ==> item.last() != '\'');
            assert(item[item.len() - 1] == item.last());
        }
        assert(s.drop_last() =~= prefix.push('\'') + item.drop_last());
        assert forall|c: char| item.drop_last().contains(c) implies item.contains(c) by {
            let k = choose|k: int| 0 <= k < item.drop_last().len() && item.drop_last()[k] == c;
            assert(item[k] == c);
        }
        lemma_last_quote(prefix, item.drop_last());
    }
}

/// The list of quoted types reads back as the types.
proof fn lemma_quoted_items_of_type_list(ts: Seq<Seq<char>>)
    requires
        ts.len() > 0,
        quote_free_types(ts),
    ensures
        quoted_items(type_list(ts)) == ts,
    decreases ts.len(),
{
    let n = ts.len();
    let parts = Seq::new(n, |k: int| "'"@ + ts[k] + "'"@);
    let quote = "'"@;
    reveal_strlit("'");
    reveal_strlit(", ");
    let last = ts[n - 1];
    assert(!last.contains('\''));
    if n == 1 {
        let s = type_list(ts);
        assert(s == join(parts, ", "@));
        assert(s =~= seq!['\''] + last + seq!['\'']);
        assert(s.drop_last() =~= Seq::<char>::empty().push('\'') + last);
        lemma_last_quote(Seq::empty(), last);
        assert(s.drop_last().subrange(1, s.drop_last().len() as int) =~= last);
        assert(quoted_items(s) =~= seq![last]);
        assert(ts =~= seq![last]);
    } else {
        let init = ts.drop_last();
        assert(quote_free_types(init)) by {
            assert forall|i: int| 0 <= i < init.len() implies !(#[trigger] init[i]).contains('\'') by {
                assert(init[i] == ts[i]);
            }
        }
        let rest = type_list(init);
        assert(parts.drop_last() =~= Seq::new((n - 1) as nat, |k: int| "'"@ + init[k] + "'"@));
        assert(type_list(ts) == join(parts, ", "@));
        assert(join(parts, ", "@) == join(parts.drop_last(), ", "@) + ", "@ + parts.last());
        let s = type_list(ts);
        assert(s =~= rest + seq![',', ' '] + seq!['\''] + last + seq!['\'']);
        let before = rest + seq![',', ' '];
        assert(s.drop_last() =~= before.push('\'') + last);
        lemma_last_quote(before, last);
        assert(s.drop_last().subrange(before.len() as int + 1, s.drop_last().len() as int) =~= last);
        assert(s.drop_last().take(before.len() as int) =~= before);
        assert(before.take(before.len() - 2) =~= rest);
        lemma_quoted_items_of_type_list(init);
        assert(quoted_items(s) =~= init.push(last));
        assert(ts =~= init.push(last));
    }
}

/// The type condition of the listing passes exactly the wanted types: with
/// types to include, a notification is listed when its type is one of them;
/// otherwise it is listed when its type is none of the types to exclude
/// (every type, when there are none).
pub proof fn lemma_type_filter_selects(q: NotificationsQuery, t: Seq<char>)
    requires
        quote_free_types(string_views(q.include_types@)),
        quote_free_types(string_views(q.exclude_types@)),
    ensures
        type_condition_admits(type_filter_text(q), t) == if q.include_types@.len() > 0 {
            string_views(q.include_types@).contains(t)
        } else {
            !string_views(q.exclude_types@).contains(t)
        },
{
    let inc = " AND notification_type IN ("@;
    let exc = " AND notification_type NOT IN ("@;
    reveal_strlit(" AND notification_type IN (");
    reveal_strlit(" AND notification_type NOT IN (");
    reveal_strlit(")");
    let c = type_filter_text(q);
    if q.include_types@.len() > 0 {
        let ts = string_views(q.include_types@);
        lemma_quoted_items_of_type_list(ts);
        assert(c =~= inc + type_list(ts) + ")"@);
        assert(c[23] == 'I' && exc[23] == 'N');
        if c.len() > exc.len() {
            assert(c.take(exc.len() as int)[23] == c[23]);
        }
        assert(c.take(inc.len() as int) =~= inc);
        assert(c.subrange(inc.len() as int, c.len() - 1) =~= type_list(ts));
    } else if q.exclude_types@.len() > 0 {
        let ts = string_views(q.exclude_types@);
        lemma_quoted_items_of_type_list(ts);
        assert(c.take(exc.len() as int) =~= exc);
        assert(c.subrange(exc.len() as int, c.len() - 1) =~= type_list(ts));
    } else {
        assert(string_views(q.exclude_types@).len() == 0);
        assert(!string_views(q.exclude_types@).contains(t));
    }
}

fn push_type_filter(sql: &mut String, q: &NotificationsQuery)
    ensures
        final(sql)@ == old(sql)@ + type_filter_text(*q),
{
    if q.include_types.len() > 0 {
        sql.append(" AND notification_type IN (");
        let l = make_type_list(&q.include_types);
        sql.append(l.as_str());
        sql.append(")");
    } else if q.exclude_types.len() > 0 {
        sql.append(" AND notification_type NOT IN (");
        let l = make_type_list(&q.exclude_types);
        sql.append(l.as_str());
        sql.append(")");
    }
    assert(final(sql)@ =~= old(sql)@ + type_filter_text(*q));
}

/// Builds the notification listing query.
pub fn notifications_query(q: &NotificationsQuery) -> (r: String)
    ensures
        r@ == notifications_query_text(*q),
{
    let mut sql = String::from_str("SELECT * FROM notification WHERE recipient_id = $recipient_id");
    if q.unread_only == Some(true) {
        sql.append(" AND is_read = false");
    }
    let ghost s1 = sql@;
    push_id_bound(&mut sql, " AND id > '", &q.since_id);
    push_id_bound(&mut sql, " AND id < '", &q.until_id);
    let ghost s3 = sql@;
    if q.following == Some(true) {
        sql.append(" AND sender_id IN (SELECT out FROM follow WHERE in = $recipient_id)");
    }
    let ghost s4 = sql@;
    push_type_filter(&mut sql, q);
    let ghost s5 = sql@;
    let l: i64 = match q.limit {
        Some(l) => l,
        None => 20,
    };
    let limit: i64 = if l < 100 { l } else { 100 };
    sql.append(" ORDER BY created_at DESC LIMIT ");
    push_signed_decimal(&mut sql, limit);
    assert(sql@ =~= notifications_query_text(*q));
    sql
}

/// A notification can be marked read only by its recipient; for anyone
/// else, and for one that does not exist, it is not found.
pub fn check_recipient(recipient_id: &Option<String>, user_id: u128) -> (r: Result<(), AppError>)
    ensures
        r is Ok <==> (recipient_id matches Some(rid) && rid@ == ulid_text(user_id)),
        r matches Err(e) ==> e.is(ErrorKind::NotFound, "Notification not found"@),
{
    match recipient_id {
        Some(rid) => {
            let me = ulid_to_string(user_id);
            if str_eq(rid.as_str(), me.as_str()) {
                Ok(())
            } else {
                Err(err(ErrorKind::NotFound, "Notification not found"))
            }
        },
        None => Err(err(ErrorKind::NotFound, "Notification not found")),
    }
}

/// The page size of the notification list: 20 unless asked, at most 100.
pub fn notification_page_limit(limit: Option<usize>) -> (r: usize)
    ensures
        r == (if (match limit { Some(l) => l, None => 20 }) < 100 { match limit { Some(l) => l, None => 20 } } else { 100 }),
        r <= 100,
{
    let l = match limit {
        Some(l) => l,
        None => 20,
    };
    if l < 100 { l } else { 100 }
}

/// The ids present among optional ids, in order.
pub open spec fn present_ids(s: Seq<Option<u128>>) -> Seq<u128>
    decreases s.len(),
{
    if s.len() == 0 {
        Seq::empty()
    } else {
        present_ids(s.drop_last()) + match s.last() {
            Some(id) => seq![id],
            None => Seq::empty(),
        }
    }
}

/// The senders of a page of notifications, in order, for one lookup.
pub open spec fn senders_of(n: Seq<Notification>) -> Seq<Option<u128>> {
    n.map_values(|x: Notification| x.sender_id)
}

/// The notes of a page of notifications, in order, for one lookup.
pub open spec fn notes_of(n: Seq<Notification>) -> Seq<Option<u128>> {
    n.map_values(|x: Notification| x.note_id)
}

/// The senders of a page of notifications that have one.
pub fn sender_ids(notifs: &Vec<Notification>) -> (r: Vec<u128>)
    ensures
        r@ == present_ids(senders_of(notifs@)),
{
    let mut r: Vec<u128> = Vec::new();
    let mut i: usize = 0;
    while i < notifs.len()
        invariant
            i <= notifs@.len(),
            r@ == present_ids(senders_of(notifs@.take(i as int))),
        decreases notifs@.len() - i,
    {
        if let Some(id) = notifs[i].sender_id {
            r.push(id);
        }
        assert(senders_of(notifs@.take(i as int + 1)).drop_last() =~= senders_of(notifs@.take(i as int)));
        i = i + 1;
    }
    assert(notifs@.take(notifs@.len() as int) =~= notifs@);
    r
}

/// The notes of a page of notifications that have one.
pub fn note_ids(notifs: &Vec<Notification>) -> (r: Vec<u128>)
    ensures
        r@ == present_ids(notes_of(notifs@)),
{
    let mut r: Vec<u128> = Vec::new();
    let mut i: usize = 0;
    while i < notifs.len()
        invariant
            i <= notifs@.len(),
            r@ == present_ids(notes_of(notifs@.take(i as int))),
        decreases notifs@.len() - i,
    {
        if let Some(id) = notifs[i].note_id {
            r.push(id);
        }
        assert(notes_of(notifs@.take(i as int + 1)).drop_last() =~= notes_of(notifs@.take(i as int)));
        i = i + 1;
    }
    assert(notifs@.take(notifs@.len() as int) =~= notifs@);
    r
}

} // verus!
