//! Hashtags: trending tags by distinct users, and the queries that list tags
//! and the notes carrying one.
use vstd::prelude::*;
use crate::json::{Json, field};
use crate::text::{string_views, contains_string, find_string};
use crate::time::{MAX_SECS, MIN_SECS, Timestamp};

verus! {

/// Query of the hashtag search.
#[derive(Clone, Debug)]
pub struct HashtagSearchQuery {
    pub q: Option<String>,
    pub limit: Option<i64>,
    pub offset: Option<i64>,
}

impl HashtagSearchQuery {
    /// How many tags to list: 20 unless the query says.
    pub fn limit(&self) -> (r: i64)
        ensures
            r == match self.limit {
                Some(l) => l,
                None => 20,
            },
    {
        match self.limit {
            Some(l) => l,
            None => 20,
        }
    }

    /// How many tags to skip: none unless the query says.
    pub fn offset(&self) -> (r: i64)
        ensures
            r == match self.offset {
                Some(o) => o,
                None => 0,
            },
    {
        match self.offset {
            Some(o) => o,
            None => 0,
        }
    }
}

/// Query of a hashtag timeline.
#[derive(Clone, Debug)]
pub struct HashtagTimelineQuery {
    pub tag: String,
    pub since_id: Option<String>,
    pub until_id: Option<String>,
    pub limit: Option<i64>,
    pub with_files: Option<bool>,
}

impl HashtagTimelineQuery {
    /// How many notes to list: 10 unless the query says.
    pub fn limit(&self) -> (r: i64)
        ensures
            r == match self.limit {
                Some(l) => l,
                None => 10,
            },
    {
        match self.limit {
            Some(l) => l,
            None => 10,
        }
    }
}

/// The tags of a recent note and who wrote it.
#[derive(Clone, Debug)]
pub struct TaggedNote {
    pub tags: Vec<String>,
    pub actor_id: String,
}

/// The texts of a JSON array whose elements are all strings; `None` for any
/// other value.
pub open spec fn string_array(j: Json) -> Option<Seq<Seq<char>>> {
    match j {
        Json::Array(v) => if forall|k: int| 0 <= k < v@.len() ==> (#[trigger] v@[k]) is Str {
            Some(Seq::new(v@.len(), |k: int| v@[k]->Str_0@))
        } else {
            None
        },
        _ => None,
    }
}

/// Reads a note row of the trending query: its `tags` when they are an array
/// of strings (else none) and its `actor_id` when it is a string (else empty).
pub fn tagged_note_from_json(row: &Json) -> (n: TaggedNote)
    ensures
        string_views(n.tags@) == match field(*row, "tags"@) {
            Some(t) => match string_array(t) {
                Some(ts) => ts,
                None => Seq::<Seq<char>>::empty(),
            },
            None => Seq::<Seq<char>>::empty(),
        },
        n.actor_id@ == match field(*row, "actor_id"@) {
            Some(Json::Str(s)) => s@,
            _ => Seq::<char>::empty(),
        },
{
    let mut tags: Vec<String> = Vec::new();
    match row.get("tags") {
        Some(Json::Array(v)) => {
            let mut k: usize = 0;
            let mut all_strings = true;
            while all_strings && k < v.len()
                invariant
                    k <= v@.len(),
                    all_strings ==> tags@.len() == k,
                    all_strings ==> forall|m: int| 0 <= m < k ==> (#[trigger] v@[m]) is Str,
                    all_strings ==> forall|m: int| 0 <= m < k ==> (#[trigger] tags@[m])@ == v@[m]->Str_0@,
                    !all_strings ==> tags@.len() == 0,
                    !all_strings ==> exists|m: int| 0 <= m < v@.len() && !((#[trigger] v@[m]) is Str),
                decreases v@.len() - k + if all_strings { 1int } else { 0int },
            {
                match &v[k] {
                    Json::Str(s) => {
                        tags.push(s.clone());
                    },
                    _ => {
                        all_strings = false;
                        tags = Vec::new();
                    },
                }
                if all_strings {
                    k = k + 1;
                }
            }
            if all_strings {
                assert(string_views(tags@) =~= Seq::new(v@.len(), |m: int| v@[m]->Str_0@));
            } else {
                assert(string_views(tags@) =~= Seq::<Seq<char>>::empty());
            }
        },
        _ => {
            assert(string_views(tags@) =~= Seq::<Seq<char>>::empty());
        },
    }
    let actor_id = match row.get("actor_id") {
        Some(Json::Str(s)) => s.clone(),
        _ => String::new(),
    };
    TaggedNote { tags, actor_id }
}


/// The (tag, author) pairs of one note.
pub open spec fn note_pairs(n: TaggedNote) -> Seq<(Seq<char>, Seq<char>)> {
    n.tags@.map_values(|t: String| (t@, n.actor_id@))
}

/// The (tag, author) pairs of all notes, note by note and tag by tag.
pub open spec fn tag_pairs(notes: Seq<TaggedNote>) -> Seq<(Seq<char>, Seq<char>)>
    decreases notes.len(),
{
    if notes.len() == 0 {
        Seq::empty()
    } else {
        tag_pairs(notes.drop_last()) + note_pairs(notes.last())
    }
}

/// Some pair carries tag `t`.
pub open spec fn tag_used(p: Seq<(Seq<char>, Seq<char>)>, t: Seq<char>) -> bool {
    exists|k: int| 0 <= k < p.len() && (#[trigger] p[k]).0 == t
}

/// The authors who used tag `t`.
pub open spec fn users_of(p: Seq<(Seq<char>, Seq<char>)>, t: Seq<char>) -> Set<Seq<char>> {
    Set::new(|u: Seq<char>| exists|k: int| 0 <= k < p.len() && #[trigger] p[k] == (t, u))
}

/// How many distinct authors used tag `t`.
pub open spec fn user_count(p: Seq<(Seq<char>, Seq<char>)>, t: Seq<char>) -> nat {
    users_of(p, t).len()
}

/// The texts of a list of (tag, count) entries' tags.
pub open spec fn entry_tags(r: Seq<(String, usize)>) -> Seq<Seq<char>> {
    r.map_values(|e: (String, usize)| e.0@)
}

/// `r` is the trending list of the pairs `p`: at most `k` distinct tags, each
/// used in `p` and given with its number of distinct authors, ordered by that
/// number from most to fewest; no tag left out has more authors than any
/// listed one; and fewer than `k` entries only when every used tag is listed.
pub open spec fn is_top_tags(p: Seq<(Seq<char>, Seq<char>)>, k: nat, r: Seq<(String, usize)>) -> bool {
    &&& r.len() <= k
    &&& entry_tags(r).no_duplicates()
    &&& forall|j: int| 0 <= j < r.len() ==> tag_used(p, #[trigger] r[j].0@)
    &&& forall|j: int| 0 <= j < r.len() ==> (#[trigger] r[j]).1 == user_count(p, r[j].0@)
    &&& forall|a: int, b: int| 0 <= a < b < r.len() ==> (#[trigger] r[a]).1 >= (#[trigger] r[b]).1
    &&& forall|t: Seq<char>|
        tag_used(p, t) && !entry_tags(r).contains(t) ==> forall|j: int|
            0 <= j < r.len() ==> user_count(p, t) <= (#[trigger] r[j]).1
    &&& r.len() < k ==> forall|t: Seq<char>| tag_used(p, t) ==> entry_tags(r).contains(t)
}

proof fn lemma_users_push(p: Seq<(Seq<char>, Seq<char>)>, x: (Seq<char>, Seq<char>), t: Seq<char>)
    ensures
        users_of(p.push(x), t) == if x.0 == t {
            users_of(p, t).insert(x.1)
        } else {
            users_of(p, t)
        },
        tag_used(p.push(x), t) == (tag_used(p, t) || x.0 == t),
{
    let q = p.push(x);
    if x.0 == t {
        assert forall|u: Seq<char>| #[trigger] users_of(q, t).contains(u) == users_of(p, t).insert(x.1).contains(u) by {
            if users_of(p, t).contains(u) {
                let k = choose|k: int| 0 <= k < p.len() && #[trigger] p[k] == (t, u);
                assert(q[k] == (t, u));
            }
            if u == x.1 {
                assert(q[p.len() as int] == (t, u));
            }
        }
        assert(users_of(q, t) =~= users_of(p, t).insert(x.1));
    } else {
        assert forall|u: Seq<char>| #[trigger] users_of(q, t).contains(u) == users_of(p, t).contains(u) by {
            if users_of(p, t).contains(u) {
                let k = choose|k: int| 0 <= k < p.len() && #[trigger] p[k] == (t, u);
                assert(q[k] == (t, u));
            }
        }
        assert(users_of(q, t) =~= users_of(p, t));
    }
    if tag_used(p, t) {
        let k = choose|k: int| 0 <= k < p.len() && (#[trigger] p[k]).0 == t;
        assert(q[k].0 == t);
    }
    if x.0 == t {
        assert(q[p.len() as int].0 == t);
    }
}

proof fn lemma_push_new(s: Seq<Seq<char>>, u: Seq<char>)
    requires
        s.no_duplicates(),
        !s.contains(u),
    ensures
        s.push(u).no_duplicates(),
        s.push(u).to_set() == s.to_set().insert(u),
{
    let q = s.push(u);
    assert forall|a: int, b: int| 0 <= a < q.len() && 0 <= b < q.len() && a != b implies q[a] != q[b] by {
        if a == s.len() {
            assert(s[b] == q[b]);
        } else if b == s.len() {
            assert(s[a] == q[a]);
        }
    }
    assert forall|v: Seq<char>| #[trigger] q.to_set().contains(v) == s.to_set().insert(u).contains(v) by {
        if s.contains(v) {
            let k = choose|k: int| 0 <= k < s.len() && s[k] == v;
            assert(q[k] == v);
        }
        if v == u {
            assert(q[s.len() as int] == v);
        }
        if q.contains(v) {
            let k = choose|k: int| 0 <= k < q.len() && q[k] == v;
            if k < s.len() {
                assert(s[k] == v);
            }
        }
    }
    assert(q.to_set() =~= s.to_set().insert(u));
}

/// The views of a list of (tag, author) string pairs.
pub open spec fn pair_views(s: Seq<(String, String)>) -> Seq<(Seq<char>, Seq<char>)> {
    s.map_values(|x: (String, String)| (x.0@, x.1@))
}

/// All (tag, author) pairs of the notes, in order.
fn flatten_pairs(notes: &Vec<TaggedNote>) -> (r: Vec<(String, String)>)
    ensures
        pair_views(r@) == tag_pairs(notes@),
{
    let mut r: Vec<(String, String)> = Vec::new();
    let mut i: usize = 0;
    assert(notes@.take(0) =~= Seq::<TaggedNote>::empty());
    assert(pair_views(r@) =~= tag_pairs(notes@.take(0)));
    while i < notes.len()
        invariant
            i <= notes@.len(),
            pair_views(r@) == tag_pairs(notes@.take(i as int)),
        decreases notes@.len() - i,
    {
        let n = &notes[i];
        let ghost base = r@;
        let mut j: usize = 0;
        while j < n.tags.len()
            invariant
                *n == notes@[i as int],
                j <= n.tags@.len(),
                r@.len() == base.len() + j,
                forall|m: int| 0 <= m < base.len() ==> #[trigger] r@[m] == base[m],
                forall|m: int|
                    0 <= m < j ==> (#[trigger] r@[base.len() + m]).0@ == n.tags@[m]@ && r@[base.len()
                        + m].1@ == n.actor_id@,
            decreases n.tags@.len() - j,
        {
            r.push((n.tags[j].clone(), n.actor_id.clone()));
            j = j + 1;
        }
        let ghost next = notes@.take(i + 1);
        assert(next.drop_last() =~= notes@.take(i as int));
        assert(next.last() == *n);
        assert forall|m: int| 0 <= m < r@.len() implies #[trigger] pair_views(r@)[m] == (pair_views(base)
            + note_pairs(*n))[m] by {
            if m >= base.len() {
                let mm = m - base.len();
                assert(r@[base.len() + mm].0@ == n.tags@[mm]@);
            }
        }
        assert(pair_views(r@) =~= pair_views(base) + note_pairs(*n));
        i = i + 1;
    }
    assert(notes@.take(notes@.len() as int) =~= notes@);
    r
}

/// The groups built from the pairs `p`: distinct tags, one per used tag, each
/// with the distinct authors who used it.
pub open spec fn groups_of(p: Seq<(Seq<char>, Seq<char>)>, tags: Seq<String>, users: Seq<Vec<String>>) -> bool {
    &&& users.len() == tags.len()
    &&& string_views(tags).no_duplicates()
    &&& forall|a: int|
        0 <= a < tags.len() ==> string_views((#[trigger] users[a])@).no_duplicates()
            && string_views(users[a]@).to_set() == users_of(p, tags[a]@)
    &&& forall|t: Seq<char>| tag_used(p, t) <==> string_views(tags).contains(t)
}

/// Groups the pairs by tag, keeping each tag's distinct authors.
fn group_by_tag(pairs: &Vec<(String, String)>) -> (r: (Vec<String>, Vec<Vec<String>>))
    ensures
        groups_of(pair_views(pairs@), r.0@, r.1@),
{
    let ghost p = pair_views(pairs@);
    let mut tags: Vec<String> = Vec::new();
    let mut users: Vec<Vec<String>> = Vec::new();
    let mut i: usize = 0;
    proof {
        assert(p.take(0) =~= Seq::<(Seq<char>, Seq<char>)>::empty());
        assert(string_views(tags@) =~= Seq::<Seq<char>>::empty());
    }
    while i < pairs.len()
        invariant
            p == pair_views(pairs@),
            i <= pairs@.len(),
            groups_of(p.take(i as int), tags@, users@),
        decreases pairs@.len() - i,
    {
        let t = &pairs[i].0;
        let u = &pairs[i].1;
        let ghost q = p.take(i as int);
        let ghost x = p[i as int];
        assert(p.take(i + 1) =~= q.push(x));
        assert(x == (t@, u@));
        proof {
            assert forall|tt: Seq<char>| #[trigger] users_of(q.push(x), tt) == if x.0 == tt {
                users_of(q, tt).insert(x.1)
            } else {
                users_of(q, tt)
            } by {
                lemma_users_push(q, x, tt);
            }
            assert forall|tt: Seq<char>| #[trigger] tag_used(q.push(x), tt) == (tag_used(q, tt) || x.0 == tt) by {
                lemma_users_push(q, x, tt);
            }
        }
        match find_string(&tags, t.as_str()) {
            Some(a) => {
                if !contains_string(&users[a], u.as_str()) {
                    let mut us: Vec<String> = Vec::new();
                    users.set_and_swap(a, &mut us);
                    let ghost old_us = us@;
                    proof {
                        lemma_push_new(string_views(old_us), u@);
                    }
                    us.push(u.clone());
                    assert(string_views(us@) =~= string_views(old_us).push(u@));
                    users.set_and_swap(a, &mut us);
                    assert forall|b: int| 0 <= b < tags@.len() implies string_views((#[trigger] users@[b])@).no_duplicates()
                        && string_views(users@[b]@).to_set() == users_of(q.push(x), tags@[b]@) by {
                        if b != a {
                            assert(string_views(tags@)[b] != string_views(tags@)[a as int]);
                        }
                    }
                } else {
                    assert forall|b: int| 0 <= b < tags@.len() implies string_views((#[trigger] users@[b])@).no_duplicates()
                        && string_views(users@[b]@).to_set() == users_of(q.push(x), tags@[b]@) by {
                        if b == a {
                            assert(string_views(users@[b]@).to_set().contains(u@));
                            assert(users_of(q, tags@[b]@).insert(u@) =~= users_of(q, tags@[b]@));
                        } else {
                            assert(string_views(tags@)[b] != string_views(tags@)[a as int]);
                        }
                    }
                }
                assert forall|tt: Seq<char>| tag_used(q.push(x), tt) <==> string_views(tags@).contains(tt) by {
                    if tt == x.0 {
                        assert(string_views(tags@)[a as int] == tt);
                    }
                }
            },
            None => {
                let ghost old_tags = tags@;
                let ghost old_users = users@;
                let mut us: Vec<String> = Vec::new();
                us.push(u.clone());
                proof {
                    lemma_push_new(Seq::<Seq<char>>::empty(), u@);
                    assert(string_views(us@) =~= Seq::<Seq<char>>::empty().push(u@));
                    assert(Seq::<Seq<char>>::empty().to_set() =~= Set::<Seq<char>>::empty());
                    assert(!tag_used(q, t@));
                    assert(users_of(q, t@) =~= Set::<Seq<char>>::empty()) by {
                        assert forall|v: Seq<char>| !users_of(q, t@).contains(v) by {
                            if users_of(q, t@).contains(v) {
                                let k = choose|k: int| 0 <= k < q.len() && #[trigger] q[k] == (t@, v);
                                assert(q[k].0 == t@);
                            }
                        }
                    }
                    lemma_push_new(string_views(old_tags), t@);
                }
                tags.push(t.clone());
                users.push(us);
                assert(string_views(tags@) =~= string_views(old_tags).push(t@));
                assert forall|b: int| 0 <= b < tags@.len() implies string_views((#[trigger] users@[b])@).no_duplicates()
                    && string_views(users@[b]@).to_set() == users_of(q.push(x), tags@[b]@) by {
                    if b < old_tags.len() {
                        assert(users@[b] == old_users[b]);
                        assert(tags@[b] == old_tags[b]);
                        assert(string_views(old_tags)[b] != t@) by {
                            assert(string_views(old_tags).contains(string_views(old_tags)[b]));
                        }
                    }
                }
                assert forall|tt: Seq<char>| tag_used(q.push(x), tt) <==> string_views(tags@).contains(tt) by {
                    if tt == x.0 {
                        assert(string_views(tags@)[old_tags.len() as int] == tt);
                    }
                    if string_views(tags@).contains(tt) && tt != x.0 {
                        let m = choose|m: int| 0 <= m < string_views(tags@).len() && string_views(tags@)[m] == tt;
                        assert(m < old_tags.len());
                        assert(string_views(old_tags)[m] == tt);
                        assert(string_views(old_tags).contains(tt));
                    }
                    if tag_used(q, tt) {
                        assert(string_views(old_tags).contains(tt));
                        let m = choose|m: int| 0 <= m < string_views(old_tags).len() && string_views(old_tags)[m] == tt;
                        assert(string_views(tags@)[m] == tt);
                    }
                }
            },
        }
        i = i + 1;
    }
    assert(p.take(pairs@.len() as int) =~= p);
    (tags, users)
}


/// Each entry names a used tag with its number of distinct authors.
pub open spec fn entries_exact(p: Seq<(Seq<char>, Seq<char>)>, r: Seq<(String, usize)>) -> bool {
    forall|j: int|
        0 <= j < r.len() ==> tag_used(p, (#[trigger] r[j]).0@) && r[j].1 == user_count(p, r[j].0@)
}

/// One entry per group: the tag and its number of distinct authors.
fn count_groups(tags: Vec<String>, users: &Vec<Vec<String>>, Ghost(p): Ghost<Seq<(Seq<char>, Seq<char>)>>) -> (r: Vec<(String, usize)>)
    requires
        groups_of(p, tags@, users@),
    ensures
        entries_exact(p, r@),
        entry_tags(r@) == string_views(tags@),
{
    let mut r: Vec<(String, usize)> = Vec::new();
    let mut a: usize = 0;
    while a < tags.len()
        invariant
            groups_of(p, tags@, users@),
            a <= tags@.len(),
            r@.len() == a,
            entries_exact(p, r@),
            forall|m: int| 0 <= m < a ==> (#[trigger] r@[m]).0@ == tags@[m]@,
        decreases tags@.len() - a,
    {
        let n = users[a].len();
        proof {
            let sv = string_views(users@[a as int]@);
            sv.unique_seq_to_set();
            assert(string_views(tags@).contains(tags@[a as int]@)) by {
                assert(string_views(tags@)[a as int] == tags@[a as int]@);
            }
        }
        r.push((tags[a].clone(), n));
        a = a + 1;
    }
    assert(entry_tags(r@) =~= string_views(tags@));
    r
}

/// The position of the first entry with the largest count.
fn argmax(v: &Vec<(String, usize)>) -> (m: usize)
    requires
        v@.len() > 0,
    ensures
        m < v@.len(),
        forall|j: int| 0 <= j < v@.len() ==> (#[trigger] v@[j]).1 <= v@[m as int].1,
{
    let mut m: usize = 0;
    let mut k: usize = 1;
    while k < v.len()
        invariant
            1 <= k <= v@.len(),
            m < k,
            forall|j: int| 0 <= j < k ==> (#[trigger] v@[j]).1 <= v@[m as int].1,
        decreases v@.len() - k,
    {
        if v[k].1 > v[m].1 {
            m = k;
        }
        k = k + 1;
    }
    m
}

/// The `k` entries with the largest counts, largest first, ties in their
/// first order.
fn select_top(entries: Vec<(String, usize)>, k: usize, Ghost(p): Ghost<Seq<(Seq<char>, Seq<char>)>>) -> (r: Vec<(String, usize)>)
    requires
        entries_exact(p, entries@),
        entry_tags(entries@).no_duplicates(),
        forall|t: Seq<char>| tag_used(p, t) ==> entry_tags(entries@).contains(t),
    ensures
        is_top_tags(p, k as nat, r@),
{
    let mut remaining = entries;
    let mut result: Vec<(String, usize)> = Vec::new();
    while result.len() < k && remaining.len() > 0
        invariant
            result@.len() <= k,
            entries_exact(p, result@),
            entries_exact(p, remaining@),
            entry_tags(result@).no_duplicates(),
            entry_tags(remaining@).no_duplicates(),
            forall|a: int, b: int|
                0 <= a < result@.len() && 0 <= b < remaining@.len() ==> (#[trigger] result@[a]).0@
                    != (#[trigger] remaining@[b]).0@,
            forall|t: Seq<char>|
                tag_used(p, t) ==> entry_tags(result@).contains(t) || entry_tags(remaining@).contains(t),
            forall|a: int, b: int|
                0 <= a < b < result@.len() ==> (#[trigger] result@[a]).1 >= (#[trigger] result@[b]).1,
            forall|a: int, b: int|
                0 <= a < result@.len() && 0 <= b < remaining@.len() ==> (#[trigger] result@[a]).1
                    >= (#[trigger] remaining@[b]).1,
        decreases remaining@.len(),
    {
        let m = argmax(&remaining);
        let ghost old_res = result@;
        let ghost old_rem = remaining@;
        let e = remaining.remove(m);
        assert(e == old_rem[m as int]);
        assert(remaining@ == old_rem.remove(m as int));
        result.push(e);
        proof {
            assert(result@ == old_res.push(e));
            assert forall|b: int| 0 <= b < remaining@.len() implies remaining@[b] == old_rem[if b < m {
                b
            } else {
                b + 1
            }] by {}
            assert forall|a: int| 0 <= a < old_res.len() implies old_res[a].0@ != e.0@ by {
                assert(old_res[a].0@ != old_rem[m as int].0@);
            }
            assert forall|a: int, b: int|
                0 <= a < result@.len() && 0 <= b < remaining@.len() implies (#[trigger] result@[a]).0@
                    != (#[trigger] remaining@[b]).0@ by {
                let bb = if b < m { b } else { b + 1 };
                assert(remaining@[b] == old_rem[bb]);
                if a < old_res.len() {
                    assert(result@[a] == old_res[a]);
                } else {
                    assert(entry_tags(old_rem)[bb] != entry_tags(old_rem)[m as int]);
                }
            }
            assert forall|a: int, b: int|
                0 <= a < result@.len() && 0 <= b < remaining@.len() implies (#[trigger] result@[a]).1
                    >= (#[trigger] remaining@[b]).1 by {
                let bb = if b < m { b } else { b + 1 };
                assert(remaining@[b] == old_rem[bb]);
                if a < old_res.len() {
                    assert(result@[a] == old_res[a]);
                } else {
                    assert(old_rem[bb].1 <= old_rem[m as int].1);
                }
            }
            assert forall|a: int, b: int|
                0 <= a < b < result@.len() implies (#[trigger] result@[a]).1 >= (#[trigger] result@[b]).1 by {
                if b == old_res.len() {
                    assert(result@[a] == old_res[a]);
                    assert(old_res[a].1 >= old_rem[m as int].1);
                } else {
                    assert(result@[a] == old_res[a]);
                    assert(result@[b] == old_res[b]);
                }
            }
            assert(entry_tags(result@) =~= entry_tags(old_res).push(e.0@));
            assert forall|x: int, y: int|
                0 <= x < entry_tags(result@).len() && 0 <= y < entry_tags(result@).len() && x != y implies
                    entry_tags(result@)[x] != entry_tags(result@)[y] by {
                if x == old_res.len() {
                    assert(old_res[y].0@ != e.0@);
                } else if y == old_res.len() {
                    assert(old_res[x].0@ != e.0@);
                } else {
                    assert(entry_tags(old_res)[x] != entry_tags(old_res)[y]);
                }
            }
            assert forall|x: int, y: int|
                0 <= x < entry_tags(remaining@).len() && 0 <= y < entry_tags(remaining@).len() && x != y implies
                    entry_tags(remaining@)[x] != entry_tags(remaining@)[y] by {
                let xx = if x < m { x } else { x + 1 };
                let yy = if y < m { y } else { y + 1 };
                assert(remaining@[x] == old_rem[xx]);
                assert(remaining@[y] == old_rem[yy]);
                assert(entry_tags(old_rem)[xx] != entry_tags(old_rem)[yy]);
            }
            assert forall|j: int| 0 <= j < remaining@.len() implies tag_used(p, (#[trigger] remaining@[j]).0@)
                && remaining@[j].1 == user_count(p, remaining@[j].0@) by {
                let jj = if j < m { j } else { j + 1 };
                assert(remaining@[j] == old_rem[jj]);
            }
            assert forall|j: int| 0 <= j < result@.len() implies tag_used(p, (#[trigger] result@[j]).0@)
                && result@[j].1 == user_count(p, result@[j].0@) by {
                if j < old_res.len() {
                    assert(result@[j] == old_res[j]);
                }
            }
            assert forall|t: Seq<char>| tag_used(p, t) implies entry_tags(result@).contains(t) || entry_tags(
                remaining@,
            ).contains(t) by {
                if entry_tags(old_res).contains(t) {
                    let x = choose|x: int| 0 <= x < entry_tags(old_res).len() && entry_tags(old_res)[x] == t;
                    assert(entry_tags(result@)[x] == t);
                } else {
                    let x = choose|x: int| 0 <= x < entry_tags(old_rem).len() && entry_tags(old_rem)[x] == t;
                    if x == m {
                        assert(entry_tags(result@)[old_res.len() as int] == t);
                    } else {
                        let y = if x < m { x } else { x - 1 };
                        assert(remaining@[y] == old_rem[x]);
                        assert(entry_tags(remaining@)[y] == t);
                    }
                }
            }
        }
    }
    proof {
        assert forall|t: Seq<char>| tag_used(p, t) && !entry_tags(result@).contains(t) implies forall|j: int|
            0 <= j < result@.len() ==> user_count(p, t) <= (#[trigger] result@[j]).1 by {
            let x = choose|x: int| 0 <= x < entry_tags(remaining@).len() && entry_tags(remaining@)[x] == t;
            assert(remaining@[x].0@ == t);
            assert forall|j: int| 0 <= j < result@.len() implies user_count(p, t) <= (#[trigger] result@[j]).1 by {
                assert(result@[j].1 >= remaining@[x].1);
            }
        }
        if result@.len() < k {
            assert(remaining@.len() == 0);
            assert forall|t: Seq<char>| tag_used(p, t) implies entry_tags(result@).contains(t) by {
                if entry_tags(remaining@).contains(t) {
                    let x = choose|x: int| 0 <= x < entry_tags(remaining@).len() && entry_tags(remaining@)[x] == t;
                }
            }
        }
    }
    result
}

/// The trending tags of the recent notes: the five tags used by the most
/// distinct authors, most first, each with that number of authors.
pub fn trending_tags(notes: &Vec<TaggedNote>) -> (r: Vec<(String, usize)>)
    ensures
        is_top_tags(tag_pairs(notes@), 5, r@),
{
    let pairs = flatten_pairs(notes);
    let ghost p = pair_views(pairs@);
    let (tags, users) = group_by_tag(&pairs);
    let entries = count_groups(tags, &users, Ghost(p));
    select_top(entries, 5, Ghost(p))
}

/// The query text of a hashtag timeline: notes carrying `$tag`, after
/// `$since_id` and before `$until_id` when given, public or home, without the
/// authors a signed-in reader blocks or mutes (while the mute lasts), only
/// with files when asked, newest first, up to `$limit`.
pub open spec fn hashtag_timeline_text(q: HashtagTimelineQuery, signed_in: bool) -> Seq<char> {
    "SELECT * FROM note WHERE $tag INSIDE tags"@
        + (if q.since_id is Some { " AND id > $since_id"@ } else { Seq::empty() })
        + (if q.until_id is Some { " AND id < $until_id"@ } else { Seq::empty() })
        + " AND visibility IN ['public', 'home']"@
        + (if signed_in {
            " AND actor_id NOT IN (SELECT out FROM block WHERE in = $user_id)"@
                + " AND actor_id NOT IN (SELECT out FROM mute WHERE in = $user_id AND (expires_at IS NONE OR expires_at > time::now()))"@
        } else {
            Seq::empty()
        })
        + (if q.with_files == Some(true) { " AND file_ids != []"@ } else { Seq::empty() })
        + " ORDER BY created_at DESC LIMIT $limit"@
}

/// Builds the query of a hashtag timeline for a reader who is signed in or not.
pub fn hashtag_timeline_query(q: &HashtagTimelineQuery, signed_in: bool) -> (r: String)
    ensures
        r@ == hashtag_timeline_text(*q, signed_in),
{
    let mut r = String::from_str("SELECT * FROM note WHERE $tag INSIDE tags");
    if q.since_id.is_some() {
        r.append(" AND id > $since_id");
    }
    if q.until_id.is_some() {
        r.append(" AND id < $until_id");
    }
    r.append(" AND visibility IN ['public', 'home']");
    if signed_in {
        r.append(" AND actor_id NOT IN (SELECT out FROM block WHERE in = $user_id)");
        r.append(" AND actor_id NOT IN (SELECT out FROM mute WHERE in = $user_id AND (expires_at IS NONE OR expires_at > time::now()))");
    }
    if q.with_files == Some(true) {
        r.append(" AND file_ids != []");
    }
    r.append(" ORDER BY created_at DESC LIMIT $limit");
    assert(r@ =~= hashtag_timeline_text(*q, signed_in));
    r
}

/// The query of the hashtag search: tags containing `$q` when the search has
/// a text, else all tags; both by use, most first.
pub fn hashtag_search_text(has_q: bool) -> (r: &'static str)
    ensures
        r@ == (if has_q {
            "SELECT * FROM hashtag WHERE name CONTAINS $q ORDER BY count DESC LIMIT $limit START $offset"@
        } else {
            "SELECT * FROM hashtag ORDER BY count DESC LIMIT $limit START $offset"@
        }),
{
    if has_q {
        "SELECT * FROM hashtag WHERE name CONTAINS $q ORDER BY count DESC LIMIT $limit START $offset"
    } else {
        "SELECT * FROM hashtag ORDER BY count DESC LIMIT $limit START $offset"
    }
}

/// `now` moved back by `secs` seconds.
pub open spec fn before(now: Timestamp, secs: int) -> Timestamp {
    Timestamp { secs: (now.secs - secs) as i64, nanos: now.nanos }
}

/// One interval of a usage chart: the bounds bound to `$lt` and `$gt`.
#[derive(Clone, Copy, Debug, PartialEq, Eq, Structural)]
pub struct ChartWindow {
    pub lt: Timestamp,
    pub gt: Timestamp,
}

/// The intervals of a usage chart, oldest first: for `i` from `range - 1` down
/// to 0, `lt` is `i + 1` intervals of `minutes` before `now` and `gt` is `i`
/// intervals before it.
pub open spec fn chart_windows_spec(now: Timestamp, range: int, minutes: int) -> Seq<ChartWindow> {
    Seq::new(
        if range > 0 { range as nat } else { 0 },
        |k: int| ChartWindow { lt: before(now, minutes * 60 * (range - k)), gt: before(now, minutes * 60 * (range - 1 - k)) },
    )
}

proof fn lemma_scaled_between(m: int, j: int, n: int)
    requires
        0 <= j <= n,
    ensures
        (m >= 0 ==> 0 <= m * 60 * j <= m * 60 * n),
        (m < 0 ==> m * 60 * n <= m * 60 * j <= 0),
{
    assert(m >= 0 ==> 0 <= m * 60 * j <= m * 60 * n) by (nonlinear_arith)
        requires
            0 <= j <= n,
    ;
    assert(m < 0 ==> m * 60 * n <= m * 60 * j <= 0) by (nonlinear_arith)
        requires
            0 <= j <= n,
    ;
}

/// The intervals of a usage chart of `range` intervals of `minutes` minutes
/// ending at `now`. The oldest bound must stay in `chrono`'s range.
pub fn chart_windows(now: Timestamp, range: i32, minutes: i32) -> (r: Vec<ChartWindow>)
    requires
        now.wf(),
        range > 0 ==> MIN_SECS <= now.secs - minutes * 60 * range <= MAX_SECS,
    ensures
        r@ == chart_windows_spec(now, range as int, minutes as int),
{
    let mut r: Vec<ChartWindow> = Vec::new();
    if range <= 0 {
        assert(r@ =~= chart_windows_spec(now, range as int, minutes as int));
        return r;
    }
    let step: i64 = (minutes as i64) * 60;
    let mut k: i32 = 0;
    while k < range
        invariant
            0 <= k <= range,
            now.wf(),
            MIN_SECS <= now.secs - minutes * 60 * range <= MAX_SECS,
            step == minutes * 60,
            r@.len() == k,
            forall|x: int| 0 <= x < k ==> #[trigger] r@[x] == chart_windows_spec(now, range as int, minutes as int)[x],
        decreases range - k,
    {
        let far: i64 = (range - k) as i64;
        proof {
            lemma_scaled_between(minutes as int, far as int, range as int);
            lemma_scaled_between(minutes as int, far - 1, range as int);
            assert(step * far == minutes * 60 * far) by (nonlinear_arith)
                requires
                    step == minutes * 60,
            ;
            assert(step * (far - 1) == minutes * 60 * (far - 1)) by (nonlinear_arith)
                requires
                    step == minutes * 60,
            ;
        }
        let lt = Timestamp { secs: now.secs - step * far, nanos: now.nanos };
        let gt = Timestamp { secs: now.secs - step * (far - 1), nanos: now.nanos };
        r.push(ChartWindow { lt, gt });
        k = k + 1;
    }
    assert(r@ =~= chart_windows_spec(now, range as int, minutes as int));
    r
}

/// The authors of note rows, in order: each row's `actor_id` where it is a
/// string, rows without one skipped.
pub open spec fn actor_ids_spec(rows: Seq<Json>) -> Seq<Seq<char>>
    decreases rows.len(),
{
    if rows.len() == 0 {
        Seq::empty()
    } else {
        actor_ids_spec(rows.drop_last()) + match crate::json::str_field(rows.last(), "actor_id"@) {
            Some(a) => seq![a],
            None => Seq::empty(),
        }
    }
}

/// The authors of the note rows of a tag, for the lookup of its users.
pub fn actor_ids(rows: &Vec<Json>) -> (r: Vec<String>)
    ensures
        string_views(r@) == actor_ids_spec(rows@),
{
    let mut r: Vec<String> = Vec::new();
    let mut i: usize = 0;
    while i < rows.len()
        invariant
            i <= rows@.len(),
            string_views(r@) == actor_ids_spec(rows@.take(i as int)),
        decreases rows@.len() - i,
    {
        let ghost before_r = string_views(r@);
        if let Some(a) = crate::activitypub::inbox::get_str_field(&rows[i], "actor_id") {
            r.push(a);
        }
        assert(rows@.take(i as int + 1).drop_last() =~= rows@.take(i as int));
        assert(string_views(r@) =~= actor_ids_spec(rows@.take(i as int + 1)));
        i = i + 1;
    }
    assert(rows@.take(rows@.len() as int) =~= rows@);
    r
}

} // verus!