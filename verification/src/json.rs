//! A JSON document model with exact views, for the ActivityPub objects the
//! server reads and writes.
use vstd::prelude::*;

verus! {

/// A JSON value. Numbers that are 64-bit signed integers are held as such;
/// any other number is held as its decimal text.
#[derive(Debug)]
pub enum Json {
    Null,
    Bool(bool),
    Int(i64),
    OtherNumber(String),
    Str(String),
    Array(Vec<Json>),
    Object(Vec<(String, Json)>),
}

/// The mathematical value of a JSON document.
pub enum JsonV {
    Null,
    Bool(bool),
    Int(int),
    OtherNumber(Seq<char>),
    Str(Seq<char>),
    Array(Seq<JsonV>),
    Object(Seq<(Seq<char>, JsonV)>),
}

pub open spec fn json_view(j: Json) -> JsonV
    decreases j,
{
    match j {
        Json::Null => JsonV::Null,
        Json::Bool(b) => JsonV::Bool(b),
        Json::Int(n) => JsonV::Int(n as int),
        Json::OtherNumber(s) => JsonV::OtherNumber(s@),
        Json::Str(s) => JsonV::Str(s@),
        Json::Array(v) => JsonV::Array(
            Seq::new(
                v@.len(),
                |i: int|
                    if 0 <= i < v@.len() {
                        proof {
                            assert(decreases_to!(v => v@));
                            assert(decreases_to!(v@ => v@[i]));
                        }
                        json_view(v@[i])
                    } else {
                        JsonV::Null
                    },
            ),
        ),
        Json::Object(v) => JsonV::Object(
            Seq::new(
                v@.len(),
                |i: int|
                    if 0 <= i < v@.len() {
                        proof {
                            assert(decreases_to!(v => v@));
                            assert(decreases_to!(v@ => v@[i]));
                            assert(decreases_to!(v@[i] => v@[i].1));
                        }
                        (v@[i].0@, json_view(v@[i].1))
                    } else {
                        (Seq::<char>::empty(), JsonV::Null)
                    },
            ),
        ),
    }
}


/// Position `i` of an object's entries holds the first entry named `key`.
pub open spec fn first_key_at(s: Seq<(String, Json)>, key: Seq<char>, i: int) -> bool {
    &&& 0 <= i < s.len()
    &&& s[i].0@ == key
    &&& forall|j: int| 0 <= j < i ==> (#[trigger] s[j]).0@ != key
}

/// The value of the member `key` of an object (its first entry of that name),
/// or `None` when `j` is no object or has no such member.
pub open spec fn field(j: Json, key: Seq<char>) -> Option<Json> {
    match j {
        Json::Object(v) => if exists|i: int| first_key_at(v@, key, i) {
            Some(v@[choose|i: int| first_key_at(v@, key, i)].1)
        } else {
            None
        },
        _ => None,
    }
}

/// The text of a string value.
pub open spec fn as_str_spec(j: Json) -> Option<Seq<char>> {
    match j {
        Json::Str(s) => Some(s@),
        _ => None,
    }
}

/// The number of an integer value.
pub open spec fn as_i64_spec(j: Json) -> Option<i64> {
    match j {
        Json::Int(n) => Some(n),
        _ => None,
    }
}

/// The text of the member `key` when it is a string.
pub open spec fn str_field(j: Json, key: Seq<char>) -> Option<Seq<char>> {
    match field(j, key) {
        Some(v) => as_str_spec(v),
        None => None,
    }
}

impl Json {
    /// The member `key` of an object (`serde_json::Value::get` with a key).
    pub fn get(&self, key: &str) -> (r: Option<&Json>)
        ensures
            r matches Some(x) ==> field(*self, key@) == Some(*x),
            r is None ==> field(*self, key@) is None,
    {
        match self {
            Json::Object(v) => {
                let mut i: usize = 0;
                while i < v.len()
                    invariant
                        *self == Json::Object(*v),
                        i <= v@.len(),
                        forall|j: int| 0 <= j < i ==> (#[trigger] v@[j]).0@ != key@,
                    decreases v@.len() - i,
                {
                    if crate::text::str_eq(v[i].0.as_str(), key) {
                        assert(first_key_at(v@, key@, i as int));
                        proof {
                            let c = choose|k: int| first_key_at(v@, key@, k);
                            assert(first_key_at(v@, key@, c));
                            if c < i {
                                assert(v@[c].0@ != key@);
                            } else if c > i {
                                assert(v@[i as int].0@ == key@);
                            }
                            assert(c == i);
                        }
                        return Some(&v[i].1);
                    }
                    i = i + 1;
                }
                None
            },
            _ => None,
        }
    }

    /// The text of a string value (`serde_json::Value::as_str`).
    pub fn as_str(&self) -> (r: Option<&str>)
        ensures
            r matches Some(s) ==> as_str_spec(*self) == Some(s@),
            r is None ==> as_str_spec(*self) is None,
    {
        match self {
            Json::Str(s) => Some(s.as_str()),
            _ => None,
        }
    }

    /// The number of an integer value (`serde_json::Value::as_i64`).
    pub fn as_i64(&self) -> (r: Option<i64>)
        ensures
            r == as_i64_spec(*self),
    {
        match self {
            Json::Int(n) => Some(*n),
            _ => None,
        }
    }
}


/// The views of an array's elements.
pub open spec fn elements_view(v: Seq<Json>) -> Seq<JsonV> {
    Seq::new(v.len(), |i: int| json_view(v[i]))
}

/// The views of an object's entries.
pub open spec fn entries_view(v: Seq<(String, Json)>) -> Seq<(Seq<char>, JsonV)> {
    Seq::new(v.len(), |i: int| (v[i].0@, json_view(v[i].1)))
}

/// An array's view is the views of its elements; an object's, those of its
/// entries.
pub proof fn lemma_json_view_compound(j: Json)
    ensures
        j matches Json::Array(v) ==> json_view(j) == JsonV::Array(elements_view(v@)),
        j matches Json::Object(v) ==> json_view(j) == JsonV::Object(entries_view(v@)),
{
    match j {
        Json::Array(v) => {
            assert(json_view(j) == JsonV::Array(elements_view(v@))) by {
                if let JsonV::Array(s) = json_view(j) {
                    assert(s =~= elements_view(v@));
                }
            }
        },
        Json::Object(v) => {
            assert(json_view(j) == JsonV::Object(entries_view(v@))) by {
                if let JsonV::Object(s) = json_view(j) {
                    assert(s =~= entries_view(v@));
                }
            }
        },
        _ => {},
    }
}

/// A string value.
pub fn jstr(s: &str) -> (j: Json)
    ensures
        json_view(j) == JsonV::Str(s@),
{
    Json::Str(String::from_str(s))
}

/// A copy of a JSON value.
pub fn clone_json(j: &Json) -> (r: Json)
    ensures
        json_view(r) == json_view(*j),
    decreases *j,
{
    match j {
        Json::Null => Json::Null,
        Json::Bool(b) => Json::Bool(*b),
        Json::Int(n) => Json::Int(*n),
        Json::OtherNumber(s) => Json::OtherNumber(s.clone()),
        Json::Str(s) => Json::Str(s.clone()),
        Json::Array(v) => {
            let mut out: Vec<Json> = Vec::new();
            let mut i: usize = 0;
            while i < v.len()
                invariant
                    *j == Json::Array(*v),
                    i <= v@.len(),
                    out@.len() == i,
                    forall|k: int| 0 <= k < i ==> json_view(#[trigger] out@[k]) == json_view(v@[k]),
                decreases v@.len() - i,
            {
                proof {
                    assert(decreases_to!(*j => (*j)->Array_0));
                    assert(decreases_to!(*v => v@));
                    assert(decreases_to!(v@ => v@[i as int]));
                }
                let c = clone_json(&v[i]);
                out.push(c);
                i = i + 1;
            }
            proof {
                lemma_json_view_compound(*j);
                lemma_json_view_compound(Json::Array(out));
                assert(elements_view(out@) =~= elements_view(v@));
            }
            Json::Array(out)
        },
        Json::Object(v) => {
            let mut out: Vec<(String, Json)> = Vec::new();
            let mut i: usize = 0;
            while i < v.len()
                invariant
                    *j == Json::Object(*v),
                    i <= v@.len(),
                    out@.len() == i,
                    forall|k: int|
                        0 <= k < i ==> (#[trigger] out@[k]).0@ == v@[k].0@ && json_view(out@[k].1)
                            == json_view(v@[k].1),
                decreases v@.len() - i,
            {
                proof {
                    assert(decreases_to!(*j => (*j)->Object_0));
                    assert(decreases_to!(*v => v@));
                    assert(decreases_to!(v@ => v@[i as int]));
                    assert(decreases_to!(v@[i as int] => v@[i as int].1));
                }
                let c = clone_json(&v[i].1);
                out.push((v[i].0.clone(), c));
                i = i + 1;
            }
            proof {
                lemma_json_view_compound(*j);
                lemma_json_view_compound(Json::Object(out));
                assert(entries_view(out@) =~= entries_view(v@));
            }
            Json::Object(out)
        },
    }
}

} // verus!
