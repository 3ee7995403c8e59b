//! JSON values as the upstream answers are read: parsed by serde_json, then
//! held in a type of this library.

use vstd::prelude::*;

use crate::text::str_eq;

verus! {

#[verifier::external_type_specification]
#[verifier::external_body]
pub struct ExJsonValue(serde_json::Value);

/// A JSON value. Numbers keep what the readers use of them: their value as an
/// `i64` when they are integers in its range.
#[derive(Debug)]
pub enum Json {
    Null,
    Bool(bool),
    Number(Option<i64>),
    Str(String),
    Array(Vec<Json>),
    /// The members of an object, each key once.
    Object(Vec<(String, Json)>),
}

/// What serde_json reads from a text: `None` when the text is not JSON.
pub uninterp spec fn json_parse(text: Seq<char>) -> Option<Json>;

/// The same JSON value held as a value of this library (one for one; a number
/// keeps `Number::as_i64`).
#[verifier::external_body]
fn json_of(v: serde_json::Value) -> Json {
    match v {
        serde_json::Value::Null => Json::Null,
        serde_json::Value::Bool(b) => Json::Bool(b),
        serde_json::Value::Number(n) => Json::Number(n.as_i64()),
        serde_json::Value::String(s) => Json::Str(s),
        serde_json::Value::Array(a) => Json::Array(a.into_iter().map(json_of).collect()),
        serde_json::Value::Object(m) => Json::Object(m.into_iter().map(|(k, x)| (k, json_of(x))).collect()),
    }
}

/// The message serde_json gives for a text that is not JSON (the `Display`
/// of its error: what went wrong, with the line and column).
pub uninterp spec fn json_error_message(text: Seq<char>) -> Seq<char>;

/// Parses a JSON text with `serde_json::from_str::<serde_json::Value>`: the
/// value, when there is one, is `json_parse` of the text; otherwise the
/// error's message, which is `json_error_message` of the text.
#[verifier::external_body]
fn serde_parse(text: &str) -> (r: Result<Json, String>)
    ensures
        r is Ok <==> json_parse(text@) is Some,
        r matches Ok(v) ==> json_parse(text@) == Some(v),
        r matches Err(m) ==> m@ == json_error_message(text@),
{
    match serde_json::from_str::<serde_json::Value>(text) {
        Ok(v) => Ok(json_of(v)),
        Err(e) => Err(e.to_string()),
    }
}

/// Parses a JSON text; on failure, the parser's error message.
pub fn parse_json(text: &str) -> (r: Result<Json, String>)
    ensures
        r is Ok <==> json_parse(text@) is Some,
        r matches Ok(v) ==> json_parse(text@) == Some(v),
        r matches Err(m) ==> m@ == json_error_message(text@),
{
    serde_parse(text)
}

/// The element at index `i` of an array (`Value::get` with an index).
pub open spec fn at(v: Json, i: int) -> Option<Json> {
    match v {
        Json::Array(a) => if 0 <= i < a@.len() {
            Some(a@[i])
        } else {
            None
        },
        _ => None,
    }
}

/// The position of the first member under `key`.
pub open spec fn key_position(m: Seq<(String, Json)>, key: Seq<char>) -> Option<int> {
    if exists|i: int| 0 <= i < m.len() && (#[trigger] m[i]).0@ == key {
        Some(
            choose|i: int|
                0 <= i < m.len() && (#[trigger] m[i]).0@ == key && forall|j: int|
                    0 <= j < i ==> (#[trigger] m[j]).0@ != key,
        )
    } else {
        None
    }
}

/// The first member found under a key is the one `key_position` names.
pub proof fn lemma_key_position(m: Seq<(String, Json)>, key: Seq<char>, i: int)
    requires
        0 <= i < m.len(),
        m[i].0@ == key,
        forall|j: int| 0 <= j < i ==> (#[trigger] m[j]).0@ != key,
    ensures
        key_position(m, key) == Some(i),
{
    assert(0 <= i < m.len() && (#[trigger] m[i]).0@ == key);
    let k = choose|k: int|
        0 <= k < m.len() && (#[trigger] m[k]).0@ == key && forall|j: int|
            0 <= j < k ==> (#[trigger] m[j]).0@ != key;
    if k < i {
        assert(m[k].0@ != key);
    }
    if k > i {
        assert(m[i].0@ != key);
    }
}

/// The member of an object under `key`, the first one if repeated.
pub open spec fn field(v: Json, key: Seq<char>) -> Option<Json> {
    match v {
        Json::Object(m) => match key_position(m@, key) {
            Some(i) => Some(m@[i].1),
            None => None,
        },
        _ => None,
    }
}

/// The member of an optional object under `key` (`None` stands for null).
pub open spec fn field_of(v: Option<Json>, key: Seq<char>) -> Option<Json> {
    match v {
        Some(x) => field(x, key),
        None => None,
    }
}

/// The text of a value that is a string.
pub open spec fn str_of(v: Option<Json>) -> Option<Seq<char>> {
    match v {
        Some(Json::Str(s)) => Some(s@),
        _ => None,
    }
}

/// The value of a number that is an `i64`.
pub open spec fn int_of(v: Option<Json>) -> Option<i64> {
    match v {
        Some(Json::Number(n)) => n,
        _ => None,
    }
}

impl Json {
    /// The element at index `i` of an array.
    pub fn get_index(&self, i: usize) -> (r: Option<&Json>)
        ensures
            match r {
                Some(x) => at(*self, i as int) == Some(*x),
                None => at(*self, i as int) is None,
            },
    {
        match self {
            Json::Array(a) => if i < a.len() {
                Some(&a[i])
            } else {
                None
            },
            _ => None,
        }
    }

    /// The member of an object under `key`.
    pub fn get_key(&self, key: &str) -> (r: Option<&Json>)
        ensures
            match r {
                Some(x) => field(*self, key@) == Some(*x),
                None => field(*self, key@) is None,
            },
    {
        match self {
            Json::Object(m) => {
                let mut i: usize = 0;
                while i < m.len()
                    invariant
                        i <= m.len(),
                        *self == Json::Object(*m),
                        forall|j: int| 0 <= j < i ==> (#[trigger] m@[j]).0@ != key@,
                    decreases m.len() - i,
                {
                    if str_eq(m[i].0.as_str(), key) {
                        proof {
                            lemma_key_position(m@, key@, i as int);
                        }
                        return Some(&m[i].1);
                    }
                    i = i + 1;
                }
                None
            },
            _ => None,
        }
    }

    /// The text of a string value.
    pub fn as_str(&self) -> (r: Option<&String>)
        ensures
            match r {
                Some(s) => str_of(Some(*self)) == Some(s@),
                None => str_of(Some(*self)) is None,
            },
    {
        match self {
            Json::Str(s) => Some(s),
            _ => None,
        }
    }

    /// The elements of an array value.
    pub fn as_array(&self) -> (r: Option<&Vec<Json>>)
        ensures
            match r {
                Some(a) => *self == Json::Array(*a),
                None => !(*self is Array),
            },
    {
        match self {
            Json::Array(a) => Some(a),
            _ => None,
        }
    }

    /// The value of an integer number.
    pub fn as_i64(&self) -> (r: Option<i64>)
        ensures
            r == int_of(Some(*self)),
    {
        match self {
            Json::Number(n) => *n,
            _ => None,
        }
    }
}

} // verus!
