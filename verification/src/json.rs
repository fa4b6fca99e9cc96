//! A tree model of parsed JSON, with verified navigation helpers, and the
//! one trusted entry point that obtains such a tree from response text
//! through serde_json.
//!
//! Provider responses arrive as text; everything the adapters read out of
//! them — strings at a key path, arrays of entries, unsigned totals — is
//! held by this tree as plain values, so the extraction logic itself is
//! verified.

use vstd::prelude::*;

verus! {

/// A parsed JSON document. Numbers are kept only when they are unsigned
/// 64-bit integers: those are the only numbers the adapters read
/// (track totals); any other number is held as `Null`.
pub enum Json {
    Null,
    Bool(bool),
    Num(u64),
    Str(String),
    Arr(Vec<Json>),
    Obj(Vec<(String, Json)>),
}

/// What looking a key up in a sequence of object bindings means: the
/// value of the first binding whose key matches.
pub open spec fn spec_bindings_get(bindings: Seq<(String, Json)>, key: Seq<char>) -> Option<Json>
    decreases bindings.len(),
{
    if bindings.len() == 0 {
        None
    } else if bindings[0].0@ == key {
        Some(bindings[0].1)
    } else {
        spec_bindings_get(bindings.drop_first(), key)
    }
}

/// What a field access on a JSON value means: on an object, the first
/// binding under that key; on anything else, nothing.
pub open spec fn spec_get(j: Json, key: Seq<char>) -> Option<Json> {
    match j {
        Json::Obj(bindings) => spec_bindings_get(bindings@, key),
        _ => None,
    }
}

/// What an index access on a JSON value means: on an array, the element
/// at that position if it exists; on anything else, nothing.
pub open spec fn spec_at(j: Json, i: int) -> Option<Json> {
    match j {
        Json::Arr(items) => if 0 <= i < items@.len() {
            Some(items@[i])
        } else {
            None
        },
        _ => None,
    }
}

/// The characters of a JSON string value, if the value is a string.
pub open spec fn spec_as_str(j: Option<Json>) -> Option<Seq<char>> {
    match j {
        Some(Json::Str(s)) => Some(s@),
        _ => None,
    }
}

/// The characters of a JSON string value, or the empty sequence when the
/// value is absent or not a string: the defensive default every adapter
/// field read degrades to.
pub open spec fn spec_str_or_empty(j: Option<Json>) -> Seq<char> {
    match spec_as_str(j) {
        Some(s) => s,
        None => Seq::empty(),
    }
}

/// The unsigned value of a JSON number, if the value is one.
pub open spec fn spec_as_num(j: Option<Json>) -> Option<u64> {
    match j {
        Some(Json::Num(n)) => Some(n),
        _ => None,
    }
}

impl Json {
    /// The value under `key`, when this value is an object holding that
    /// key; the first binding wins.
    pub fn get<'a>(&'a self, key: &str) -> (r: Option<&'a Json>)
        ensures
            match r {
                Some(v) => spec_get(*self, key@) == Some(*v),
                None => spec_get(*self, key@) is None,
            },
    {
        match self {
            Json::Obj(bindings) => {
                let n = bindings.len();
                let mut i: usize = 0;
                proof {
                    assert(bindings@.subrange(0, n as int) =~= bindings@);
                }
                while i < n
                    invariant
                        n == bindings@.len(),
                        i <= n,
                        spec_get(*self, key@) == spec_bindings_get(bindings@, key@),
                        spec_bindings_get(bindings@, key@) == spec_bindings_get(
                            bindings@.subrange(i as int, n as int),
                            key@,
                        ),
                    decreases n - i,
                {
                    proof {
                        assert(bindings@.subrange(i as int, n as int).drop_first()
                            =~= bindings@.subrange(i + 1, n as int));
                    }
                    if crate::text::str_eq(bindings[i].0.as_str(), key) {
                        proof {
                            assert(bindings@.subrange(i as int, n as int)[0] == bindings@[i as int]);
                        }
                        return Some(&bindings[i].1);
                    }
                    i += 1;
                }
                proof {
                    assert(bindings@.subrange(n as int, n as int) =~= Seq::<(String, Json)>::empty());
                }
                None
            },
            _ => None,
        }
    }

    /// The element at position `i`, when this value is an array long
    /// enough.
    pub fn at<'a>(&'a self, i: usize) -> (r: Option<&'a Json>)
        ensures
            match r {
                Some(v) => spec_at(*self, i as int) == Some(*v),
                None => spec_at(*self, i as int) is None,
            },
    {
        match self {
            Json::Arr(items) => {
                if i < items.len() {
                    Some(&items[i])
                } else {
                    None
                }
            },
            _ => None,
        }
    }

    /// The string this value holds, if it is a string.
    pub fn as_str<'a>(&'a self) -> (r: Option<&'a String>)
        ensures
            match r {
                Some(s) => spec_as_str(Some(*self)) == Some(s@),
                None => spec_as_str(Some(*self)) is None,
            },
    {
        match self {
            Json::Str(s) => Some(s),
            _ => None,
        }
    }

    /// The unsigned number this value holds, if it is one.
    pub fn as_num(&self) -> (r: Option<u64>)
        ensures
            r == spec_as_num(Some(*self)),
    {
        match self {
            Json::Num(n) => Some(*n),
            _ => None,
        }
    }
}

/// The value a borrowed optional JSON value stands for.
pub open spec fn deref_opt(o: Option<&Json>) -> Option<Json> {
    match o {
        Some(v) => Some(*v),
        None => None,
    }
}

/// Field access carried through an optional value.
pub open spec fn spec_opt_get(j: Option<Json>, key: Seq<char>) -> Option<Json> {
    match j {
        Some(v) => spec_get(v, key),
        None => None,
    }
}

/// Index access carried through an optional value.
pub open spec fn spec_opt_at(j: Option<Json>, i: int) -> Option<Json> {
    match j {
        Some(v) => spec_at(v, i),
        None => None,
    }
}

/// Steps one key deeper, carrying absence through.
pub fn opt_get<'a>(j: Option<&'a Json>, key: &str) -> (r: Option<&'a Json>)
    ensures
        deref_opt(r) == spec_opt_get(deref_opt(j), key@),
{
    match j {
        Some(v) => v.get(key),
        None => None,
    }
}

/// Steps to one array element, carrying absence through.
pub fn opt_at<'a>(j: Option<&'a Json>, i: usize) -> (r: Option<&'a Json>)
    ensures
        deref_opt(r) == spec_opt_at(deref_opt(j), i as int),
{
    match j {
        Some(v) => v.at(i),
        None => None,
    }
}

/// The string held by an optional JSON value, as an owned option.
pub fn opt_str(j: Option<&Json>) -> (r: Option<String>)
    ensures
        r.deep_view() == spec_as_str(deref_opt(j)),
{
    match j {
        Some(v) => match v.as_str() {
            Some(s) => Some(s.clone()),
            None => None,
        },
        None => None,
    }
}

/// The string held by an optional JSON value, or an empty string where
/// the value is absent or not a string: the defensive field read every
/// adapter uses.
pub fn str_or_empty(j: Option<&Json>) -> (r: String)
    ensures
        r@ == spec_str_or_empty(deref_opt(j)),
{
    match j {
        Some(v) => match v.as_str() {
            Some(s) => s.clone(),
            None => String::new(),
        },
        None => String::new(),
    }
}

/// The elements of the array under `key`, or no elements where the key
/// is absent or holds no array: the shape every provider's listing pages
/// share.
pub open spec fn spec_arr_under(j: Json, key: Seq<char>) -> Seq<Json> {
    match spec_get(j, key) {
        Some(Json::Arr(items)) => items@,
        _ => Seq::empty(),
    }
}

/// The array under `key`, where the key holds one.
pub fn arr_under<'a>(j: &'a Json, key: &str) -> (r: Option<&'a Vec<Json>>)
    ensures
        match r {
            Some(v) => v@ == spec_arr_under(*j, key@),
            None => spec_arr_under(*j, key@) == Seq::<Json>::empty(),
        },
{
    match j.get(key) {
        Some(v) => match v {
            Json::Arr(items) => Some(items),
            _ => None,
        },
        None => None,
    }
}

/// The unsigned number held by an optional JSON value.
pub fn opt_num(j: Option<&Json>) -> (r: Option<u64>)
    ensures
        r == spec_as_num(deref_opt(j)),
{
    match j {
        Some(v) => v.as_num(),
        None => None,
    }
}

/// Declares serde_json's parsed-value type so the conversion below can
/// mention it; the library never reads inside such a value.
#[verifier::external_type_specification]
#[verifier::external_body]
pub struct ExValue(serde_json::Value);

/// What parsing JSON text yields: the tree for well-formed text, nothing
/// for malformed text. The result is a function of the text alone.
pub uninterp spec fn json_parse(s: Seq<char>) -> Option<Json>;

/// Relies on serde_json::Value: one arm per variant, moving the value
/// held by each; a number is kept only when it is an unsigned 64-bit
/// integer, as the tree model states.
#[verifier::external_body]
fn json_from_value(v: &serde_json::Value) -> Json {
    match v {
        serde_json::Value::Null => Json::Null,
        serde_json::Value::Bool(b) => Json::Bool(*b),
        serde_json::Value::Number(n) => match n.as_u64() {
            Some(u) => Json::Num(u),
            None => Json::Null,
        },
        serde_json::Value::String(s) => Json::Str(s.clone()),
        serde_json::Value::Array(a) => Json::Arr(a.iter().map(json_from_value).collect()),
        serde_json::Value::Object(m) => Json::Obj(
            m.iter().map(|(k, x)| (k.clone(), json_from_value(x))).collect(),
        ),
    }
}

/// Relies on serde_json::from_str: parses JSON text into a value, and
/// fails exactly on malformed text; the outcome depends on the text
/// alone.
#[verifier::external_body]
pub(crate) fn parse_json(s: &str) -> (r: Option<Json>)
    ensures
        r == json_parse(s@),
{
    match serde_json::from_str::<serde_json::Value>(s) {
        Ok(v) => Some(json_from_value(&v)),
        Err(_) => None,
    }
}

} // verus!
