//! A JSON document as a plain tree, with the navigation the extractor needs:
//! member lookup on objects, indexing into arrays, and reading string leaves.
//! Each step returns an explicit absent result instead of failing, so that a
//! drift in the platform's response shape degrades to a typed error.
//!
//! Parsing text into a tree is delegated to serde_json behind a trusted
//! wrapper; everything that walks the tree afterwards is verified.

use vstd::prelude::*;

use crate::text::str_eq_str;

verus! {

/// One JSON value. Numbers keep their decimal text and stay uninterpreted:
/// nothing in the crawl reads one.
#[derive(Debug)]
pub enum JsonValue {
    Null,
    Bool(bool),
    Num(String),
    Str(String),
    Arr(Vec<JsonValue>),
    Obj(Vec<(String, JsonValue)>),
}

/// The member of `key` among `pairs`: the first pair with that key, if any.
pub open spec fn spec_obj_lookup(pairs: Seq<(String, JsonValue)>, key: Seq<char>) -> Option<
    JsonValue,
>
    decreases pairs.len(),
{
    if pairs.len() == 0 {
        None
    } else if pairs[0].0@ == key {
        Some(pairs[0].1)
    } else {
        spec_obj_lookup(pairs.drop_first(), key)
    }
}

/// The member of `key` in `v`, when `v` is an object that has one.
pub open spec fn spec_member(v: JsonValue, key: Seq<char>) -> Option<JsonValue> {
    match v {
        JsonValue::Obj(pairs) => spec_obj_lookup(pairs@, key),
        _ => None,
    }
}

/// The `i`-th element of `v`, when `v` is an array that is long enough.
pub open spec fn spec_element(v: JsonValue, i: int) -> Option<JsonValue> {
    match v {
        JsonValue::Arr(items) => if 0 <= i < items@.len() {
            Some(items@[i])
        } else {
            None
        },
        _ => None,
    }
}

/// The characters of `v`, when `v` is a string.
pub open spec fn spec_as_str(v: JsonValue) -> Option<Seq<char>> {
    match v {
        JsonValue::Str(s) => Some(s@),
        _ => None,
    }
}

/// The value a shared reference stands for, lifted over `Option`.
pub open spec fn spec_opt(v: Option<&JsonValue>) -> Option<JsonValue> {
    match v {
        Some(j) => Some(*j),
        None => None,
    }
}

/// Member lookup continued along a chain of optional steps.
pub open spec fn spec_member_of(v: Option<JsonValue>, key: Seq<char>) -> Option<JsonValue> {
    match v {
        Some(j) => spec_member(j, key),
        None => None,
    }
}

/// Array indexing continued along a chain of optional steps.
pub open spec fn spec_element_of(v: Option<JsonValue>, i: int) -> Option<JsonValue> {
    match v {
        Some(j) => spec_element(j, i),
        None => None,
    }
}

/// String reading continued along a chain of optional steps.
pub open spec fn spec_str_of(v: Option<JsonValue>) -> Option<Seq<char>> {
    match v {
        Some(j) => spec_as_str(j),
        None => None,
    }
}

impl JsonValue {
    pub fn member<'a>(&'a self, key: &str) -> (r: Option<&'a JsonValue>)
        ensures
            spec_opt(r) == spec_member(*self, key@),
    {
        match self {
            JsonValue::Obj(pairs) => {
                let n = pairs.len();
                let mut i: usize = 0;
                proof {
                    assert(pairs@.skip(0) =~= pairs@);
                }
                while i < n
                    invariant
                        i <= n,
                        n == pairs@.len(),
                        *self == JsonValue::Obj(*pairs),
                        spec_member(*self, key@) == spec_obj_lookup(
                            pairs@.skip(i as int),
                            key@,
                        ),
                    decreases n - i,
                {
                    proof {
                        assert(pairs@.skip(i as int)[0] == pairs@[i as int]);
                    }
                    if str_eq_str(pairs[i].0.as_str(), key) {
                        return Some(&pairs[i].1);
                    }
                    proof {
                        assert(pairs@.skip(i as int).drop_first() =~= pairs@.skip(i as int + 1));
                    }
                    i += 1;
                }
                None
            },
            _ => None,
        }
    }

    pub fn element<'a>(&'a self, i: usize) -> (r: Option<&'a JsonValue>)
        ensures
            spec_opt(r) == spec_element(*self, i as int),
    {
        match self {
            JsonValue::Arr(items) => {
                if i < items.len() {
                    Some(&items[i])
                } else {
                    None
                }
            },
            _ => None,
        }
    }

    pub fn as_str<'a>(&'a self) -> (r: Option<&'a String>)
        ensures
            match r {
                Some(s) => spec_as_str(*self) == Some(s@),
                None => spec_as_str(*self) is None,
            },
    {
        match self {
            JsonValue::Str(s) => Some(s),
            _ => None,
        }
    }

}

/// Member lookup on an optional reference, for walking a fixed path.
pub fn member_of<'a>(v: Option<&'a JsonValue>, key: &str) -> (r: Option<&'a JsonValue>)
    ensures
        spec_opt(r) == spec_member_of(spec_opt(v), key@),
{
    match v {
        Some(j) => j.member(key),
        None => None,
    }
}

/// Array indexing on an optional reference, for walking a fixed path.
pub fn element_of<'a>(v: Option<&'a JsonValue>, i: usize) -> (r: Option<&'a JsonValue>)
    ensures
        spec_opt(r) == spec_element_of(spec_opt(v), i as int),
{
    match v {
        Some(j) => j.element(i),
        None => None,
    }
}

/// String reading on an optional reference, for ending a fixed path.
pub fn str_of<'a>(v: Option<&'a JsonValue>) -> (r: Option<&'a String>)
    ensures
        match r {
            Some(s) => spec_str_of(spec_opt(v)) == Some(s@),
            None => spec_str_of(spec_opt(v)) is None,
        },
{
    match v {
        Some(j) => j.as_str(),
        None => None,
    }
}

/// The document that `text` denotes, when `text` is valid JSON; `None` when it
/// is not. Named only: serde_json decides, and the result is a function of the
/// text alone.
pub uninterp spec fn parsed_json(text: Seq<char>) -> Option<JsonValue>;

#[verifier::external_type_specification]
#[verifier::external_body]
pub struct ExSerdeValue(serde_json::Value);

/// Part of the trusted JSON bridge: turns serde_json's tree into the crate's
/// own, one variant to one variant. Called only from `parse_json`.
#[verifier::external_body]
fn value_to_tree(v: serde_json::Value) -> JsonValue {
    match v {
        serde_json::Value::Null => JsonValue::Null,
        serde_json::Value::Bool(b) => JsonValue::Bool(b),
        serde_json::Value::Number(n) => JsonValue::Num(n.to_string()),
        serde_json::Value::String(s) => JsonValue::Str(s),
        serde_json::Value::Array(a) => JsonValue::Arr(a.into_iter().map(value_to_tree).collect()),
        serde_json::Value::Object(m) => JsonValue::Obj(
            m.into_iter().map(|p| (p.0, value_to_tree(p.1))).collect(),
        ),
    }
}

/// Relies on serde_json::from_str: strict JSON parsing, a function of the text
/// alone. `value_to_tree` carries the parsed document over into the crate's
/// tree.
#[verifier::external_body]
pub(crate) fn parse_json(text: &str) -> (r: Option<JsonValue>)
    ensures
        r == parsed_json(text@),
{
    match serde_json::from_str::<serde_json::Value>(text) {
        Ok(v) => Some(value_to_tree(v)),
        Err(_) => None,
    }
}

} // verus!
