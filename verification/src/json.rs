//! JSON documents as the services and the import manifests send them, and the
//! lookups the rest of the library makes in them.
//!
//! A missing key, an index past the end, or a value of the wrong kind all read
//! as "absent", the way `value["key"][0].as_str()` reads in serde_json.

use vstd::prelude::*;

use crate::text::same_text;

verus! {

/// A JSON number: its text, and its value when it is a non-negative integer
/// that fits in a `u64`.
#[derive(Debug, Clone)]
pub struct JsonNumber {
    pub text: String,
    pub unsigned: Option<u64>,
}

/// A JSON value. The members of an object keep their order, and no key occurs twice.
#[derive(Debug)]
pub enum Json {
    Null,
    Bool(bool),
    Number(JsonNumber),
    Str(String),
    Array(Vec<Json>),
    Object(Vec<(String, Json)>),
}

/// The value of the first member named `key`.
pub open spec fn member(pairs: Seq<(String, Json)>, key: Seq<char>) -> Option<Json>
    decreases pairs.len(),
{
    if pairs.len() == 0 {
        None
    } else if pairs[0].0@ == key {
        Some(pairs[0].1)
    } else {
        member(pairs.drop_first(), key)
    }
}

/// `j[key]`: the member `key` of an object.
pub open spec fn json_get(j: Option<Json>, key: Seq<char>) -> Option<Json> {
    match j {
        Some(Json::Object(pairs)) => member(pairs@, key),
        _ => None,
    }
}

/// `j[i]`: element `i` of an array.
pub open spec fn json_at(j: Option<Json>, i: int) -> Option<Json> {
    match j {
        Some(Json::Array(items)) => if 0 <= i < items.len() {
            Some(items@[i])
        } else {
            None
        },
        _ => None,
    }
}

/// `j.as_str()`.
pub open spec fn json_text(j: Option<Json>) -> Option<Seq<char>> {
    match j {
        Some(Json::Str(s)) => Some(s@),
        _ => None,
    }
}

/// `j.as_u64()`.
pub open spec fn json_unsigned(j: Option<Json>) -> Option<u64> {
    match j {
        Some(Json::Number(n)) => n.unsigned,
        _ => None,
    }
}

/// `j.as_array()`: the elements of an array.
pub open spec fn json_items(j: Option<Json>) -> Option<Seq<Json>> {
    match j {
        Some(Json::Array(items)) => Some(items@),
        _ => None,
    }
}

/// `j.is_null()`, where an absent value reads as null.
pub open spec fn json_null(j: Option<Json>) -> bool {
    match j {
        Some(Json::Null) | None => true,
        _ => false,
    }
}

/// The value a reference points to, if any.
pub open spec fn deref(j: Option<&Json>) -> Option<Json> {
    match j {
        Some(x) => Some(*x),
        None => None,
    }
}

/// `text` when it is `Some`, else `default`.
pub open spec fn text_or(text: Option<Seq<char>>, default: Seq<char>) -> Seq<char> {
    match text {
        Some(t) => t,
        None => default,
    }
}

/// The member `key` of `j`, if `j` is an object that has it.
pub fn get<'a>(j: Option<&'a Json>, key: &str) -> (r: Option<&'a Json>)
    ensures
        match r {
            Some(v) => json_get(deref(j), key@) == Some(*v),
            None => json_get(deref(j), key@) is None,
        },
{
    match j {
        Some(Json::Object(pairs)) => {
            let mut i: usize = 0;
            assert(json_get(deref(j), key@) == member(pairs@, key@));
            assert(pairs@.skip(0) =~= pairs@);
            while i < pairs.len()
                invariant
                    i <= pairs.len(),
                    json_get(deref(j), key@) == member(pairs@, key@),
                    member(pairs@, key@) == member(pairs@.skip(i as int), key@),
                decreases pairs.len() - i,
            {
                assert(pairs@.skip(i as int).drop_first() =~= pairs@.skip(i + 1));
                if same_text(pairs[i].0.as_str(), key) {
                    assert(pairs@.skip(i as int)[0] == pairs@[i as int]);
                    assert(member(pairs@.skip(i as int), key@) == Some(pairs@[i as int].1));
                    return Some(&pairs[i].1);
                }
                i = i + 1;
            }
            None
        },
        _ => None,
    }
}

/// Element `i` of `j`, if `j` is an array that long.
pub fn at<'a>(j: Option<&'a Json>, i: usize) -> (r: Option<&'a Json>)
    ensures
        match r {
            Some(v) => json_at(deref(j), i as int) == Some(*v),
            None => json_at(deref(j), i as int) is None,
        },
{
    match j {
        Some(Json::Array(items)) => if i < items.len() {
            Some(&items[i])
        } else {
            None
        },
        _ => None,
    }
}

/// The text of `j`, if it is a string.
pub fn text(j: Option<&Json>) -> (r: Option<String>)
    ensures
        match r {
            Some(s) => json_text(deref(j)) == Some(s@),
            None => json_text(deref(j)) is None,
        },
{
    match j {
        Some(Json::Str(s)) => Some(s.clone()),
        _ => None,
    }
}

/// The value of `j`, if it is a non-negative integer that fits in a `u64`.
pub fn unsigned(j: Option<&Json>) -> (r: Option<u64>)
    ensures
        r == json_unsigned(deref(j)),
{
    match j {
        Some(Json::Number(n)) => n.unsigned,
        _ => None,
    }
}

/// The elements of `j`, if it is an array.
pub fn items<'a>(j: Option<&'a Json>) -> (r: Option<&'a Vec<Json>>)
    ensures
        match r {
            Some(v) => json_items(deref(j)) == Some(v@),
            None => json_items(deref(j)) is None,
        },
{
    match j {
        Some(Json::Array(v)) => Some(v),
        _ => None,
    }
}

/// Whether `j` is null or absent.
pub fn is_null(j: Option<&Json>) -> (r: bool)
    ensures
        r == json_null(deref(j)),
{
    match j {
        Some(Json::Null) | None => true,
        _ => false,
    }
}

/// The text of `j`, or `default` when it is not a string.
pub fn text_or_default(j: Option<&Json>, default: &str) -> (r: String)
    ensures
        r@ == text_or(json_text(deref(j)), default@),
{
    match text(j) {
        Some(s) => s,
        None => default.to_string(),
    }
}

} // verus!
